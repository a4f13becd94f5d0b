use azure_engine::platform::wayland::managers::bind_manager::bind_global_request;
use azure_engine::platform::wayland::managers::registry_manager::{
    find_global, global_args_well_formed, handle_registry_event, parse_global, str_eq,
    RegistryStep, REGISTRY_ID, SYNC_CALLBACK_ID,
};
use azure_engine::platform::wayland::managers::window_manager::{find_core_globals, CoreGlobals};
use azure_engine::platform::wayland::models::object_id_allocator::ObjectIdAllocator;
use azure_engine::platform::wayland::models::registry::{WaylandGlobal, WaylandRegistry};
use azure_engine::platform::wayland::models::shared_memory::WaylandMemory;
use azure_engine::platform::wayland::wire::{push_le32, push_string_arg};

fn global_args(id: u32, name: &str, version: u32) -> Vec<u8> {
    let mut v = Vec::new();
    push_le32(&mut v, id);
    push_string_arg(&mut v, name.as_bytes());
    push_le32(&mut v, version);
    v
}

fn registry_of(entries: &[(&str, u32, u32)]) -> WaylandRegistry {
    let mut r = WaylandRegistry::new();
    for (name, version, id) in entries {
        r.add_global(WaylandGlobal::new(name, *version, *id));
    }
    r
}

#[test]
fn global_getters() {
    let g = WaylandGlobal::new("wl_compositor", 6, 3);
    assert_eq!(g.name(), "wl_compositor");
    assert_eq!(g.version(), 6);
    assert_eq!(g.id(), 3);
}

#[test]
fn registry_keeps_announcement_order() {
    let r = registry_of(&[("a", 1, 10), ("b", 2, 20)]);
    let gs = r.get_globals();
    assert_eq!(gs.len(), 2);
    assert_eq!(gs[0].name(), "a");
    assert_eq!(gs[1].id(), 20);
    assert!(WaylandRegistry::new().get_globals().is_empty());
}

#[test]
fn find_global_first_match_wins() {
    let r = registry_of(&[("wl_shm", 1, 4), ("wl_seat", 7, 9), ("wl_shm", 1, 12)]);
    assert_eq!(find_global(&r, "wl_shm"), Some(4));
    assert_eq!(find_global(&r, "wl_seat"), Some(9));
    assert_eq!(find_global(&r, "wl_sh"), None);
    assert_eq!(find_global(&r, "wl_shm_"), None);
    assert_eq!(find_global(&WaylandRegistry::new(), "wl_shm"), None);
}

#[test]
fn str_eq_compares_text() {
    assert!(str_eq("héllo", "héllo"));
    assert!(!str_eq("héllo", "hello"));
    assert!(!str_eq("ab", "abc"));
    assert!(str_eq("", ""));
}

#[test]
fn parse_global_reads_announcement() {
    let args = global_args(42, "wl_compositor", 5);
    assert!(global_args_well_formed(&args));
    let g = parse_global(&args);
    assert_eq!(g.id(), 42);
    assert_eq!(g.name(), "wl_compositor");
    assert_eq!(g.version(), 5);
}

#[test]
fn malformed_global_arguments_are_detected() {
    assert!(!global_args_well_formed(&[]));
    assert!(!global_args_well_formed(&[1, 0, 0, 0, 0, 0, 0, 0, 0, 0, 0, 0]));
    let mut args = global_args(1, "wl_shm", 1);
    args.pop();
    assert!(!global_args_well_formed(&args));
    let mut long = vec![1, 0, 0, 0];
    push_le32(&mut long, 100);
    long.extend_from_slice(&[0; 8]);
    assert!(!global_args_well_formed(&long));
}

#[test]
fn registry_events_build_the_registry() {
    let mut r = WaylandRegistry::new();
    let step = handle_registry_event(&mut r, REGISTRY_ID, 0, &global_args(1, "wl_shm", 1));
    assert_eq!(step, RegistryStep::Continue);
    let step = handle_registry_event(&mut r, REGISTRY_ID, 1, &[5, 0, 0, 0]);
    assert_eq!(step, RegistryStep::Continue);
    let step = handle_registry_event(&mut r, 7, 0, &[]);
    assert_eq!(step, RegistryStep::Continue);
    let step = handle_registry_event(&mut r, REGISTRY_ID, 0, &global_args(2, "xdg_wm_base", 3));
    assert_eq!(step, RegistryStep::Continue);
    let step = handle_registry_event(&mut r, SYNC_CALLBACK_ID, 0, &[0, 0, 0, 0]);
    assert_eq!(step, RegistryStep::Done);
    assert_eq!(r.get_globals().len(), 2);
    assert_eq!(find_global(&r, "xdg_wm_base"), Some(2));
}

#[test]
fn core_globals_found_or_reported() {
    let full = registry_of(&[("xdg_wm_base", 1, 30), ("wl_compositor", 4, 20), ("wl_shm", 1, 10)]);
    assert_eq!(
        find_core_globals(&full),
        Ok(CoreGlobals { shm: 10, compositor: 20, xdg_wm_base: 30 })
    );
    let none = WaylandRegistry::new();
    assert_eq!(find_core_globals(&none), Err("wl_shm not found".to_string()));
    let shm_only = registry_of(&[("wl_shm", 1, 10)]);
    assert_eq!(find_core_globals(&shm_only), Err("wl_compositor not found".to_string()));
    let no_xdg = registry_of(&[("wl_shm", 1, 10), ("wl_compositor", 4, 20)]);
    assert_eq!(find_core_globals(&no_xdg), Err("xdg_wm_base not found".to_string()));
}

#[test]
fn allocator_counts_up_from_four() {
    let mut a = ObjectIdAllocator::new();
    assert_eq!(a.next_id(), 4);
    assert_eq!(a.next_id(), 5);
    assert_eq!(a.next_id(), 6);
}

#[test]
fn shared_memory_getters() {
    let m = WaylandMemory::new(7, 2_560_000);
    assert_eq!(m.fd(), 7);
    assert_eq!(m.size(), 2_560_000);
}

#[test]
fn bind_arguments_read_back_as_a_global() {
    let msg = bind_global_request(17, "wl_compositor", 4, 7);
    let args = &msg[8..msg.len() - 4];
    assert!(global_args_well_formed(args));
    let g = parse_global(args);
    assert_eq!((g.id(), g.name(), g.version()), (17, "wl_compositor", 4));
}
