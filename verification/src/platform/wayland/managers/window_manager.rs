use vstd::prelude::*;
use vstd::string::is_ascii_spec_bytes;
use vstd::utf8::encode_utf8;
use crate::platform::wayland::managers::bind_manager::{bind_global_request, bind_message};
use crate::platform::wayland::managers::compositor_manager::{
    COMPOSITOR_ID, SURFACE_ID, create_surface_message, create_surface_request,
};
use crate::platform::wayland::managers::registry_manager::{find_global, spec_find_global};
use crate::platform::wayland::managers::shm_manager::{
    BUFFER_ID, POOL_ID, SHM_ID, create_buffer_message, create_buffer_request,
    create_shm_pool_message, create_shm_pool_request,
};
use crate::platform::wayland::managers::surface_manager::{
    commit_message, commit_request, damage_buffer_message, damage_buffer_request,
};
use crate::platform::wayland::managers::xdg_manager::{
    XDG_SURFACE_ID, XDG_WM_BASE_ID, ack_configure_message, ack_configure_request, attach_message,
    attach_request, get_toplevel_message, get_toplevel_request, get_xdg_surface_message,
    get_xdg_surface_request,
};
use crate::platform::wayland::models::registry::WaylandRegistry;

verus! {

/// The numeric names under which the three globals a window needs were
/// announced.
#[derive(Debug, Clone, Copy, PartialEq, Eq)]
pub struct CoreGlobals {
    pub shm: u32,
    pub compositor: u32,
    pub xdg_wm_base: u32,
}

/// Finds `wl_shm`, `wl_compositor` and `xdg_wm_base`, in that order; the
/// first one missing is reported as "<interface> not found".
pub fn find_core_globals(registry: &WaylandRegistry) -> (found: Result<CoreGlobals, String>)
    ensures
        found matches Ok(g) ==> {
            &&& spec_find_global(registry@, "wl_shm"@) == Some(g.shm)
            &&& spec_find_global(registry@, "wl_compositor"@) == Some(g.compositor)
            &&& spec_find_global(registry@, "xdg_wm_base"@) == Some(g.xdg_wm_base)
        },
        found is Err <==> (spec_find_global(registry@, "wl_shm"@) is None || spec_find_global(
            registry@,
            "wl_compositor"@,
        ) is None || spec_find_global(registry@, "xdg_wm_base"@) is None),
        found matches Err(e) ==> {
            &&& spec_find_global(registry@, "wl_shm"@) is None ==> e@ == "wl_shm not found"@
            &&& spec_find_global(registry@, "wl_shm"@) is Some && spec_find_global(
                registry@,
                "wl_compositor"@,
            ) is None ==> e@ == "wl_compositor not found"@
            &&& spec_find_global(registry@, "wl_shm"@) is Some && spec_find_global(
                registry@,
                "wl_compositor"@,
            ) is Some ==> e@ == "xdg_wm_base not found"@
        },
{
    let shm = match find_global(registry, "wl_shm") {
        Some(id) => id,
        None => return Err("wl_shm not found".to_owned()),
    };
    let compositor = match find_global(registry, "wl_compositor") {
        Some(id) => id,
        None => return Err("wl_compositor not found".to_owned()),
    };
    let xdg_wm_base = match find_global(registry, "xdg_wm_base") {
        Some(id) => id,
        None => return Err("xdg_wm_base not found".to_owned()),
    };
    Ok(CoreGlobals { shm, compositor, xdg_wm_base })
}

/// The requests that set a window up, in the order they are sent before the
/// first configure event: bind `wl_shm` (version 2); create the pool of
/// `pool_size` bytes, whose file descriptor travels beside the request, and
/// the `width` by `height` buffer in it; bind `wl_compositor` (version 4)
/// and create the surface; bind `xdg_wm_base` (version 1), give the surface
/// the xdg role and make it a toplevel; and commit the surface, which asks
/// the compositor for a configure event.
pub open spec fn window_setup_messages(globals: CoreGlobals, width: i32, height: i32, pool_size: usize) -> Seq<Seq<u8>> {
    seq![
        bind_message(globals.shm, encode_utf8("wl_shm"@), 2, SHM_ID),
        create_shm_pool_message(pool_size),
        create_buffer_message(POOL_ID, width, height),
        bind_message(globals.compositor, encode_utf8("wl_compositor"@), 4, COMPOSITOR_ID),
        create_surface_message(COMPOSITOR_ID),
        bind_message(globals.xdg_wm_base, encode_utf8("xdg_wm_base"@), 1, XDG_WM_BASE_ID),
        get_xdg_surface_message(XDG_WM_BASE_ID, SURFACE_ID),
        get_toplevel_message(XDG_SURFACE_ID),
        commit_message(SURFACE_ID),
    ]
}

/// The requests that put the window on screen once the compositor has
/// configured it with `serial`, in the order they are sent: acknowledge the
/// configure, mark the whole `width` by `height` buffer as damaged, attach
/// the buffer, and commit the surface. The damage comes before the commit.
pub open spec fn window_show_messages(serial: u32, width: i32, height: i32) -> Seq<Seq<u8>> {
    seq![
        ack_configure_message(XDG_SURFACE_ID, serial),
        damage_buffer_message(SURFACE_ID, 0, 0, width, height),
        attach_message(SURFACE_ID, BUFFER_ID),
        commit_message(SURFACE_ID),
    ]
}

/// Builds the requests of `window_setup_messages`, in order. The second is
/// to be sent with the pool's file descriptor.
pub fn window_setup_requests(globals: CoreGlobals, width: i32, height: i32, pool_size: usize) -> (msgs: Vec<Vec<u8>>)
    requires
        i32::MIN <= width * 4 <= i32::MAX,
    ensures
        msgs@.map_values(|m: Vec<u8>| m@) == window_setup_messages(globals, width, height, pool_size),
{
    proof {
        broadcast use is_ascii_spec_bytes;
        reveal_strlit("wl_shm");
        reveal_strlit("wl_compositor");
        reveal_strlit("xdg_wm_base");
        assert("wl_shm".is_ascii());
        assert("wl_compositor".is_ascii());
        assert("xdg_wm_base".is_ascii());
    }
    let mut msgs: Vec<Vec<u8>> = Vec::new();
    msgs.push(bind_global_request(globals.shm, "wl_shm", 2, SHM_ID));
    msgs.push(create_shm_pool_request(pool_size));
    msgs.push(create_buffer_request(POOL_ID, width, height));
    msgs.push(bind_global_request(globals.compositor, "wl_compositor", 4, COMPOSITOR_ID));
    msgs.push(create_surface_request(COMPOSITOR_ID));
    msgs.push(bind_global_request(globals.xdg_wm_base, "xdg_wm_base", 1, XDG_WM_BASE_ID));
    msgs.push(get_xdg_surface_request(XDG_WM_BASE_ID, SURFACE_ID));
    msgs.push(get_toplevel_request(XDG_SURFACE_ID));
    msgs.push(commit_request(SURFACE_ID));
    assert(msgs@.map_values(|m: Vec<u8>| m@) =~= window_setup_messages(globals, width, height, pool_size));
    msgs
}

/// Builds the requests of `window_show_messages`, in order.
pub fn window_show_requests(serial: u32, width: i32, height: i32) -> (msgs: Vec<Vec<u8>>)
    ensures
        msgs@.map_values(|m: Vec<u8>| m@) == window_show_messages(serial, width, height),
{
    let mut msgs: Vec<Vec<u8>> = Vec::new();
    msgs.push(ack_configure_request(XDG_SURFACE_ID, serial));
    msgs.push(damage_buffer_request(SURFACE_ID, 0, 0, width, height));
    msgs.push(attach_request(SURFACE_ID, BUFFER_ID));
    msgs.push(commit_request(SURFACE_ID));
    assert(msgs@.map_values(|m: Vec<u8>| m@) =~= window_show_messages(serial, width, height));
    msgs
}

} // verus!
