use azure_engine::platform::wayland::managers::bind_manager::bind_global_request;
use azure_engine::platform::wayland::managers::compositor_manager::{
    create_surface_request, COMPOSITOR_ID, SURFACE_ID,
};
use azure_engine::platform::wayland::managers::registry_manager::{get_registry_request, sync_request};
use azure_engine::platform::wayland::managers::shm_manager::{
    create_buffer_request, create_shm_pool_request, BUFFER_ID, POOL_ID, SHM_ID,
};
use azure_engine::platform::wayland::managers::surface_manager::{commit_request, damage_buffer_request};
use azure_engine::platform::wayland::managers::xdg_manager::{
    ack_configure_request, attach_request, get_toplevel_request, get_xdg_surface_request,
    pong_request, TOPLEVEL_ID, XDG_SURFACE_ID, XDG_WM_BASE_ID,
};
use azure_engine::platform::wayland::managers::window_manager::{
    window_setup_requests, window_show_requests, CoreGlobals,
};
use azure_engine::platform::wayland::wire::{
    decode_header, push_le32, push_string_arg, read_le32, read_string_arg, MessageHeader,
};

fn header(bytes: &[u8]) -> MessageHeader {
    decode_header(bytes)
}

#[test]
fn push_le32_writes_little_endian() {
    let mut v = vec![9u8];
    push_le32(&mut v, 0x1234_5678);
    assert_eq!(v, vec![9, 0x78, 0x56, 0x34, 0x12]);
}

#[test]
fn read_le32_reads_at_offset() {
    let bytes = [0xff, 0x78, 0x56, 0x34, 0x12, 0x00];
    assert_eq!(read_le32(&bytes, 1), 0x1234_5678);
    assert_eq!(read_le32(&[1, 0, 0, 0], 0), 1);
}

#[test]
fn decode_header_splits_size_and_opcode() {
    let h = header(&[2, 0, 0, 0, 5, 0, 12, 0]);
    assert_eq!(h, MessageHeader { object_id: 2, size: 12, opcode: 5 });
    let h = header(&[0x01, 0x02, 0x03, 0x04, 0xff, 0xff, 0xfe, 0xff]);
    assert_eq!(h.object_id, 0x0403_0201);
    assert_eq!(h.size, 0xfffe);
    assert_eq!(h.opcode, 0xffff);
}

#[test]
fn string_arg_is_padded_with_nul() {
    let mut v = Vec::new();
    push_string_arg(&mut v, b"wl_shm");
    assert_eq!(v, vec![7, 0, 0, 0, b'w', b'l', b'_', b's', b'h', b'm', 0, 0]);
    let mut w = Vec::new();
    push_string_arg(&mut w, b"abc");
    assert_eq!(w, vec![4, 0, 0, 0, b'a', b'b', b'c', 0]);
    let mut e = Vec::new();
    push_string_arg(&mut e, b"");
    assert_eq!(e, vec![1, 0, 0, 0, 0, 0, 0, 0]);
}

#[test]
fn string_arg_reads_back() {
    let mut v = vec![0xaa, 0xbb, 0xcc, 0xdd];
    push_string_arg(&mut v, "xdg_wm_base".as_bytes());
    assert_eq!(read_string_arg(&v, 4), "xdg_wm_base");
}

#[test]
fn string_arg_replaces_invalid_utf8() {
    let v = vec![3, 0, 0, 0, 0xff, b'a', 0, 0];
    assert_eq!(read_string_arg(&v, 0), "\u{fffd}a");
}

#[test]
fn registry_and_sync_requests() {
    assert_eq!(get_registry_request(), vec![1, 0, 0, 0, 1, 0, 12, 0, 2, 0, 0, 0]);
    assert_eq!(sync_request(), vec![1, 0, 0, 0, 0, 0, 12, 0, 3, 0, 0, 0]);
}

#[test]
fn bind_wl_shm_request() {
    let msg = bind_global_request(1, "wl_shm", 2, 4);
    assert_eq!(
        msg,
        vec![
            2, 0, 0, 0, 0, 0, 32, 0, 1, 0, 0, 0, 7, 0, 0, 0, b'w', b'l', b'_', b's', b'h', b'm', 0,
            0, 2, 0, 0, 0, 4, 0, 0, 0,
        ]
    );
    let h = header(&msg);
    assert_eq!(h.size as usize, msg.len());
    assert_eq!(h.opcode, 0);
}

#[test]
fn bind_xdg_wm_base_request_is_well_formed() {
    let msg = bind_global_request(0x0102, "xdg_wm_base", 1, 9);
    assert_eq!(msg.len(), 8 + 4 + 4 + 12 + 4 + 4);
    assert_eq!(msg.len() % 4, 0);
    assert_eq!(header(&msg).size as usize, msg.len());
    assert_eq!(&msg[8..12], &[2, 1, 0, 0]);
    assert_eq!(&msg[msg.len() - 8..], &[1, 0, 0, 0, 9, 0, 0, 0]);
}

#[test]
fn create_surface_and_shm_requests() {
    assert_eq!(SURFACE_ID, 8);
    assert_eq!(create_surface_request(7), vec![7, 0, 0, 0, 0, 0, 12, 0, 8, 0, 0, 0]);
    assert_eq!((SHM_ID, POOL_ID, BUFFER_ID), (4, 5, 6));
    let size: usize = 800 * 800 * 4;
    let mut expected = vec![4, 0, 0, 0, 0, 0, 16, 0, 5, 0, 0, 0];
    expected.extend_from_slice(&(size as i32).to_le_bytes());
    assert_eq!(create_shm_pool_request(size), expected);
}

#[test]
fn create_buffer_request_bytes() {
    let msg = create_buffer_request(5, 800, 600);
    let mut expected = vec![5, 0, 0, 0, 0, 0, 32, 0, 6, 0, 0, 0, 0, 0, 0, 0];
    expected.extend_from_slice(&800i32.to_le_bytes());
    expected.extend_from_slice(&600i32.to_le_bytes());
    expected.extend_from_slice(&3200i32.to_le_bytes());
    expected.extend_from_slice(&[0, 0, 0, 0]);
    assert_eq!(msg, expected);
    let neg = create_buffer_request(5, -1, 2);
    assert_eq!(&neg[16..20], &[0xff, 0xff, 0xff, 0xff]);
    assert_eq!(&neg[24..28], &(-4i32).to_le_bytes());
}

#[test]
fn surface_requests() {
    assert_eq!(commit_request(8), vec![8, 0, 0, 0, 6, 0, 8, 0]);
    let msg = damage_buffer_request(8, 1, 2, 800, 600);
    let mut expected = vec![8, 0, 0, 0, 9, 0, 24, 0, 1, 0, 0, 0, 2, 0, 0, 0];
    expected.extend_from_slice(&800i32.to_le_bytes());
    expected.extend_from_slice(&600i32.to_le_bytes());
    assert_eq!(msg, expected);
}

#[test]
fn xdg_requests() {
    assert_eq!((XDG_WM_BASE_ID, XDG_SURFACE_ID, TOPLEVEL_ID), (9, 10, 11));
    assert_eq!(get_xdg_surface_request(9, 8), vec![9, 0, 0, 0, 2, 0, 16, 0, 10, 0, 0, 0, 8, 0, 0, 0]);
    assert_eq!(get_toplevel_request(10), vec![10, 0, 0, 0, 1, 0, 12, 0, 11, 0, 0, 0]);
    assert_eq!(ack_configure_request(10, 77), vec![10, 0, 0, 0, 4, 0, 12, 0, 77, 0, 0, 0]);
    assert_eq!(
        attach_request(8, 6),
        vec![8, 0, 0, 0, 1, 0, 20, 0, 6, 0, 0, 0, 0, 0, 0, 0, 0, 0, 0, 0]
    );
    assert_eq!(pong_request(9, 5), vec![9, 0, 0, 0, 3, 0, 12, 0, 5, 0, 0, 0]);
}

#[test]
fn every_fixed_request_states_its_length() {
    let msgs = vec![
        get_registry_request(),
        sync_request(),
        create_surface_request(7),
        create_shm_pool_request(64),
        create_buffer_request(5, 4, 4),
        commit_request(8),
        damage_buffer_request(8, 0, 0, 4, 4),
        get_xdg_surface_request(9, 8),
        get_toplevel_request(10),
        ack_configure_request(10, 1),
        attach_request(8, 6),
        pong_request(9, 1),
    ];
    for m in msgs {
        assert_eq!(m.len() % 4, 0);
        assert_eq!(header(&m).size as usize, m.len());
    }
}

#[test]
fn window_setup_requests_in_order() {
    let globals = CoreGlobals { shm: 21, compositor: 22, xdg_wm_base: 23 };
    let msgs = window_setup_requests(globals, 640, 480, 640 * 480 * 4);
    let expected = vec![
        bind_global_request(21, "wl_shm", 2, SHM_ID),
        create_shm_pool_request(640 * 480 * 4),
        create_buffer_request(POOL_ID, 640, 480),
        bind_global_request(22, "wl_compositor", 4, COMPOSITOR_ID),
        create_surface_request(COMPOSITOR_ID),
        bind_global_request(23, "xdg_wm_base", 1, XDG_WM_BASE_ID),
        get_xdg_surface_request(XDG_WM_BASE_ID, SURFACE_ID),
        get_toplevel_request(XDG_SURFACE_ID),
        commit_request(SURFACE_ID),
    ];
    assert_eq!(msgs, expected);
    // the objects are addressed in the order they come to exist
    let targets: Vec<u32> = msgs.iter().map(|m| read_le32(m, 0)).collect();
    assert_eq!(targets, vec![2, 4, 5, 2, 7, 2, 9, 10, 8]);
    // the pool size travels in the second request
    assert_eq!(read_le32(&msgs[1], 12), 1_228_800);
}

#[test]
fn window_show_requests_damage_before_commit() {
    let msgs = window_show_requests(77, 640, 480);
    let expected = vec![
        ack_configure_request(XDG_SURFACE_ID, 77),
        damage_buffer_request(SURFACE_ID, 0, 0, 640, 480),
        attach_request(SURFACE_ID, BUFFER_ID),
        commit_request(SURFACE_ID),
    ];
    assert_eq!(msgs, expected);
    let opcodes: Vec<(u32, u16)> = msgs.iter().map(|m| (read_le32(m, 0), header(m).opcode)).collect();
    assert_eq!(opcodes, vec![(10, 4), (8, 9), (8, 1), (8, 6)]);
    assert_eq!(read_le32(&msgs[0], 8), 77);
}
