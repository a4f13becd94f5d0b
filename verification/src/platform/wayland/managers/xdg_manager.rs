use vstd::prelude::*;
use crate::platform::wayland::wire::{le32, message, push_le32};

verus! {

/// The id under which `xdg_wm_base` is bound.
pub const XDG_WM_BASE_ID: u32 = 9;

/// The id given to the xdg surface that `xdg_wm_base.get_xdg_surface` creates.
pub const XDG_SURFACE_ID: u32 = 10;

/// The id given to the toplevel that `xdg_surface.get_toplevel` creates.
pub const TOPLEVEL_ID: u32 = 11;

/// `xdg_wm_base.get_xdg_surface` for `surface_id`, creating `XDG_SURFACE_ID`.
pub open spec fn get_xdg_surface_message(xdg_wm_base_id: u32, surface_id: u32) -> Seq<u8> {
    message(xdg_wm_base_id, 16, 2, le32(XDG_SURFACE_ID) + le32(surface_id))
}

pub fn get_xdg_surface_request(xdg_wm_base_id: u32, surface_id: u32) -> (msg: Vec<u8>)
    ensures
        msg@ == get_xdg_surface_message(xdg_wm_base_id, surface_id),
{
    let mut msg = Vec::new();
    push_le32(&mut msg, xdg_wm_base_id);
    push_le32(&mut msg, (16u32 << 16) | 2u32);
    push_le32(&mut msg, XDG_SURFACE_ID);
    push_le32(&mut msg, surface_id);
    assert(msg@ =~= get_xdg_surface_message(xdg_wm_base_id, surface_id));
    msg
}

/// `xdg_surface.get_toplevel`, creating `TOPLEVEL_ID`.
pub open spec fn get_toplevel_message(xdg_surface_id: u32) -> Seq<u8> {
    message(xdg_surface_id, 12, 1, le32(TOPLEVEL_ID))
}

pub fn get_toplevel_request(xdg_surface_id: u32) -> (msg: Vec<u8>)
    ensures
        msg@ == get_toplevel_message(xdg_surface_id),
{
    let mut msg = Vec::new();
    push_le32(&mut msg, xdg_surface_id);
    push_le32(&mut msg, (12u32 << 16) | 1u32);
    push_le32(&mut msg, TOPLEVEL_ID);
    msg
}

/// `xdg_surface.ack_configure` for the configure event numbered `serial`.
pub open spec fn ack_configure_message(xdg_surface_id: u32, serial: u32) -> Seq<u8> {
    message(xdg_surface_id, 12, 4, le32(serial))
}

pub fn ack_configure_request(xdg_surface_id: u32, serial: u32) -> (msg: Vec<u8>)
    ensures
        msg@ == ack_configure_message(xdg_surface_id, serial),
{
    let mut msg = Vec::new();
    push_le32(&mut msg, xdg_surface_id);
    push_le32(&mut msg, (12u32 << 16) | 4u32);
    push_le32(&mut msg, serial);
    msg
}

/// `wl_surface.attach` of `buffer_id` at offset (0, 0).
pub open spec fn attach_message(surface_id: u32, buffer_id: u32) -> Seq<u8> {
    message(surface_id, 20, 1, le32(buffer_id) + le32(0) + le32(0))
}

pub fn attach_request(surface_id: u32, buffer_id: u32) -> (msg: Vec<u8>)
    ensures
        msg@ == attach_message(surface_id, buffer_id),
{
    let mut msg = Vec::new();
    push_le32(&mut msg, surface_id);
    push_le32(&mut msg, (20u32 << 16) | 1u32);
    push_le32(&mut msg, buffer_id);
    push_le32(&mut msg, 0u32);
    push_le32(&mut msg, 0u32);
    assert(msg@ =~= attach_message(surface_id, buffer_id));
    msg
}

/// `xdg_wm_base.pong`, answering the ping numbered `serial`.
pub open spec fn pong_message(xdg_wm_base_id: u32, serial: u32) -> Seq<u8> {
    message(xdg_wm_base_id, 12, 3, le32(serial))
}

pub fn pong_request(xdg_wm_base_id: u32, serial: u32) -> (msg: Vec<u8>)
    ensures
        msg@ == pong_message(xdg_wm_base_id, serial),
{
    let mut msg = Vec::new();
    push_le32(&mut msg, xdg_wm_base_id);
    push_le32(&mut msg, (12u32 << 16) | 3u32);
    push_le32(&mut msg, serial);
    msg
}

} // verus!
