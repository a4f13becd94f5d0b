use vstd::prelude::*;
use crate::platform::wayland::wire::{le32, message, push_le32};

verus! {

/// The id under which `wl_compositor` is bound.
pub const COMPOSITOR_ID: u32 = 7;

/// The id given to the surface that `wl_compositor.create_surface` creates.
pub const SURFACE_ID: u32 = 8;

/// `wl_compositor.create_surface`, creating the surface `SURFACE_ID`.
pub open spec fn create_surface_message(compositor_id: u32) -> Seq<u8> {
    message(compositor_id, 12, 0, le32(SURFACE_ID))
}

pub fn create_surface_request(compositor_id: u32) -> (msg: Vec<u8>)
    ensures
        msg@ == create_surface_message(compositor_id),
{
    let mut msg = Vec::new();
    push_le32(&mut msg, compositor_id);
    push_le32(&mut msg, (12u32 << 16) | 0u32);
    push_le32(&mut msg, SURFACE_ID);
    msg
}

} // verus!
