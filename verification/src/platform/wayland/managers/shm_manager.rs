use vstd::prelude::*;
use crate::platform::wayland::wire::{le32, message, push_le32};

verus! {

/// The id under which `wl_shm` is bound.
pub const SHM_ID: u32 = 4;

/// The id given to the pool that `wl_shm.create_pool` creates.
pub const POOL_ID: u32 = 5;

/// The id given to the buffer that `wl_shm_pool.create_buffer` creates.
pub const BUFFER_ID: u32 = 6;

/// `wl_shm.create_pool` of `size` bytes, creating the pool `POOL_ID`; the
/// file descriptor travels beside the message. The size is written as an
/// `i32`, truncated to 32 bits.
pub open spec fn create_shm_pool_message(size: usize) -> Seq<u8> {
    message(SHM_ID, 16, 0, le32(POOL_ID) + le32(size as u32))
}

pub fn create_shm_pool_request(size: usize) -> (msg: Vec<u8>)
    ensures
        msg@ == create_shm_pool_message(size),
{
    let mut msg = Vec::new();
    push_le32(&mut msg, SHM_ID);
    push_le32(&mut msg, (16u32 << 16) | 0u32);
    push_le32(&mut msg, POOL_ID);
    push_le32(&mut msg, size as u32);
    assert(msg@ =~= create_shm_pool_message(size));
    msg
}

/// `wl_shm_pool.create_buffer` at offset 0 of the pool, `width` by `height`
/// pixels of four bytes each (stride `width * 4`) in format 0 (ARGB8888),
/// creating the buffer `BUFFER_ID`.
pub open spec fn create_buffer_message(pool_id: u32, width: i32, height: i32) -> Seq<u8> {
    message(
        pool_id,
        32,
        0,
        le32(BUFFER_ID) + le32(0) + le32(width as u32) + le32(height as u32) + le32(
            (width * 4) as i32 as u32,
        ) + le32(0),
    )
}

pub fn create_buffer_request(pool_id: u32, width: i32, height: i32) -> (msg: Vec<u8>)
    requires
        i32::MIN <= width * 4 <= i32::MAX,
    ensures
        msg@ == create_buffer_message(pool_id, width, height),
{
    let mut msg = Vec::new();
    push_le32(&mut msg, pool_id);
    push_le32(&mut msg, (32u32 << 16) | 0u32);
    push_le32(&mut msg, BUFFER_ID);
    push_le32(&mut msg, 0u32);
    push_le32(&mut msg, width as u32);
    push_le32(&mut msg, height as u32);
    push_le32(&mut msg, (width * 4) as u32);
    push_le32(&mut msg, 0u32);
    assert(msg@ =~= create_buffer_message(pool_id, width, height));
    msg
}

} // verus!
