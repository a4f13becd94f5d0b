pub mod object_id_allocator;
pub mod registry;
pub mod shared_memory;
pub mod window_event;
