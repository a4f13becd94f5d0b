use vstd::prelude::*;

verus! {

/// A shared memory region: its file descriptor and its size in bytes.
pub struct WaylandMemory {
    fd: i32,
    size: usize,
}

impl WaylandMemory {
    pub closed spec fn spec_fd(&self) -> i32 {
        self.fd
    }

    pub closed spec fn spec_size(&self) -> usize {
        self.size
    }

    pub fn fd(&self) -> (fd: i32)
        ensures
            fd == self.spec_fd(),
    {
        self.fd
    }

    pub fn size(&self) -> (size: usize)
        ensures
            size == self.spec_size(),
    {
        self.size
    }

    pub fn new(fd: i32, size: usize) -> (m: WaylandMemory)
        ensures
            m.spec_fd() == fd,
            m.spec_size() == size,
    {
        WaylandMemory { fd, size }
    }
}

} // verus!
