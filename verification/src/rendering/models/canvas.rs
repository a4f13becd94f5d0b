use vstd::prelude::*;

verus! {

/// A drawing surface: `width` by `height` pixels of four bytes each, row
/// after row, in a flat buffer.
pub struct Canvas {
    pub width: u32,
    pub height: u32,
    pub buffer: Vec<u8>,
}

impl Canvas {
    /// The buffer holds every pixel of the canvas, and every byte offset of
    /// a pixel fits in a `u32`.
    pub open spec fn wf(&self) -> bool {
        &&& self.width * self.height * 4 <= u32::MAX
        &&& self.buffer@.len() >= self.width * self.height * 4
    }

    /// A canvas whose pixels are all zero bytes. The byte count
    /// `width * height * 4` is computed in `u32` and must fit there.
    pub fn new(width: u32, height: u32) -> (c: Canvas)
        requires
            width * height * 4 <= u32::MAX,
        ensures
            c.wf(),
            c.buffer@.len() == width * height * 4,
            c.width == width,
            c.height == height,
            c.buffer@ == Seq::new((width * height * 4) as nat, |i: int| 0u8),
    {
        let size = (width * height * 4) as usize;
        let mut buffer: Vec<u8> = Vec::new();
        let mut i: usize = 0;
        while i < size
            invariant
                i <= size,
                buffer@ == Seq::new(i as nat, |j: int| 0u8),
            decreases size - i,
        {
            buffer.push(0u8);
            i = i + 1;
            assert(buffer@ =~= Seq::new(i as nat, |j: int| 0u8));
        }
        Canvas { width, height, buffer }
    }
}

} // verus!
