use vstd::prelude::*;

verus! {

pub const WIDTH: usize = 256;

pub const HEIGHT: usize = 240;

/// One composed picture: a palette index for each of the 256 x 240 pixels,
/// row after row.
pub struct Frame {
    pub data: [u8; 61440],
}

/// The picture after one pixel was set. A position past the last row is
/// dropped; a column past the last one lands in a later row.
pub open spec fn plot(frame: Seq<u8>, x: int, y: int, color: u8) -> Seq<u8> {
    let base = y * 256 + x;
    if 0 <= base < frame.len() {
        frame.update(base, color)
    } else {
        frame
    }
}

impl Frame {
    pub fn new() -> (r: Self)
        ensures
            forall|i: int| 0 <= i < 61440 ==> r.data@[i] == 0,
    {
        Self { data: [0u8; 61440] }
    }

    pub fn set_pixel(&mut self, x: usize, y: usize, color: u8)
        requires
            y * 256 + x <= usize::MAX,
        ensures
            final(self).data@ == plot(old(self).data@, x as int, y as int, color),
    {
        let base = y * WIDTH + x;
        if base < self.data.len() {
            self.data[base] = color;
        }
    }
}

} // verus!
