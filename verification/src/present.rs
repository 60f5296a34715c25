//! The presentation staging buffer.
//!
//! The shell's screen surface exposes a raw RGBA byte buffer that one frame's
//! pixels are copied into before being pushed to the screen. This module owns
//! the verified side of that buffer's size discipline: a staging buffer whose
//! byte length is always exactly `width * height * 4`, resized in lockstep
//! with the window, so that a whole-frame pixel copy can never write out of
//! bounds.

use vstd::prelude::*;
use crate::driver::WindowSize;

verus! {

/// An RGBA staging buffer for one frame, always exactly
/// `width * height * 4` bytes long.
pub struct FrameBuffer {
    pub size: WindowSize,
    pub bytes: Vec<u8>,
}

impl FrameBuffer {
    /// The size discipline: four bytes per pixel of the current size.
    pub open spec fn wf(self) -> bool {
        self.bytes@.len() == self.size.width * self.size.height * 4
    }

    /// A zeroed buffer of the given size.
    pub fn new(size: WindowSize) -> (b: FrameBuffer)
        requires
            size.width * size.height * 4 <= usize::MAX,
        ensures
            b.wf(),
            b.size == size,
            forall|i: int| 0 <= i < b.bytes@.len() ==> b.bytes@[i] == 0,
    {
        let len: usize = (size.width as usize) * (size.height as usize) * 4;
        FrameBuffer { size, bytes: vec![0u8; len] }
    }

    /// Resize the buffer to a new window size, rezeroing it. Afterwards the
    /// byte length is exactly `width * height * 4` of the new size.
    pub fn resize(&mut self, size: WindowSize)
        requires
            size.width * size.height * 4 <= usize::MAX,
        ensures
            final(self).wf(),
            final(self).size == size,
            forall|i: int| 0 <= i < final(self).bytes@.len() ==> final(self).bytes@[i] == 0,
    {
        let len: usize = (size.width as usize) * (size.height as usize) * 4;
        self.size = size;
        self.bytes = vec![0u8; len];
    }

    /// The byte length, for the shell to bound its pixel copies with.
    pub fn byte_len(&self) -> (n: usize)
        ensures
            n == self.bytes@.len(),
    {
        self.bytes.len()
    }
}

} // verus!
