use crate::buffer::BufferName;
use vstd::prelude::*;

verus! {

/// A window onto a buffer: the buffer's name and the first line shown.
pub struct BufferView {
    pub top_line: u32,
    pub buffer: BufferName,
}

impl BufferView {
    /// The view that shows a buffer from its first line.
    pub fn create(buffer: BufferName) -> (view: BufferView)
        ensures
            view.top_line == 0,
            view.buffer == buffer,
    {
        BufferView { top_line: 0, buffer }
    }
}

} // verus!
