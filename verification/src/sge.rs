use vstd::prelude::*;

use crate::pixel::Pixel;

verus! {

/// A scatter/gather entry for the adapter: how many pixels of a buffer are
/// sent and under which memory-region token.
///
/// The address of the buffer is not held here; it is taken from the same
/// slice when the entry is handed to the adapter.
pub struct Sge {
    pub buffer_length: u32,
    pub memory_region_token: u32,
}

impl Sge {
    /// The entry that covers `buffer` under the memory-region `token`.
    ///
    /// The length is the number of pixels in `buffer`, cut to 32 bits as the
    /// adapter's length field is.
    pub fn new(buffer: &mut [Pixel], token: u32) -> (sge: Sge)
        ensures
            final(buffer)@ == old(buffer)@,
            sge.buffer_length == old(buffer)@.len() as u32,
            old(buffer)@.len() <= u32::MAX ==> sge.buffer_length == old(buffer)@.len(),
            sge.memory_region_token == token,
    {
        Sge { buffer_length: buffer.len() as u32, memory_region_token: token }
    }
}

} // verus!
