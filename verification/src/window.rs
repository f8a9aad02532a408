use vstd::prelude::*;

verus! {

/// A captured window. `N` is the number of pixels of its frame, which fixes
/// the size of the buffer that its connection streams.
pub struct Window<const N: usize> {
    pub title: String,
}

impl<const N: usize> Window<N> {
    /// A window with the given title.
    pub fn new(title: String) -> (w: Self)
        ensures
            w.title == title,
    {
        Self { title }
    }
}

} // verus!
