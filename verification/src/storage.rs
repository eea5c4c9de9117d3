use vstd::prelude::*;

verus! {

/// The module's storage slot: one unsigned number, absent until it is first
/// written. Its view is what a reader finds in it.
#[derive(Debug)]
pub struct Something {
    value: Option<u32>,
}

impl View for Something {
    type V = Option<u32>;

    closed spec fn view(&self) -> Option<u32> {
        self.value
    }
}

impl Something {
    /// The slot before anything was written: it holds no value, and so no zero either.
    pub fn new() -> (r: Self)
        ensures
            r@ is None,
    {
        Something { value: None }
    }

    /// Reads the slot and leaves it as it is.
    pub fn get(&self) -> (r: Option<u32>)
        ensures
            r == self@,
    {
        self.value
    }

    /// Writes `value` over whatever the slot held. Every number is accepted.
    pub fn put(&mut self, value: u32)
        ensures
            final(self)@ == Some(value),
    {
        self.value = Some(value);
    }
}

} // verus!
