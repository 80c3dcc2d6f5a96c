use vstd::prelude::*;

verus! {

/// How a texture is sampled when it is drawn larger or smaller than its pixels.
#[derive(Clone, Copy, Debug, PartialEq, Eq, Structural)]
pub enum FilterMode {
    Linear,
    Nearest,
}

/// Marks that a cached device setting differs from the value last applied.
///
/// The flag belongs to one drawable and is read and cleared by its draw
/// alone, so it is a plain value that is changed through `&mut`.
#[derive(Clone, Copy, Debug)]
pub struct DirtyFlag(bool);

impl View for DirtyFlag {
    type V = bool;

    /// The value the flag currently holds.
    closed spec fn view(&self) -> bool {
        self.0
    }
}

impl DirtyFlag {
    pub fn new(value: bool) -> (flag: Self)
        ensures
            flag@ == value,
    {
        DirtyFlag(value)
    }

    pub fn load(&self) -> (value: bool)
        ensures
            value == self@,
    {
        self.0
    }

    pub fn store(&mut self, value: bool)
        ensures
            final(self)@ == value,
        no_unwind
    {
        self.0 = value;
    }
}

} // verus!
