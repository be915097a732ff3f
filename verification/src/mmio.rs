use vstd::prelude::*;

verus! {

/// A register cell holding one value of width `T`.
///
/// On real hardware every load and store of such a cell must be a single
/// volatile access of the cell's natural width. Volatility is outside what
/// can be reasoned about here, so the cell is modelled as memory-backed
/// storage: a read returns the last value written.
pub struct Mmio<T> {
    value: T,
}

impl<T> View for Mmio<T> {
    type V = T;

    closed spec fn view(&self) -> T {
        self.value
    }
}

impl<T: Copy> Mmio<T> {
    pub fn new(value: T) -> (r: Self)
        ensures
            r@ == value,
    {
        Mmio { value }
    }

    /// Load the cell's current value.
    pub fn read(&self) -> (r: T)
        ensures
            r == self@,
    {
        self.value
    }

    /// Store a new value into the cell.
    pub fn write(&mut self, value: T)
        ensures
            final(self)@ == value,
    {
        self.value = value;
    }
}

} // verus!
