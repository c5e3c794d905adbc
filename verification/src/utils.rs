use vstd::prelude::*;

verus! {

/// The states that are published in cells, by which a failed read says what
/// was missing.
#[derive(Debug, Clone, Copy, PartialEq, Eq, Structural)]
pub enum Uninitialized {
    Timer,
    Keyboard,
    Display,
}

impl Uninitialized {
    /// The words in which the failure is reported.
    pub open spec fn text(self) -> Seq<char> {
        match self {
            Uninitialized::Timer => "Timer uninitialized"@,
            Uninitialized::Keyboard => "Keyboard uninitialized"@,
            Uninitialized::Display => "Display uninitialized"@,
        }
    }

    /// The words in which the failure is reported.
    pub fn message(self) -> (message: &'static str)
        ensures
            message@ == self.text(),
    {
        match self {
            Uninitialized::Timer => "Timer uninitialized",
            Uninitialized::Keyboard => "Keyboard uninitialized",
            Uninitialized::Display => "Display uninitialized",
        }
    }
}

/// A cell for one value that is published once at boot and read afterwards.
/// It starts empty; a read of an empty cell fails instead of handing out
/// anything.
pub struct Global<T> {
    value: Option<T>,
}

impl<T> View for Global<T> {
    type V = Option<T>;

    closed spec fn view(&self) -> Option<T> {
        self.value
    }
}

impl<T> Global<T> {
    /// What a cell holds after `value` was stored in it, and what the store
    /// hands back: the value that was there before, if any.
    pub open spec fn after_set(before: Option<T>, value: T) -> (Option<T>, Option<T>) {
        (Some(value), before)
    }

    /// The empty cell.
    pub fn uninit() -> (cell: Self)
        ensures
            cell@ is None,
    {
        Global { value: None }
    }

    /// Stores `value` and hands back what the cell held before, untouched:
    /// nothing is dropped here.
    pub fn set(&mut self, value: T) -> (previous: Option<T>)
        ensures
            (final(self)@, previous) == Self::after_set(old(self)@, value),
    {
        let mut slot = Some(value);
        core::mem::swap(&mut self.value, &mut slot);
        slot
    }

    /// Access to the value, or `None` while the cell is empty. What the
    /// caller leaves behind the reference is what the cell holds afterwards.
    pub fn get(&mut self) -> (slot: Option<&mut T>)
        ensures
            match slot {
                Some(value) => old(self)@ == Some(*value) && final(self)@ == Some(*final(value)),
                None => old(self)@ is None && final(self)@ is None,
            },
    {
        match &mut self.value {
            Some(value) => Some(value),
            None => None,
        }
    }

    /// The value for reading, or `None` while the cell is empty.
    pub fn peek(&self) -> (slot: Option<&T>)
        ensures
            match slot {
                Some(value) => self@ == Some(*value),
                None => self@ is None,
            },
    {
        self.value.as_ref()
    }

    /// Whether the cell has been set.
    pub fn is_set(&self) -> (set: bool)
        ensures
            set == (self@ is Some),
    {
        self.value.is_some()
    }
}

/// Setting a cell twice leaves the second value in it. The first store finds
/// the cell empty; the second hands the first value back to the caller, so
/// that each value is disposed of once, by whoever holds it.
pub proof fn lemma_set_twice<T>(first: T, second: T)
    ensures
        ({
            let (once, nothing) = Global::<T>::after_set(None, first);
            let (twice, displaced) = Global::<T>::after_set(once, second);
            nothing is None && displaced == Some(first) && twice == Some(second)
        }),
{
}

} // verus!
