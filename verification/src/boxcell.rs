//! Exclusive cell: a value with a single owner, which can be borrowed, or
//! handed off exactly once.

use vstd::prelude::*;

verus! {

/// Why an exclusive cell refused an access.
#[derive(Clone, Copy, Debug, PartialEq, Eq, Structural)]
pub enum CellError {
    /// The value was taken out of the cell earlier.
    Consumed,
}

/// A cell that is either full or consumed. A full cell lends its value out;
/// taking the value leaves the cell consumed, and every later access fails.
#[derive(Clone)]
pub struct BoxCell<T>(pub Option<T>);

impl<T> View for BoxCell<T> {
    type V = Option<T>;

    open spec fn view(&self) -> Option<T> {
        self.0
    }
}

impl<T> BoxCell<T> {
    /// A full cell that holds `value`.
    pub fn new(value: T) -> (r: Self)
        ensures
            r@ == Some(value),
    {
        Self(Some(value))
    }

    /// Whether the value has been taken out.
    pub fn is_consumed(&self) -> (r: bool)
        ensures
            r == (self@ is None),
    {
        self.0.is_none()
    }

    /// Borrows the value, unless it was taken.
    pub fn as_ref(&self) -> (r: Result<&T, CellError>)
        ensures
            match r {
                Ok(v) => self@ == Some(*v),
                Err(e) => self@ is None && e == CellError::Consumed,
            },
    {
        match &self.0 {
            Some(v) => Ok(v),
            None => Err(CellError::Consumed),
        }
    }

    /// Borrows the value mutably, unless it was taken. What the borrower
    /// leaves behind is what the cell holds afterwards.
    pub fn as_mut(&mut self) -> (r: Result<&mut T, CellError>)
        ensures
            match r {
                Ok(v) => old(self)@ == Some(*v) && final(self)@ == Some(*final(v)),
                Err(e) => old(self)@ is None && final(self)@ is None && e == CellError::Consumed,
            },
    {
        match &mut self.0 {
            Some(v) => Ok(v),
            None => Err(CellError::Consumed),
        }
    }

    /// Takes the value out and leaves the cell consumed; fails if it was
    /// taken before.
    pub fn take(&mut self) -> (r: Result<T, CellError>)
        ensures
            final(self)@ is None,
            match r {
                Ok(v) => old(self)@ == Some(v),
                Err(e) => old(self)@ is None && e == CellError::Consumed,
            },
    {
        match self.0.take() {
            Some(v) => Ok(v),
            None => Err(CellError::Consumed),
        }
    }
}

} // verus!
