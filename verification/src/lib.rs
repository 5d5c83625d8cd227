//! Reading game controllers that share a strobed, parallel set of lines.
//!
//! A controller of this family answers on six data lines, and one select
//! line chooses which buttons those six lines carry. The crate holds the
//! order in which the select line is driven and the data lines are sampled,
//! and the rules by which the samples become a set of pressed buttons.
//! Driving and sampling the lines themselves is left to the caller.

use vstd::prelude::*;

pub mod mega_drive;

verus! {

/// The result of reading a controller whose lines fail with `E`.
pub type ControllerResult<T, E> = Result<T, Error<E>>;

/// Why a read gave no controller state.
#[derive(Clone, Copy, Debug, PartialEq, Eq, PartialOrd, Ord, Hash)]
pub enum Error<E> {
    /// A line failed; the failure is handed on as the line reported it.
    Other(E),
    /// The lines do not show the pattern of a connected controller.
    NotPresent,
}

impl<E> From<E> for Error<E> {
    fn from(error: E) -> (wrapped: Self) {
        Error::Other(error)
    }
}

impl<E> vstd::std_specs::convert::FromSpecImpl<E> for Error<E> {
    open spec fn obeys_from_spec() -> bool {
        true
    }

    open spec fn from_spec(error: E) -> Self {
        Error::Other(error)
    }
}

} // verus!
