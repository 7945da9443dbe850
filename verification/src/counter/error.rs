//! Failures that only the counter program reports.

use vstd::prelude::*;
use crate::error::ProgramError;

verus! {

/// A failure of the counter program's own.
#[derive(Clone, Copy, Debug, PartialEq, Eq, Structural)]
pub enum CounterError {
    /// An account is not at the address the program expects.
    InCorrectAccountAddress,
}

impl From<CounterError> for ProgramError {
    fn from(value: CounterError) -> (e: Self) {
        match value {
            CounterError::InCorrectAccountAddress => ProgramError::Custom(1),
        }
    }
}

impl vstd::std_specs::convert::FromSpecImpl<CounterError> for ProgramError {
    open spec fn obeys_from_spec() -> bool {
        true
    }

    open spec fn from_spec(value: CounterError) -> Self {
        match value {
            CounterError::InCorrectAccountAddress => ProgramError::Custom(1),
        }
    }
}

/// The general failure that stands for a failure of the counter program.
pub fn program_error(value: CounterError) -> (e: ProgramError)
    ensures
        e == ProgramError::Custom(1),
{
    ProgramError::from(value)
}

} // verus!
