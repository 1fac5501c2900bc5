//! Failures of registration and of host calls.

use vstd::prelude::*;
use crate::elements::ValueType;

verus! {

/// Why a registration or a host call failed.
#[derive(Debug, PartialEq, Eq)]
pub enum Error {
    /// A descriptor whose maximum lies below its initial size.
    InvalidLimits { initial: u32, maximum: u32 },
    /// A memory descriptor that asks for more pages than a linear memory can
    /// have.
    MemoryTooLarge { pages: u32 },
    /// A host function called with the wrong number of arguments.
    ArgumentCount { arity: usize, given: usize },
    /// A host function called with an argument of the wrong type.
    ArgumentType { index: usize, expected: ValueType, actual: ValueType },
    /// A failure that a host closure raised.
    Host(String),
}

impl Clone for Error {
    fn clone(&self) -> (r: Error)
        ensures
            r == *self,
    {
        match self {
            Error::InvalidLimits { initial, maximum } => Error::InvalidLimits {
                initial: *initial,
                maximum: *maximum,
            },
            Error::MemoryTooLarge { pages } => Error::MemoryTooLarge { pages: *pages },
            Error::ArgumentCount { arity, given } => Error::ArgumentCount {
                arity: *arity,
                given: *given,
            },
            Error::ArgumentType { index, expected, actual } => Error::ArgumentType {
                index: *index,
                expected: *expected,
                actual: *actual,
            },
            Error::Host(message) => Error::Host(message.clone()),
        }
    }
}

} // verus!
