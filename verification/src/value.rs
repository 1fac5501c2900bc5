//! Tagged runtime values.

use vstd::prelude::*;
use crate::elements::ValueType;

verus! {

/// A value as the interpreter's stack holds it: a tag and a payload.
///
/// The float variants carry the IEEE 754 bit pattern of the number.
#[derive(Clone, Copy, Debug, PartialEq, Eq, Structural)]
pub enum RuntimeValue {
    /// 32-bit integer.
    I32(i32),
    /// 64-bit integer.
    I64(i64),
    /// 32-bit float, as its bits.
    F32(u32),
    /// 64-bit float, as its bits.
    F64(u64),
}

impl RuntimeValue {
    /// The type that the tag of this value stands for.
    pub open spec fn spec_value_type(&self) -> ValueType {
        match self {
            RuntimeValue::I32(_) => ValueType::I32,
            RuntimeValue::I64(_) => ValueType::I64,
            RuntimeValue::F32(_) => ValueType::F32,
            RuntimeValue::F64(_) => ValueType::F64,
        }
    }

    /// The type that the tag of this value stands for.
    #[verifier::when_used_as_spec(spec_value_type)]
    pub fn value_type(&self) -> (t: ValueType)
        ensures
            t == self.spec_value_type(),
    {
        match self {
            RuntimeValue::I32(_) => ValueType::I32,
            RuntimeValue::I64(_) => ValueType::I64,
            RuntimeValue::F32(_) => ValueType::F32,
            RuntimeValue::F64(_) => ValueType::F64,
        }
    }
}

} // verus!
