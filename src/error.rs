use vstd::prelude::*;

use crate::address::CellAddress;
use crate::value::ValueType;

verus! {

/// The family of an operation, as named in type errors.
#[derive(Clone, Copy, PartialEq, Eq, Structural, Debug)]
pub enum OperationType {
    Arithmetic,
    Logical,
    Bitwise,
    Equality,
    Relational,
    FloatToInt,
    IntToFloat,
}

/// What a value failed to satisfy: an operation family, or a wanted value type.
#[derive(Clone, Copy, PartialEq, Eq, Structural, Debug)]
pub enum MismatchContext {
    Operation(OperationType),
    Value(ValueType),
}

/// Every way an evaluation can fail.
#[derive(Clone, Copy, PartialEq, Eq, Structural, Debug)]
pub enum EvalError {
    /// Operand types do not satisfy the requirement; `second` is absent for one operand.
    TypeMismatch { context: MismatchContext, first: ValueType, second: Option<ValueType> },
    DivisionByZero,
    UndefinedPower,
    InvalidExponent,
    /// An integer result that does not fit in 32 bits.
    IntegerOverflow,
    CellNotFound(CellAddress),
    NonNumericCell(CellAddress),
    InvalidRange,
    /// A shift operator: declared, but no shift semantics are defined.
    UnsupportedOperation,
    CastError { target: ValueType, actual: ValueType },
    /// A chain of cell references that leads back to a cell already being evaluated.
    CircularReference(CellAddress),
}

} // verus!
