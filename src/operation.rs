use vstd::prelude::*;

use crate::error::{EvalError, MismatchContext, OperationType};
use crate::float::FloatUnit;
use crate::value::{numeric, type_of, Primitive, ValueType};

verus! {

/// Every operator an operation node can apply.
#[derive(Clone, Copy, PartialEq, Eq, Structural, Debug)]
pub enum OpKind {
    Add,
    Subtract,
    Multiply,
    Divide,
    Modulus,
    Power,
    LogicalAnd,
    LogicalOr,
    LogicalNot,
    BitwiseAnd,
    BitwiseOr,
    BitwiseXor,
    BitwiseNot,
    LeftShift,
    RightShift,
    Equals,
    NotEquals,
    LessThan,
    LessThanOrEqual,
    GreaterThan,
    GreaterThanOrEqual,
    FloatToInt,
    IntToFloat,
}

impl OpKind {
    pub open spec fn category_spec(self) -> OperationType {
        match self {
            OpKind::Add | OpKind::Subtract | OpKind::Multiply | OpKind::Divide | OpKind::Modulus
            | OpKind::Power => OperationType::Arithmetic,
            OpKind::LogicalAnd | OpKind::LogicalOr | OpKind::LogicalNot => OperationType::Logical,
            OpKind::BitwiseAnd | OpKind::BitwiseOr | OpKind::BitwiseXor | OpKind::BitwiseNot
            | OpKind::LeftShift | OpKind::RightShift => OperationType::Bitwise,
            OpKind::Equals | OpKind::NotEquals => OperationType::Equality,
            OpKind::LessThan | OpKind::LessThanOrEqual | OpKind::GreaterThan
            | OpKind::GreaterThanOrEqual => OperationType::Relational,
            OpKind::FloatToInt => OperationType::FloatToInt,
            OpKind::IntToFloat => OperationType::IntToFloat,
        }
    }

    /// The family the operator belongs to, which decides how it is dispatched.
    pub fn get_type(&self) -> (r: OperationType)
        ensures
            r == self.category_spec(),
    {
        match self {
            OpKind::Add | OpKind::Subtract | OpKind::Multiply | OpKind::Divide | OpKind::Modulus
            | OpKind::Power => OperationType::Arithmetic,
            OpKind::LogicalAnd | OpKind::LogicalOr | OpKind::LogicalNot => OperationType::Logical,
            OpKind::BitwiseAnd | OpKind::BitwiseOr | OpKind::BitwiseXor | OpKind::BitwiseNot
            | OpKind::LeftShift | OpKind::RightShift => OperationType::Bitwise,
            OpKind::Equals | OpKind::NotEquals => OperationType::Equality,
            OpKind::LessThan | OpKind::LessThanOrEqual | OpKind::GreaterThan
            | OpKind::GreaterThanOrEqual => OperationType::Relational,
            OpKind::FloatToInt => OperationType::FloatToInt,
            OpKind::IntToFloat => OperationType::IntToFloat,
        }
    }

    pub open spec fn unary_spec(self) -> bool {
        self is LogicalNot || self is BitwiseNot || self is FloatToInt || self is IntToFloat
    }

    /// Whether the operator takes a single operand.
    pub fn is_unary(&self) -> (r: bool)
        ensures
            r == self.unary_spec(),
    {
        match self {
            OpKind::LogicalNot | OpKind::BitwiseNot | OpKind::FloatToInt | OpKind::IntToFloat => true,
            _ => false,
        }
    }
}

pub open spec fn fits_i32(v: int) -> bool {
    i32::MIN <= v <= i32::MAX
}

pub open spec fn abs_int(v: int) -> int {
    if v < 0 {
        -v
    } else {
        v
    }
}

/// Integer division rounding toward zero.
pub open spec fn trunc_div(x: int, y: int) -> int {
    let q = abs_int(x) / abs_int(y);
    if (x < 0) == (y < 0) {
        q
    } else {
        -q
    }
}

/// The remainder that goes with `trunc_div`: it takes the sign of `x`.
pub open spec fn trunc_rem(x: int, y: int) -> int {
    let m = abs_int(x) % abs_int(y);
    if x < 0 {
        -m
    } else {
        m
    }
}

/// `x` to the power `n`, multiplied out one factor at a time; `None` as soon as a
/// partial product leaves the 32-bit range.
pub open spec fn checked_power(x: int, n: nat) -> Option<int>
    decreases n,
{
    if n == 0 {
        Some(1)
    } else {
        match checked_power(x, (n - 1) as nat) {
            Some(p) => if fits_i32(p * x) {
                Some(p * x)
            } else {
                None
            },
            None => None,
        }
    }
}

pub open spec fn int_result(v: int) -> Result<Primitive, EvalError> {
    if fits_i32(v) {
        Ok(Primitive::Integer(v as i32))
    } else {
        Err(EvalError::IntegerOverflow)
    }
}

/// Arithmetic on two integers.
pub open spec fn int_arith(kind: OpKind, x: int, y: int) -> Result<Primitive, EvalError> {
    match kind {
        OpKind::Add => int_result(x + y),
        OpKind::Subtract => int_result(x - y),
        OpKind::Multiply => int_result(x * y),
        OpKind::Divide => if y == 0 {
            Err(EvalError::DivisionByZero)
        } else {
            int_result(trunc_div(x, y))
        },
        OpKind::Modulus => if y == 0 {
            Err(EvalError::DivisionByZero)
        } else {
            int_result(trunc_rem(x, y))
        },
        _ => if y < 0 {
            Err(EvalError::InvalidExponent)
        } else if x == 0 && y == 0 {
            Err(EvalError::UndefinedPower)
        } else {
            match checked_power(x, y as nat) {
                Some(p) => Ok(Primitive::Integer(p as i32)),
                None => Err(EvalError::IntegerOverflow),
            }
        },
    }
}

pub open spec fn mismatch(kind: OpKind, a: Primitive, b: Option<Primitive>) -> EvalError {
    EvalError::TypeMismatch {
        context: MismatchContext::Operation(kind.category_spec()),
        first: type_of(a),
        second: match b {
            Some(v) => Some(type_of(v)),
            None => None,
        },
    }
}

/// A numeric value as a float: an integer widened by the float unit.
pub open spec fn promote_spec<F: FloatUnit>(fpu: &F, v: Primitive) -> u32 {
    match v {
        Primitive::Integer(i) => fpu.from_int_spec(i),
        Primitive::Float(f) => f,
        _ => 0,
    }
}

/// Arithmetic on two floats. Division fails when the divisor is near zero, and
/// power when both operands are.
pub open spec fn float_arith<F: FloatUnit>(fpu: &F, kind: OpKind, x: u32, y: u32) -> Result<
    Primitive,
    EvalError,
> {
    match kind {
        OpKind::Add => Ok(Primitive::Float(fpu.plus_spec(x, y))),
        OpKind::Subtract => Ok(Primitive::Float(fpu.minus_spec(x, y))),
        OpKind::Multiply => Ok(Primitive::Float(fpu.times_spec(x, y))),
        OpKind::Divide => if fpu.near_zero_spec(y) {
            Err(EvalError::DivisionByZero)
        } else {
            Ok(Primitive::Float(fpu.divide_spec(x, y)))
        },
        OpKind::Modulus => Ok(Primitive::Float(fpu.remainder_spec(x, y))),
        _ => if fpu.near_zero_spec(x) && fpu.near_zero_spec(y) {
            Err(EvalError::UndefinedPower)
        } else {
            Ok(Primitive::Float(fpu.power_spec(x, y)))
        },
    }
}

/// A comparison of two floats; the or-equal forms also hold within epsilon.
pub open spec fn float_relation<F: FloatUnit>(fpu: &F, kind: OpKind, x: u32, y: u32) -> bool {
    match kind {
        OpKind::LessThan => fpu.less_spec(x, y),
        OpKind::LessThanOrEqual => fpu.less_spec(x, y) || fpu.approx_eq_spec(x, y),
        OpKind::GreaterThan => fpu.greater_spec(x, y),
        _ => fpu.greater_spec(x, y) || fpu.approx_eq_spec(x, y),
    }
}

/// Whether two values of the same type are equal: by value, and floats within
/// epsilon.
pub open spec fn same_value<F: FloatUnit>(fpu: &F, a: Primitive, b: Primitive) -> bool {
    match (a, b) {
        (Primitive::Integer(x), Primitive::Integer(y)) => x == y,
        (Primitive::Boolean(x), Primitive::Boolean(y)) => x == y,
        (Primitive::Text(x), Primitive::Text(y)) => x@ == y@,
        (Primitive::Float(x), Primitive::Float(y)) => fpu.approx_eq_spec(x, y),
        _ => false,
    }
}

/// Whether the operands fit the operator: a second operand exactly for a
/// two-operand operator.
pub open spec fn arity_ok(kind: OpKind, b: Option<Primitive>) -> bool {
    kind.unary_spec() == (b is None)
}

/// What applying `kind` to evaluated operands gives; `b` is the second operand.
pub open spec fn apply_spec<F: FloatUnit>(fpu: &F, kind: OpKind, a: Primitive, b: Option<Primitive>) -> Result<
    Primitive,
    EvalError,
> {
    if !arity_ok(kind, b) {
        Err(mismatch(kind, a, b))
    } else {
        match kind.category_spec() {
            OperationType::Arithmetic => match (a, b) {
                (Primitive::Integer(x), Some(Primitive::Integer(y))) => int_arith(
                    kind,
                    x as int,
                    y as int,
                ),
                _ => if numeric(a) && b is Some && numeric(b->Some_0) {
                    float_arith(fpu, kind, promote_spec(fpu, a), promote_spec(fpu, b->Some_0))
                } else {
                    Err(mismatch(kind, a, b))
                },
            },
            OperationType::Logical => match (a, b) {
                (Primitive::Boolean(x), None) => Ok(Primitive::Boolean(!x)),
                (Primitive::Boolean(x), Some(Primitive::Boolean(y))) => Ok(
                    Primitive::Boolean(
                        if kind is LogicalAnd {
                            x && y
                        } else {
                            x || y
                        },
                    ),
                ),
                _ => Err(mismatch(kind, a, b)),
            },
            OperationType::Bitwise => match (a, b) {
                (Primitive::Integer(x), None) => Ok(Primitive::Integer(!x)),
                (Primitive::Integer(x), Some(Primitive::Integer(y))) => match kind {
                    OpKind::BitwiseAnd => Ok(Primitive::Integer(x & y)),
                    OpKind::BitwiseOr => Ok(Primitive::Integer(x | y)),
                    OpKind::BitwiseXor => Ok(Primitive::Integer(x ^ y)),
                    _ => Err(EvalError::UnsupportedOperation),
                },
                _ => Err(mismatch(kind, a, b)),
            },
            OperationType::Equality => match b {
                Some(v) => if type_of(a) != type_of(v) {
                    Err(mismatch(kind, a, b))
                } else {
                    Ok(Primitive::Boolean(same_value(fpu, a, v) == (kind is Equals)))
                },
                None => Err(mismatch(kind, a, b)),
            },
            OperationType::Relational => match (a, b) {
                (Primitive::Integer(x), Some(Primitive::Integer(y))) => Ok(
                    Primitive::Boolean(
                        match kind {
                            OpKind::LessThan => x < y,
                            OpKind::LessThanOrEqual => x <= y,
                            OpKind::GreaterThan => x > y,
                            _ => x >= y,
                        },
                    ),
                ),
                _ => if numeric(a) && b is Some && numeric(b->Some_0) {
                    Ok(
                        Primitive::Boolean(
                            float_relation(
                                fpu,
                                kind,
                                promote_spec(fpu, a),
                                promote_spec(fpu, b->Some_0),
                            ),
                        ),
                    )
                } else {
                    Err(mismatch(kind, a, b))
                },
            },
            OperationType::FloatToInt => match a {
                Primitive::Float(x) => Ok(Primitive::Integer(fpu.to_int_spec(x))),
                _ => Err(EvalError::CastError { target: ValueType::Integer, actual: type_of(a) }),
            },
            OperationType::IntToFloat => match a {
                Primitive::Integer(i) => Ok(Primitive::Float(fpu.from_int_spec(i))),
                _ => Err(EvalError::CastError { target: ValueType::Float, actual: type_of(a) }),
            },
        }
    }
}

fn int_from(v: i64) -> (r: Result<Primitive, EvalError>)
    ensures
        r == int_result(v as int),
{
    if v < i32::MIN as i64 || v > i32::MAX as i64 {
        Err(EvalError::IntegerOverflow)
    } else {
        Ok(Primitive::Integer(v as i32))
    }
}

proof fn lemma_overflow_persists(x: int, i: nat, n: nat)
    requires
        i <= n,
        checked_power(x, i) is None,
    ensures
        checked_power(x, n) is None,
    decreases n - i,
{
    if i < n {
        lemma_overflow_persists(x, i, (n - 1) as nat);
    }
}

proof fn lemma_unit_base_power(x: int, n: nat)
    requires
        -1 <= x <= 1,
    ensures
        checked_power(x, n) == Some(
            if x == 1 || (x == -1 && n % 2 == 0) {
                1int
            } else if x == 0 && n > 0 {
                0int
            } else if x == 0 {
                1int
            } else {
                -1int
            },
        ),
    decreases n,
{
    if n > 0 {
        lemma_unit_base_power(x, (n - 1) as nat);
    }
}

fn int_power(x: i32, y: i32) -> (r: Result<Primitive, EvalError>)
    requires
        y >= 0,
    ensures
        r == (match checked_power(x as int, y as nat) {
            Some(p) => Ok(Primitive::Integer(p as i32)),
            None => Err(EvalError::IntegerOverflow),
        }),
{
    if -1 <= x && x <= 1 {
        proof {
            lemma_unit_base_power(x as int, y as nat);
        }
        let v: i32 = if x == 1 || (x == -1 && y % 2 == 0) {
            1
        } else if x == 0 && y > 0 {
            0
        } else if x == 0 {
            1
        } else {
            -1
        };
        return Ok(Primitive::Integer(v));
    }
    let mut acc: i64 = 1;
    let mut i: i32 = 0;
    while i < y
        invariant
            0 <= i <= y,
            checked_power(x as int, i as nat) == Some(acc as int),
            fits_i32(acc as int),
        decreases y - i,
    {
        assert(-0x8000_0000_0000_0000 < acc * x < 0x8000_0000_0000_0000) by (nonlinear_arith)
            requires
                fits_i32(acc as int),
                fits_i32(x as int),
        ;
        let next: i64 = acc * (x as i64);
        assert(checked_power(x as int, (i + 1) as nat) == (if fits_i32(acc * x) {
            Some(acc * x)
        } else {
            None::<int>
        }));
        if next < i32::MIN as i64 || next > i32::MAX as i64 {
            proof {
                lemma_overflow_persists(x as int, (i + 1) as nat, y as nat);
            }
            return Err(EvalError::IntegerOverflow);
        }
        acc = next;
        i = i + 1;
    }
    Ok(Primitive::Integer(acc as i32))
}

fn magnitude(v: i32) -> (r: u64)
    ensures
        r as int == abs_int(v as int),
{
    if v < 0 {
        (-(v as i64)) as u64
    } else {
        v as u64
    }
}

/// Arithmetic on two integers, exact or an error.
pub fn int_arithmetic(kind: OpKind, x: i32, y: i32) -> (r: Result<Primitive, EvalError>)
    requires
        kind.category_spec() == OperationType::Arithmetic,
    ensures
        r == int_arith(kind, x as int, y as int),
{
    match kind {
        OpKind::Add => int_from(x as i64 + y as i64),
        OpKind::Subtract => int_from(x as i64 - y as i64),
        OpKind::Multiply => {
            assert(-0x8000_0000_0000_0000 < x * y < 0x8000_0000_0000_0000) by (nonlinear_arith)
                requires
                    fits_i32(x as int),
                    fits_i32(y as int),
            ;
            int_from(x as i64 * y as i64)
        },
        OpKind::Divide => {
            if y == 0 {
                Err(EvalError::DivisionByZero)
            } else {
                let q: u64 = magnitude(x) / magnitude(y);
                assert(q <= 0x8000_0000) by (nonlinear_arith)
                    requires
                        q == abs_int(x as int) / abs_int(y as int),
                        abs_int(x as int) <= 0x8000_0000,
                        abs_int(y as int) >= 1,
                ;
                if (x < 0) == (y < 0) {
                    int_from(q as i64)
                } else {
                    int_from(-(q as i64))
                }
            }
        },
        OpKind::Modulus => {
            if y == 0 {
                Err(EvalError::DivisionByZero)
            } else {
                let m: u64 = magnitude(x) % magnitude(y);
                if x < 0 {
                    int_from(-(m as i64))
                } else {
                    int_from(m as i64)
                }
            }
        },
        _ => {
            if y < 0 {
                Err(EvalError::InvalidExponent)
            } else if x == 0 && y == 0 {
                Err(EvalError::UndefinedPower)
            } else {
                int_power(x, y)
            }
        },
    }
}

fn mismatch_error(kind: OpKind, a: &Primitive, b: &Option<Primitive>) -> (r: EvalError)
    ensures
        r == mismatch(kind, *a, *b),
{
    EvalError::TypeMismatch {
        context: MismatchContext::Operation(kind.get_type()),
        first: a.type_tag(),
        second: match b {
            Some(v) => Some(v.type_tag()),
            None => None,
        },
    }
}

/// A numeric value as a float, widening an integer.
pub(crate) fn promote<F: FloatUnit>(v: &Primitive, fpu: &F) -> (r: u32)
    ensures
        r == promote_spec(fpu, *v),
{
    match v {
        Primitive::Integer(i) => fpu.from_int(*i),
        Primitive::Float(f) => *f,
        _ => 0,
    }
}

fn arithmetic<F: FloatUnit>(kind: OpKind, a: &Primitive, b: &Option<Primitive>, fpu: &F) -> (r:
    Result<Primitive, EvalError>)
    requires
        kind.category_spec() == OperationType::Arithmetic,
        arity_ok(kind, *b),
    ensures
        r == apply_spec(fpu, kind, *a, *b),
{
    match (a, b) {
        (Primitive::Integer(x), Some(Primitive::Integer(y))) => int_arithmetic(kind, *x, *y),
        (_, Some(v)) if a.is_numeric() && v.is_numeric() => {
            let x = promote(a, fpu);
            let y = promote(v, fpu);
            match kind {
                OpKind::Add => Ok(Primitive::Float(fpu.plus(x, y))),
                OpKind::Subtract => Ok(Primitive::Float(fpu.minus(x, y))),
                OpKind::Multiply => Ok(Primitive::Float(fpu.times(x, y))),
                OpKind::Divide => {
                    if fpu.near_zero(y) {
                        Err(EvalError::DivisionByZero)
                    } else {
                        Ok(Primitive::Float(fpu.divide(x, y)))
                    }
                },
                OpKind::Modulus => Ok(Primitive::Float(fpu.remainder(x, y))),
                _ => {
                    if fpu.near_zero(x) && fpu.near_zero(y) {
                        Err(EvalError::UndefinedPower)
                    } else {
                        Ok(Primitive::Float(fpu.power(x, y)))
                    }
                },
            }
        },
        _ => Err(mismatch_error(kind, a, b)),
    }
}

fn logic<F: FloatUnit>(kind: OpKind, a: &Primitive, b: &Option<Primitive>, fpu: &F) -> (r: Result<
    Primitive,
    EvalError,
>)
    requires
        kind.category_spec() == OperationType::Logical,
        arity_ok(kind, *b),
    ensures
        r == apply_spec(fpu, kind, *a, *b),
{
    match (a, b) {
        (Primitive::Boolean(x), None) => Ok(Primitive::Boolean(!*x)),
        (Primitive::Boolean(x), Some(Primitive::Boolean(y))) => {
            if let OpKind::LogicalAnd = kind {
                Ok(Primitive::Boolean(*x && *y))
            } else {
                Ok(Primitive::Boolean(*x || *y))
            }
        },
        _ => Err(mismatch_error(kind, a, b)),
    }
}

fn bitwise<F: FloatUnit>(kind: OpKind, a: &Primitive, b: &Option<Primitive>, fpu: &F) -> (r: Result<
    Primitive,
    EvalError,
>)
    requires
        kind.category_spec() == OperationType::Bitwise,
        arity_ok(kind, *b),
    ensures
        r == apply_spec(fpu, kind, *a, *b),
{
    match (a, b) {
        (Primitive::Integer(x), None) => Ok(Primitive::Integer(!*x)),
        (Primitive::Integer(x), Some(Primitive::Integer(y))) => match kind {
            OpKind::BitwiseAnd => Ok(Primitive::Integer(*x & *y)),
            OpKind::BitwiseOr => Ok(Primitive::Integer(*x | *y)),
            OpKind::BitwiseXor => Ok(Primitive::Integer(*x ^ *y)),
            _ => Err(EvalError::UnsupportedOperation),
        },
        _ => Err(mismatch_error(kind, a, b)),
    }
}

fn equality<F: FloatUnit>(kind: OpKind, a: &Primitive, b: &Option<Primitive>, fpu: &F) -> (r:
    Result<Primitive, EvalError>)
    requires
        kind.category_spec() == OperationType::Equality,
        arity_ok(kind, *b),
    ensures
        r == apply_spec(fpu, kind, *a, *b),
{
    let v = match b {
        Some(v) => v,
        None => {
            return Err(mismatch_error(kind, a, b));
        },
    };
    if a.type_tag() != v.type_tag() {
        return Err(mismatch_error(kind, a, b));
    }
    let same = match (a, v) {
        (Primitive::Integer(x), Primitive::Integer(y)) => *x == *y,
        (Primitive::Boolean(x), Primitive::Boolean(y)) => *x == *y,
        (Primitive::Text(x), Primitive::Text(y)) => *x == *y,
        (Primitive::Float(x), Primitive::Float(y)) => fpu.approx_eq(*x, *y),
        _ => false,
    };
    if let OpKind::Equals = kind {
        Ok(Primitive::Boolean(same))
    } else {
        Ok(Primitive::Boolean(!same))
    }
}

fn relation<F: FloatUnit>(kind: OpKind, a: &Primitive, b: &Option<Primitive>, fpu: &F) -> (r:
    Result<Primitive, EvalError>)
    requires
        kind.category_spec() == OperationType::Relational,
        arity_ok(kind, *b),
    ensures
        r == apply_spec(fpu, kind, *a, *b),
{
    match (a, b) {
        (Primitive::Integer(x), Some(Primitive::Integer(y))) => Ok(
            Primitive::Boolean(
                match kind {
                    OpKind::LessThan => *x < *y,
                    OpKind::LessThanOrEqual => *x <= *y,
                    OpKind::GreaterThan => *x > *y,
                    _ => *x >= *y,
                },
            ),
        ),
        (_, Some(v)) if a.is_numeric() && v.is_numeric() => {
            let x = promote(a, fpu);
            let y = promote(v, fpu);
            Ok(
                Primitive::Boolean(
                    match kind {
                        OpKind::LessThan => fpu.less(x, y),
                        OpKind::LessThanOrEqual => fpu.less(x, y) || fpu.approx_eq(x, y),
                        OpKind::GreaterThan => fpu.greater(x, y),
                        _ => fpu.greater(x, y) || fpu.approx_eq(x, y),
                    },
                ),
            )
        },
        _ => Err(mismatch_error(kind, a, b)),
    }
}

/// Truncates a float toward zero.
pub fn cast_to_integer<F: FloatUnit>(v: &Primitive, fpu: &F) -> (r: Result<Primitive, EvalError>)
    ensures
        r == apply_spec(fpu, OpKind::FloatToInt, *v, None),
        v is Float ==> r == Ok::<Primitive, EvalError>(Primitive::Integer(fpu.to_int_spec(v->Float_0))),
{
    match v {
        Primitive::Float(x) => Ok(Primitive::Integer(fpu.to_int(*x))),
        _ => Err(EvalError::CastError { target: ValueType::Integer, actual: v.type_tag() }),
    }
}

/// Widens an integer to a float.
pub fn cast_to_float<F: FloatUnit>(v: &Primitive, fpu: &F) -> (r: Result<Primitive, EvalError>)
    ensures
        r == apply_spec(fpu, OpKind::IntToFloat, *v, None),
        v is Integer ==> r == Ok::<Primitive, EvalError>(Primitive::Float(fpu.from_int_spec(v->Integer_0))),
{
    match v {
        Primitive::Integer(x) => Ok(Primitive::Float(fpu.from_int(*x))),
        _ => Err(EvalError::CastError { target: ValueType::Float, actual: v.type_tag() }),
    }
}

/// Applies `kind` to evaluated operands: `b` is the second operand, absent for a
/// one-operand operator. A second operand where the operator takes one, or none
/// where it takes two, is a type mismatch.
pub fn apply<F: FloatUnit>(kind: OpKind, a: &Primitive, b: &Option<Primitive>, fpu: &F) -> (r:
    Result<Primitive, EvalError>)
    ensures
        r == apply_spec(fpu, kind, *a, *b),
{
    if kind.is_unary() != b.is_none() {
        return Err(mismatch_error(kind, a, b));
    }
    match kind.get_type() {
        OperationType::Arithmetic => arithmetic(kind, a, b, fpu),
        OperationType::Logical => logic(kind, a, b, fpu),
        OperationType::Bitwise => bitwise(kind, a, b, fpu),
        OperationType::Equality => equality(kind, a, b, fpu),
        OperationType::Relational => relation(kind, a, b, fpu),
        OperationType::FloatToInt => cast_to_integer(a, fpu),
        OperationType::IntToFloat => cast_to_float(a, fpu),
    }
}

} // verus!
