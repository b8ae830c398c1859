use vstd::prelude::*;

use crate::address::{CellAddress, CellValue};
use crate::error::{EvalError, MismatchContext, OperationType};
use crate::expr::{eval_spec, Expr, Operation};
use crate::float::FloatUnit;
use crate::operation::{abs_int, apply_spec, fits_i32, trunc_div, trunc_rem, OpKind};
use crate::statistics::Statistics;
use crate::value::{type_of, Primitive, ValueType};

verus! {

/// Integer division by zero fails with `DivisionByZero`. By any other divisor it
/// gives the quotient rounded toward zero: quotient times divisor plus remainder
/// is the dividend, the remainder is smaller than the divisor in magnitude and is
/// zero or has the dividend's sign. (The one quotient that does not fit in 32
/// bits, the smallest integer divided by -1, is left out.)
pub proof fn law_integer_division<F: FloatUnit>(fpu: &F, a: i32, b: i32)
    requires
        !(a == i32::MIN && b == -1),
    ensures
        b == 0 ==> apply_spec(fpu, OpKind::Divide, Primitive::Integer(a), Some(Primitive::Integer(b)))
            == Err::<Primitive, EvalError>(EvalError::DivisionByZero),
        b != 0 ==> apply_spec(fpu, OpKind::Divide, Primitive::Integer(a), Some(Primitive::Integer(b)))
            == Ok::<Primitive, EvalError>(Primitive::Integer(trunc_div(a as int, b as int) as i32)),
        b != 0 ==> trunc_div(a as int, b as int) * b + trunc_rem(a as int, b as int) == a,
        b != 0 ==> abs_int(trunc_rem(a as int, b as int)) < abs_int(b as int),
        b != 0 ==> trunc_rem(a as int, b as int) == 0 || (trunc_rem(a as int, b as int) < 0) == (a
            < 0),
{
    if b != 0 {
        let x = abs_int(a as int);
        let y = abs_int(b as int);
        let q = x / y;
        let m = x % y;
        vstd::arithmetic::div_mod::lemma_fundamental_div_mod(x, y);
        vstd::arithmetic::div_mod::lemma_mod_bound(x, y);
        assert(0 <= q <= x) by (nonlinear_arith)
            requires
                q == x / y,
                x >= 0,
                y >= 1,
        ;
        if q == x && x == 0x8000_0000 {
            assert(y == 1) by (nonlinear_arith)
                requires
                    x == y * q + m,
                    q == x,
                    x > 0,
                    m >= 0,
                    y >= 1,
            ;
        }
        assert(fits_i32(trunc_div(a as int, b as int)));
        assert(trunc_div(a as int, b as int) * b + trunc_rem(a as int, b as int) == a) by (
        nonlinear_arith)
            requires
                x == y * q + m,
                x == abs_int(a as int),
                y == abs_int(b as int),
                trunc_div(a as int, b as int) == (if (a < 0) == (b < 0) {
                    q
                } else {
                    -q
                }),
                trunc_rem(a as int, b as int) == (if a < 0 {
                    -m
                } else {
                    m
                }),
        ;
    }
}

/// A division node whose operands evaluate to integers gives their integer
/// division as above: `DivisionByZero` by zero, else the truncated quotient.
pub proof fn law_division_node<F: FloatUnit>(
    fpu: &F,
    op: Operation,
    env: Map<CellAddress, Expr>,
    depth: nat,
    a: i32,
    b: i32,
)
    requires
        op.kind is Divide,
        op.second is Some,
        eval_spec(fpu, *op.first, env, depth) == Ok::<Primitive, EvalError>(Primitive::Integer(a)),
        eval_spec(fpu, *op.second->Some_0, env, depth) == Ok::<Primitive, EvalError>(
            Primitive::Integer(b),
        ),
        !(a == i32::MIN && b == -1),
    ensures
        eval_spec(fpu, Expr::Op(op), env, depth) == apply_spec(
            fpu,
            OpKind::Divide,
            Primitive::Integer(a),
            Some(Primitive::Integer(b)),
        ),
        b == 0 ==> eval_spec(fpu, Expr::Op(op), env, depth) == Err::<Primitive, EvalError>(
            EvalError::DivisionByZero,
        ),
        b != 0 ==> eval_spec(fpu, Expr::Op(op), env, depth) == Ok::<Primitive, EvalError>(
            Primitive::Integer(trunc_div(a as int, b as int) as i32),
        ),
{
    law_integer_division(fpu, a, b);
}

/// Equality of two floats never fails: equals gives the float unit's answer to
/// whether they differ by less than epsilon, and not-equals its negation.
pub proof fn law_float_equality<F: FloatUnit>(fpu: &F, x: u32, y: u32)
    ensures
        apply_spec(fpu, OpKind::Equals, Primitive::Float(x), Some(Primitive::Float(y))) == Ok::<
            Primitive,
            EvalError,
        >(Primitive::Boolean(fpu.approx_eq_spec(x, y))),
        apply_spec(fpu, OpKind::NotEquals, Primitive::Float(x), Some(Primitive::Float(y))) == Ok::<
            Primitive,
            EvalError,
        >(Primitive::Boolean(!fpu.approx_eq_spec(x, y))),
{
}

/// A float power whose base and exponent are both near zero fails with
/// `UndefinedPower`, whichever of them are integers.
pub proof fn law_float_power_near_zero<F: FloatUnit>(fpu: &F, a: Primitive, b: Primitive)
    requires
        a is Float || b is Float,
        a is Float || a is Integer,
        b is Float || b is Integer,
        fpu.near_zero_spec(crate::operation::promote_spec(fpu, a)),
        fpu.near_zero_spec(crate::operation::promote_spec(fpu, b)),
    ensures
        apply_spec(fpu, OpKind::Power, a, Some(b)) == Err::<Primitive, EvalError>(
            EvalError::UndefinedPower,
        ),
{
}

/// For operands of the same type, not-equals gives the negation of what equals
/// gives, and neither fails.
pub proof fn law_not_equals_negates<F: FloatUnit>(fpu: &F, a: Primitive, b: Primitive)
    requires
        type_of(a) == type_of(b),
    ensures
        apply_spec(fpu, OpKind::Equals, a, Some(b)) is Ok,
        apply_spec(fpu, OpKind::Equals, a, Some(b))->Ok_0 is Boolean,
        apply_spec(fpu, OpKind::NotEquals, a, Some(b)) == Ok::<Primitive, EvalError>(
            Primitive::Boolean(!apply_spec(fpu, OpKind::Equals, a, Some(b))->Ok_0->Boolean_0),
        ),
{
}

/// Equality of operands of different types fails with a type mismatch that names
/// both types, for equals and not-equals alike.
pub proof fn law_equality_type_mismatch<F: FloatUnit>(fpu: &F, kind: OpKind, a: Primitive, b: Primitive)
    requires
        kind is Equals || kind is NotEquals,
        type_of(a) != type_of(b),
    ensures
        apply_spec(fpu, kind, a, Some(b)) == Err::<Primitive, EvalError>(
            EvalError::TypeMismatch {
                context: MismatchContext::Operation(OperationType::Equality),
                first: type_of(a),
                second: Some(type_of(b)),
            },
        ),
{
}

/// A reference to a cell that nothing is bound at fails with `CellNotFound` at
/// exactly the requested address.
pub proof fn law_unbound_cell<F: FloatUnit>(fpu: &F, c: CellValue, env: Map<CellAddress, Expr>, depth: nat)
    requires
        !env.contains_key(CellAddress(c.0, c.1)),
    ensures
        eval_spec(fpu, Expr::Cell(c), env, depth) == Err::<Primitive, EvalError>(
            EvalError::CellNotFound(CellAddress(c.0, c.1)),
        ),
{
}

/// An aggregate whose top-left column lies right of its bottom-right column fails
/// with `InvalidRange`, whatever the grid holds: no cell is consulted.
pub proof fn law_invalid_range<F: FloatUnit>(fpu: &F, s: Statistics, env: Map<CellAddress, Expr>, depth: nat)
    requires
        s.corners_spec().0.0 > s.corners_spec().1.0,
    ensures
        eval_spec(fpu, Expr::Stat(s), env, depth) == Err::<Primitive, EvalError>(
            EvalError::InvalidRange,
        ),
{
}

/// A cast node whose operand evaluates to a boolean or a string fails with
/// `CastError`, naming the cast's target type and the operand's actual type.
pub proof fn law_cast_rejects<F: FloatUnit>(
    fpu: &F,
    op: Operation,
    env: Map<CellAddress, Expr>,
    depth: nat,
    v: Primitive,
)
    requires
        op.kind is FloatToInt || op.kind is IntToFloat,
        op.second is None,
        eval_spec(fpu, *op.first, env, depth) == Ok::<Primitive, EvalError>(v),
        v is Boolean || v is Text,
    ensures
        eval_spec(fpu, Expr::Op(op), env, depth) == Err::<Primitive, EvalError>(
            EvalError::CastError {
                target: if op.kind is FloatToInt {
                    ValueType::Integer
                } else {
                    ValueType::Float
                },
                actual: type_of(v),
            },
        ),
{
}

} // verus!
