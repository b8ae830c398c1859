use vstd::prelude::*;

use crate::address::{CellAddress, CellValue};
use crate::environment::Environment;
use crate::error::EvalError;
use crate::float::FloatUnit;
use crate::operation::{apply, apply_spec, OpKind};
use crate::statistics::{
    extreme_spec, get_cells, max, mean, mean_spec, min, range_cells, range_valid, sum, sum_spec,
    Statistics,
};
use crate::value::{numeric, Primitive};

verus! {

/// A node of an expression tree.
#[derive(Debug)]
pub enum Expr {
    Literal(Primitive),
    Cell(CellValue),
    Op(Operation),
    Stat(Statistics),
}

/// An operator applied to one operand (`second` absent) or two.
#[derive(Debug)]
pub struct Operation {
    pub kind: OpKind,
    pub first: Box<Expr>,
    pub second: Option<Box<Expr>>,
}

impl Operation {
    /// A node for a two-operand operator.
    pub fn binary(kind: OpKind, first: Expr, second: Expr) -> (r: Operation)
        requires
            !kind.unary_spec(),
        ensures
            r.kind == kind,
            *r.first == first,
            r.second is Some && *r.second->Some_0 == second,
    {
        Operation { kind, first: Box::new(first), second: Some(Box::new(second)) }
    }

    /// A node for a one-operand operator.
    pub fn unary(kind: OpKind, first: Expr) -> (r: Operation)
        requires
            kind.unary_spec(),
        ensures
            r.kind == kind,
            *r.first == first,
            r.second is None,
    {
        Operation { kind, first: Box::new(first), second: None }
    }
}

/// What evaluating `e` in the grid `env` gives, with float computations done by
/// `fpu` and at most `depth` nested cell resolutions.
///
/// Operands are evaluated first and second; the first operand's error wins, then
/// the second's; only then is the operator applied.
pub open spec fn eval_spec<F: FloatUnit>(
    fpu: &F,
    e: Expr,
    env: Map<CellAddress, Expr>,
    depth: nat,
) -> Result<Primitive, EvalError>
    decreases depth, e, 1int, 0int,
{
    match e {
        Expr::Literal(p) => Ok(p),
        Expr::Cell(c) => {
            let a = c.address_spec();
            if !env.contains_key(a) {
                Err(EvalError::CellNotFound(a))
            } else if depth == 0 {
                Err(EvalError::CircularReference(a))
            } else {
                eval_spec(fpu, env[a], env, (depth - 1) as nat)
            }
        },
        Expr::Op(op) => {
            let r1 = eval_spec(fpu, *op.first, env, depth);
            match op.second {
                None => match r1 {
                    Ok(v1) => apply_spec(fpu, op.kind, v1, None),
                    Err(x) => Err(x),
                },
                Some(s) => {
                    let r2 = eval_spec(fpu, *s, env, depth);
                    match (r1, r2) {
                        (Err(x), _) => Err(x),
                        (Ok(_), Err(x)) => Err(x),
                        (Ok(v1), Ok(v2)) => apply_spec(fpu, op.kind, v1, Some(v2)),
                    }
                },
            }
        },
        Expr::Stat(s) => {
            let (tl, br) = s.corners_spec();
            if !range_valid(tl, br) {
                Err(EvalError::InvalidRange)
            } else {
                match scan_spec(fpu, e, range_cells(tl, br), 0, env, depth) {
                    Ok(vals) => Ok(aggregate_spec(fpu, s, vals)),
                    Err(x) => Err(x),
                }
            }
        },
    }
}

/// The values of the cells of `cells` from index `i` on, for the aggregate
/// expression `s`, when each is bound and evaluates to a number; else the first
/// failure in order.
pub open spec fn scan_spec<F: FloatUnit>(
    fpu: &F,
    s: Expr,
    cells: Seq<CellAddress>,
    i: nat,
    env: Map<CellAddress, Expr>,
    depth: nat,
) -> Result<Seq<Primitive>, EvalError>
    decreases depth, s, 0int, cells.len() - i,
{
    if i >= cells.len() {
        Ok(Seq::empty())
    } else {
        let a = cells[i as int];
        if !env.contains_key(a) {
            Err(EvalError::CellNotFound(a))
        } else if depth == 0 {
            Err(EvalError::CircularReference(a))
        } else {
            match eval_spec(fpu, env[a], env, (depth - 1) as nat) {
                Ok(v) => if !numeric(v) {
                    Err(EvalError::NonNumericCell(a))
                } else {
                    match scan_spec(fpu, s, cells, i + 1, env, depth) {
                        Ok(rest) => Ok(seq![v] + rest),
                        Err(x) => Err(x),
                    }
                },
                Err(x) => Err(x),
            }
        }
    }
}

/// An aggregate of the cell values in range order: the float sum or mean, or the
/// greatest or least value as it stands in its cell.
pub open spec fn aggregate_spec<F: FloatUnit>(fpu: &F, s: Statistics, vals: Seq<Primitive>) -> Primitive {
    match s {
        Statistics::Sum(_, _) => Primitive::Float(sum_spec(fpu, vals, vals.len())),
        Statistics::Mean(_, _) => Primitive::Float(mean_spec(fpu, vals)),
        Statistics::Max(_, _) => extreme_spec(fpu, vals, vals.len(), true),
        Statistics::Min(_, _) => extreme_spec(fpu, vals, vals.len(), false),
    }
}

/// A node that evaluates against a grid: a scalar, a cell reference, an
/// operation, an aggregate, or any expression built from them.
///
/// A chain of cell references may be as deep as the number of bound cells; one
/// that goes deeper must revisit a cell, and fails with `CircularReference`.
pub trait Evaluatable {
    /// The node as an expression.
    spec fn as_expr(&self) -> Expr;

    /// Evaluates the node in `env`, with float computations done by `fpu`.
    fn evaluate<F: FloatUnit>(&self, env: &Environment, fpu: &F) -> (r: Result<
        Primitive,
        EvalError,
    >)
        requires
            env.wf(),
        ensures
            r == eval_spec(fpu, self.as_expr(), env@, env@.dom().len()),
    ;
}

impl Evaluatable for Expr {
    open spec fn as_expr(&self) -> Expr {
        *self
    }

    fn evaluate<F: FloatUnit>(&self, env: &Environment, fpu: &F) -> (r: Result<
        Primitive,
        EvalError,
    >) {
        eval_expr(self, env, fpu, env.len())
    }
}

impl Evaluatable for Primitive {
    open spec fn as_expr(&self) -> Expr {
        Expr::Literal(*self)
    }

    /// A scalar evaluates to itself, without consulting the grid.
    fn evaluate<F: FloatUnit>(&self, env: &Environment, fpu: &F) -> (r: Result<
        Primitive,
        EvalError,
    >) {
        Ok(self.duplicate())
    }
}

impl Evaluatable for CellValue {
    open spec fn as_expr(&self) -> Expr {
        Expr::Cell(*self)
    }

    fn evaluate<F: FloatUnit>(&self, env: &Environment, fpu: &F) -> (r: Result<
        Primitive,
        EvalError,
    >) {
        eval_expr(&Expr::Cell(*self), env, fpu, env.len())
    }
}

impl Evaluatable for Operation {
    open spec fn as_expr(&self) -> Expr {
        Expr::Op(*self)
    }

    fn evaluate<F: FloatUnit>(&self, env: &Environment, fpu: &F) -> (r: Result<
        Primitive,
        EvalError,
    >) {
        eval_operation(self, env, fpu, env.len())
    }
}

impl Evaluatable for Statistics {
    open spec fn as_expr(&self) -> Expr {
        Expr::Stat(*self)
    }

    fn evaluate<F: FloatUnit>(&self, env: &Environment, fpu: &F) -> (r: Result<
        Primitive,
        EvalError,
    >) {
        eval_statistics(self, env, fpu, env.len())
    }
}

/// Evaluates `e` in `env` with at most `depth` nested cell resolutions.
pub fn eval_expr<F: FloatUnit>(e: &Expr, env: &Environment, fpu: &F, depth: usize) -> (r: Result<
    Primitive,
    EvalError,
>)
    requires
        env.wf(),
    ensures
        r == eval_spec(fpu, *e, env@, depth as nat),
    decreases depth, *e, 1int, 0int,
{
    match e {
        Expr::Literal(p) => Ok(p.duplicate()),
        Expr::Cell(c) => {
            let a = c.address();
            match env.get_cell(&a) {
                None => Err(EvalError::CellNotFound(a)),
                Some(inner) => {
                    if depth == 0 {
                        Err(EvalError::CircularReference(a))
                    } else {
                        eval_expr(inner, env, fpu, depth - 1)
                    }
                },
            }
        },
        Expr::Op(op) => eval_operation(op, env, fpu, depth),
        Expr::Stat(s) => eval_statistics(s, env, fpu, depth),
    }
}

/// Evaluates both operands (the second, where there is one, even when the first
/// failed), reports the first operand's error, then the second's, and only then
/// applies the operator.
fn eval_operation<F: FloatUnit>(op: &Operation, env: &Environment, fpu: &F, depth: usize) -> (r:
    Result<Primitive, EvalError>)
    requires
        env.wf(),
    ensures
        r == eval_spec(fpu, Expr::Op(*op), env@, depth as nat),
    decreases depth, Expr::Op(*op), 0int, 0int,
{
    let r1 = eval_expr(&op.first, env, fpu, depth);
    match &op.second {
        None => match r1 {
            Err(x) => Err(x),
            Ok(v1) => apply(op.kind, &v1, &None, fpu),
        },
        Some(b) => {
            let r2 = eval_expr(b, env, fpu, depth);
            match r1 {
                Err(x) => Err(x),
                Ok(v1) => match r2 {
                    Err(x) => Err(x),
                    Ok(v2) => apply(op.kind, &v1, &Some(v2), fpu),
                },
            }
        },
    }
}

fn eval_statistics<F: FloatUnit>(s: &Statistics, env: &Environment, fpu: &F, depth: usize) -> (r:
    Result<Primitive, EvalError>)
    requires
        env.wf(),
    ensures
        r == eval_spec(fpu, Expr::Stat(*s), env@, depth as nat),
    decreases depth, Expr::Stat(*s), 0int, 0int,
{
    let ghost e = Expr::Stat(*s);
    let (tl, br) = s.corners();
    if tl.0 > br.0 || tl.1 < br.1 {
        return Err(EvalError::InvalidRange);
    }
    let cells = get_cells(&tl, &br);
    let ghost whole = scan_spec(fpu, e, cells@, 0, env@, depth as nat);
    assert(eval_spec(fpu, e, env@, depth as nat) == (match whole {
        Ok(vs) => Ok(aggregate_spec(fpu, *s, vs)),
        Err(x) => Err::<Primitive, EvalError>(x),
    }));
    let mut vals: Vec<Primitive> = Vec::new();
    let mut i: usize = 0;
    while i < cells.len()
        invariant
            env.wf(),
            e == Expr::Stat(*s),
            i <= cells@.len(),
            whole == scan_spec(fpu, e, cells@, 0, env@, depth as nat),
            eval_spec(fpu, e, env@, depth as nat) == (match whole {
                Ok(vs) => Ok(aggregate_spec(fpu, *s, vs)),
                Err(x) => Err::<Primitive, EvalError>(x),
            }),
            whole == (match scan_spec(fpu, e, cells@, i as nat, env@, depth as nat) {
                Ok(rest) => Ok(vals@ + rest),
                Err(x) => Err::<Seq<Primitive>, EvalError>(x),
            }),
        decreases cells@.len() - i,
    {
        let a = cells[i];
        match env.get_cell(&a) {
            None => {
                return Err(EvalError::CellNotFound(a));
            },
            Some(inner) => {
                if depth == 0 {
                    return Err(EvalError::CircularReference(a));
                }
                match eval_expr(inner, env, fpu, depth - 1) {
                    Err(x) => {
                        return Err(x);
                    },
                    Ok(v) => {
                        if !v.is_numeric() {
                            return Err(EvalError::NonNumericCell(a));
                        }
                        let ghost old_vals = vals@;
                        vals.push(v);
                        proof {
                            let next = scan_spec(fpu, e, cells@, (i + 1) as nat, env@, depth as nat);
                            if next is Ok {
                                assert(old_vals + (seq![v] + next->Ok_0) =~= vals@ + next->Ok_0);
                            }
                        }
                    },
                }
            },
        }
        i = i + 1;
    }
    assert(vals@ + Seq::<Primitive>::empty() =~= vals@);
    match s {
        Statistics::Max(_, _) => Ok(max(&vals, fpu)),
        Statistics::Min(_, _) => Ok(min(&vals, fpu)),
        Statistics::Mean(_, _) => Ok(Primitive::Float(mean(&vals, fpu))),
        Statistics::Sum(_, _) => Ok(Primitive::Float(sum(&vals, fpu))),
    }
}

} // verus!
