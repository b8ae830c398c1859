use vstd::prelude::*;
use vstd::string::StringExecFns;

use crate::address::{CellAddress, CellValue};
use crate::error::OperationType;
use crate::expr::Expr;
use crate::float::FloatUnit;
use crate::operation::OpKind;
use crate::statistics::Statistics;
use crate::value::Primitive;

verus! {

pub open spec fn digit_char(d: nat) -> char {
    if d == 0 { '0' } else if d == 1 { '1' } else if d == 2 { '2' } else if d == 3 { '3' }
    else if d == 4 { '4' } else if d == 5 { '5' } else if d == 6 { '6' } else if d == 7 { '7' }
    else if d == 8 { '8' } else { '9' }
}

/// The decimal digits of `n`, most significant first, without leading zeros.
pub open spec fn digits_spec(n: nat) -> Seq<char>
    decreases n,
{
    if n < 10 {
        seq![digit_char(n)]
    } else {
        digits_spec(n / 10).push(digit_char(n % 10))
    }
}

/// The decimal text of an integer, with a leading minus sign when negative.
pub open spec fn decimal_spec(v: int) -> Seq<char> {
    if v < 0 {
        seq!['-'] + digits_spec((-v) as nat)
    } else {
        digits_spec(v as nat)
    }
}

fn append_digit(out: &mut String, d: u64)
    requires
        d < 10,
    ensures
        final(out)@ == old(out)@.push(digit_char(d as nat)),
{
    let s = if d == 0 { "0" } else if d == 1 { "1" } else if d == 2 { "2" } else if d == 3 { "3" }
    else if d == 4 { "4" } else if d == 5 { "5" } else if d == 6 { "6" } else if d == 7 { "7" }
    else if d == 8 { "8" } else { "9" };
    proof {
        reveal_strlit("0");
        reveal_strlit("1");
        reveal_strlit("2");
        reveal_strlit("3");
        reveal_strlit("4");
        reveal_strlit("5");
        reveal_strlit("6");
        reveal_strlit("7");
        reveal_strlit("8");
        reveal_strlit("9");
    }
    out.append(s);
    assert(final(out)@ =~= old(out)@.push(digit_char(d as nat)));
}

fn append_digits(out: &mut String, n: u64)
    ensures
        final(out)@ == old(out)@ + digits_spec(n as nat),
    decreases n,
{
    if n < 10 {
        append_digit(out, n);
        assert(final(out)@ =~= old(out)@ + digits_spec(n as nat));
    } else {
        append_digits(out, n / 10);
        append_digit(out, n % 10);
        assert(final(out)@ =~= old(out)@ + digits_spec(n as nat));
    }
}

/// Appends the decimal text of `v`.
pub fn append_decimal(out: &mut String, v: i32)
    ensures
        final(out)@ == old(out)@ + decimal_spec(v as int),
{
    if v < 0 {
        out.append("-");
        proof {
            reveal_strlit("-");
        }
        append_digits(out, (-(v as i64)) as u64);
        assert(final(out)@ =~= old(out)@ + decimal_spec(v as int));
    } else {
        append_digits(out, v as u64);
    }
}

/// The decimal text of `v`.
pub fn decimal(v: i32) -> (r: String)
    ensures
        r@ == decimal_spec(v as int),
{
    let mut s = String::new();
    append_decimal(&mut s, v);
    assert(s@ =~= decimal_spec(v as int));
    s
}

pub open spec fn pair_text(x: i32, y: i32) -> Seq<char> {
    "("@ + decimal_spec(x as int) + ", "@ + decimal_spec(y as int) + ")"@
}

fn append_pair(out: &mut String, x: i32, y: i32)
    ensures
        final(out)@ == old(out)@ + pair_text(x, y),
{
    out.append("(");
    append_decimal(out, x);
    out.append(", ");
    append_decimal(out, y);
    out.append(")");
    assert(final(out)@ =~= old(out)@ + pair_text(x, y));
}

impl CellAddress {
    /// `(column, row)`.
    pub fn to_string(&self) -> (r: String)
        ensures
            r@ == pair_text(self.0, self.1),
    {
        let mut s = String::new();
        append_pair(&mut s, self.0, self.1);
        assert(s@ =~= pair_text(self.0, self.1));
        s
    }
}

impl CellValue {
    /// `(column, row)`.
    pub fn to_string(&self) -> (r: String)
        ensures
            r@ == pair_text(self.0, self.1),
    {
        let mut s = String::new();
        append_pair(&mut s, self.0, self.1);
        assert(s@ =~= pair_text(self.0, self.1));
        s
    }
}

pub open spec fn statistic_name(s: Statistics) -> Seq<char> {
    match s {
        Statistics::Max(_, _) => "Max"@,
        Statistics::Min(_, _) => "Min"@,
        Statistics::Mean(_, _) => "Mean"@,
        Statistics::Sum(_, _) => "Sum"@,
    }
}

pub open spec fn statistic_text(s: Statistics) -> Seq<char> {
    let (a, b) = s.corners_spec();
    statistic_name(s) + "("@ + pair_text(a.0, a.1) + ", "@ + pair_text(b.0, b.1) + ")"@
}

impl Statistics {
    /// `Name(top-left, bottom-right)`, such as `Sum((0, 1), (1, 0))`.
    pub fn to_string(&self) -> (r: String)
        ensures
            r@ == statistic_text(*self),
    {
        let mut s = String::new();
        let name = match self {
            Statistics::Max(_, _) => "Max",
            Statistics::Min(_, _) => "Min",
            Statistics::Mean(_, _) => "Mean",
            Statistics::Sum(_, _) => "Sum",
        };
        s.append(name);
        let (a, b) = self.corners();
        s.append("(");
        append_pair(&mut s, a.0, a.1);
        s.append(", ");
        append_pair(&mut s, b.0, b.1);
        s.append(")");
        assert(s@ =~= statistic_text(*self));
        s
    }
}


/// The name of an operation family, as type errors print it.
pub open spec fn family_name(t: OperationType) -> Seq<char> {
    match t {
        OperationType::Arithmetic => "Arithmetic"@,
        OperationType::Logical => "Logical"@,
        OperationType::Bitwise => "Bitwise"@,
        OperationType::Equality => "Equality"@,
        OperationType::Relational => "Relational"@,
        OperationType::FloatToInt => "Float to Int"@,
        OperationType::IntToFloat => "Int to Float"@,
    }
}

impl OperationType {
    pub fn to_string(&self) -> (r: String)
        ensures
            r@ == family_name(*self),
    {
        let s = match self {
            OperationType::Arithmetic => "Arithmetic",
            OperationType::Logical => "Logical",
            OperationType::Bitwise => "Bitwise",
            OperationType::Equality => "Equality",
            OperationType::Relational => "Relational",
            OperationType::FloatToInt => "Float to Int",
            OperationType::IntToFloat => "Int to Float",
        };
        s.to_owned()
    }
}

/// The operator's symbol; a cast is written with its name.
pub open spec fn op_symbol(kind: OpKind) -> Seq<char> {
    match kind {
        OpKind::Add => "+"@,
        OpKind::Subtract => "-"@,
        OpKind::Multiply => "*"@,
        OpKind::Divide => "/"@,
        OpKind::Modulus => "%"@,
        OpKind::Power => "**"@,
        OpKind::LogicalAnd => "&&"@,
        OpKind::LogicalOr => "||"@,
        OpKind::LogicalNot => "!"@,
        OpKind::BitwiseAnd => "&"@,
        OpKind::BitwiseOr => "|"@,
        OpKind::BitwiseXor => "^"@,
        OpKind::BitwiseNot => "~"@,
        OpKind::LeftShift => "<<"@,
        OpKind::RightShift => ">>"@,
        OpKind::Equals => "=="@,
        OpKind::NotEquals => "!="@,
        OpKind::LessThan => "<"@,
        OpKind::LessThanOrEqual => "<="@,
        OpKind::GreaterThan => ">"@,
        OpKind::GreaterThanOrEqual => ">="@,
        OpKind::FloatToInt => "FloatToInt"@,
        OpKind::IntToFloat => "IntToFloat"@,
    }
}

impl OpKind {
    pub fn symbol(&self) -> (r: &'static str)
        ensures
            r@ == op_symbol(*self),
    {
        match self {
            OpKind::Add => "+",
            OpKind::Subtract => "-",
            OpKind::Multiply => "*",
            OpKind::Divide => "/",
            OpKind::Modulus => "%",
            OpKind::Power => "**",
            OpKind::LogicalAnd => "&&",
            OpKind::LogicalOr => "||",
            OpKind::LogicalNot => "!",
            OpKind::BitwiseAnd => "&",
            OpKind::BitwiseOr => "|",
            OpKind::BitwiseXor => "^",
            OpKind::BitwiseNot => "~",
            OpKind::LeftShift => "<<",
            OpKind::RightShift => ">>",
            OpKind::Equals => "==",
            OpKind::NotEquals => "!=",
            OpKind::LessThan => "<",
            OpKind::LessThanOrEqual => "<=",
            OpKind::GreaterThan => ">",
            OpKind::GreaterThanOrEqual => ">=",
            OpKind::FloatToInt => "FloatToInt",
            OpKind::IntToFloat => "IntToFloat",
        }
    }
}

/// The text of a scalar: literal text, a float as the float unit writes it, a
/// string in double quotes.
pub open spec fn primitive_text<F: FloatUnit>(fpu: &F, p: Primitive) -> Seq<char> {
    match p {
        Primitive::Integer(v) => decimal_spec(v as int),
        Primitive::Float(x) => fpu.render_spec(x)@,
        Primitive::Boolean(b) => if b {
            "true"@
        } else {
            "false"@
        },
        Primitive::Text(t) => "\""@ + t@ + "\""@,
    }
}

/// The text of an expression: `(left) OP (right)` for two operands, `OP(operand)`
/// for one.
pub open spec fn expr_text<F: FloatUnit>(fpu: &F, e: Expr) -> Seq<char>
    decreases e,
{
    match e {
        Expr::Literal(p) => primitive_text(fpu, p),
        Expr::Cell(c) => pair_text(c.0, c.1),
        Expr::Stat(s) => statistic_text(s),
        Expr::Op(op) => match op.second {
            None => op_symbol(op.kind) + "("@ + expr_text(fpu, *op.first) + ")"@,
            Some(b) => "("@ + expr_text(fpu, *op.first) + ") "@ + op_symbol(op.kind) + " ("@
                + expr_text(fpu, *b) + ")"@,
        },
    }
}

fn append_primitive<F: FloatUnit>(out: &mut String, p: &Primitive, fpu: &F)
    ensures
        final(out)@ == old(out)@ + primitive_text(fpu, *p),
{
    match p {
        Primitive::Integer(v) => append_decimal(out, *v),
        Primitive::Float(v) => {
            let t = fpu.render(*v);
            out.append(t.as_str());
        },
        Primitive::Boolean(b) => {
            if *b {
                out.append("true");
            } else {
                out.append("false");
            }
        },
        Primitive::Text(t) => {
            out.append("\"");
            out.append(t.as_str());
            out.append("\"");
            assert(final(out)@ =~= old(out)@ + primitive_text(fpu, *p));
        },
    }
}

impl Primitive {
    /// The value's text; a float's comes from `fpu`.
    pub fn to_string<F: FloatUnit>(&self, fpu: &F) -> (r: String)
        ensures
            r@ == primitive_text(fpu, *self),
    {
        let mut s = String::new();
        append_primitive(&mut s, self, fpu);
        assert(s@ =~= primitive_text(fpu, *self));
        s
    }
}

#[verifier::rlimit(40)]
fn append_expr<F: FloatUnit>(out: &mut String, e: &Expr, fpu: &F)
    ensures
        final(out)@ == old(out)@ + expr_text(fpu, *e),
    decreases *e,
{
    match e {
        Expr::Literal(p) => append_primitive(out, p, fpu),
        Expr::Cell(c) => append_pair(out, c.0, c.1),
        Expr::Stat(s) => {
            let t = s.to_string();
            out.append(t.as_str());
        },
        Expr::Op(op) => {
            let ghost start = out@;
            match &op.second {
                None => {
                    out.append(op.kind.symbol());
                    out.append("(");
                    append_expr(out, &op.first, fpu);
                    out.append(")");
                    assert(out@ =~= start + expr_text(fpu, *e));
                },
                Some(b) => {
                    out.append("(");
                    append_expr(out, &op.first, fpu);
                    out.append(") ");
                    out.append(op.kind.symbol());
                    out.append(" (");
                    append_expr(out, b, fpu);
                    out.append(")");
                    assert(out@ =~= start + expr_text(fpu, *e));
                },
            }
        },
    }
}

impl Expr {
    /// The expression's text; float literals are written by `fpu`.
    pub fn to_string<F: FloatUnit>(&self, fpu: &F) -> (r: String)
        ensures
            r@ == expr_text(fpu, *self),
    {
        let mut s = String::new();
        append_expr(&mut s, self, fpu);
        assert(s@ =~= expr_text(fpu, *self));
        s
    }
}

} // verus!
