use gridkid::address::{CellAddress, CellValue};
use gridkid::environment::Environment;
use gridkid::error::{EvalError, MismatchContext, OperationType};
use gridkid::expr::{Evaluatable, Expr, Operation};
use gridkid::float::FloatUnit;
use gridkid::operation::{apply, OpKind};
use gridkid::statistics::{get_cells, Statistics};
use gridkid::value::{Primitive, ValueType};

struct F32Unit;

fn f(x: u32) -> f32 {
    f32::from_bits(x)
}

impl FloatUnit for F32Unit {
    fn from_int_spec(&self, v: i32) -> u32 {
        self.from_int(v)
    }
    fn from_count_spec(&self, n: usize) -> u32 {
        self.from_count(n)
    }
    fn to_int_spec(&self, x: u32) -> i32 {
        self.to_int(x)
    }
    fn plus_spec(&self, x: u32, y: u32) -> u32 {
        self.plus(x, y)
    }
    fn minus_spec(&self, x: u32, y: u32) -> u32 {
        self.minus(x, y)
    }
    fn times_spec(&self, x: u32, y: u32) -> u32 {
        self.times(x, y)
    }
    fn divide_spec(&self, x: u32, y: u32) -> u32 {
        self.divide(x, y)
    }
    fn remainder_spec(&self, x: u32, y: u32) -> u32 {
        self.remainder(x, y)
    }
    fn power_spec(&self, x: u32, y: u32) -> u32 {
        self.power(x, y)
    }
    fn near_zero_spec(&self, x: u32) -> bool {
        self.near_zero(x)
    }
    fn approx_eq_spec(&self, x: u32, y: u32) -> bool {
        self.approx_eq(x, y)
    }
    fn less_spec(&self, x: u32, y: u32) -> bool {
        self.less(x, y)
    }
    fn greater_spec(&self, x: u32, y: u32) -> bool {
        self.greater(x, y)
    }
    fn render_spec(&self, x: u32) -> String {
        self.render(x)
    }
    fn from_int(&self, v: i32) -> u32 {
        (v as f32).to_bits()
    }
    fn from_count(&self, n: usize) -> u32 {
        (n as f32).to_bits()
    }
    fn to_int(&self, x: u32) -> i32 {
        f(x) as i32
    }
    fn plus(&self, x: u32, y: u32) -> u32 {
        (f(x) + f(y)).to_bits()
    }
    fn minus(&self, x: u32, y: u32) -> u32 {
        (f(x) - f(y)).to_bits()
    }
    fn times(&self, x: u32, y: u32) -> u32 {
        (f(x) * f(y)).to_bits()
    }
    fn divide(&self, x: u32, y: u32) -> u32 {
        (f(x) / f(y)).to_bits()
    }
    fn remainder(&self, x: u32, y: u32) -> u32 {
        (f(x) % f(y)).to_bits()
    }
    fn power(&self, x: u32, y: u32) -> u32 {
        f(x).powf(f(y)).to_bits()
    }
    fn near_zero(&self, x: u32) -> bool {
        f(x).abs() < f32::EPSILON
    }
    fn approx_eq(&self, x: u32, y: u32) -> bool {
        (f(x) - f(y)).abs() < f32::EPSILON
    }
    fn less(&self, x: u32, y: u32) -> bool {
        f(x) < f(y)
    }
    fn greater(&self, x: u32, y: u32) -> bool {
        f(x) > f(y)
    }
    fn render(&self, x: u32) -> String {
        format!("{}", f(x))
    }
}

fn ilit(v: i32) -> Expr {
    Expr::Literal(Primitive::Integer(v))
}

fn flit(v: f32) -> Expr {
    Expr::Literal(Primitive::Float(v.to_bits()))
}

fn blit(v: bool) -> Expr {
    Expr::Literal(Primitive::Boolean(v))
}

fn tlit(v: &str) -> Expr {
    Expr::Literal(Primitive::Text(v.to_string()))
}

fn bin(kind: OpKind, a: Expr, b: Expr) -> Expr {
    Expr::Op(Operation::binary(kind, a, b))
}

fn un(kind: OpKind, a: Expr) -> Expr {
    Expr::Op(Operation::unary(kind, a))
}

fn cell(col: i32, row: i32) -> Expr {
    Expr::Cell(CellValue(col, row))
}

fn eval(e: &Expr) -> Result<Primitive, EvalError> {
    e.evaluate(&Environment::init(), &F32Unit)
}

fn eval_in(e: &Expr, env: &Environment) -> Result<Primitive, EvalError> {
    e.evaluate(env, &F32Unit)
}

fn as_float(r: Result<Primitive, EvalError>) -> f32 {
    match r {
        Ok(Primitive::Float(bits)) => f32::from_bits(bits),
        other => panic!("expected a float, got {:?}", other),
    }
}

fn mismatch(cat: OperationType, a: ValueType, b: Option<ValueType>) -> EvalError {
    EvalError::TypeMismatch { context: MismatchContext::Operation(cat), first: a, second: b }
}

#[test]
fn integer_arithmetic() {
    assert_eq!(eval(&bin(OpKind::Add, ilit(5), ilit(-4))), Ok(Primitive::Integer(1)));
    assert_eq!(eval(&bin(OpKind::Subtract, ilit(5), ilit(17))), Ok(Primitive::Integer(-12)));
    assert_eq!(eval(&bin(OpKind::Multiply, ilit(-4), ilit(17))), Ok(Primitive::Integer(-68)));
    assert_eq!(eval(&bin(OpKind::Divide, ilit(5), ilit(-4))), Ok(Primitive::Integer(-1)));
    assert_eq!(eval(&bin(OpKind::Modulus, ilit(17), ilit(5))), Ok(Primitive::Integer(2)));
    assert_eq!(eval(&bin(OpKind::Modulus, ilit(-17), ilit(5))), Ok(Primitive::Integer(-2)));
    assert_eq!(eval(&bin(OpKind::Power, ilit(-4), ilit(5))), Ok(Primitive::Integer(-1024)));
    assert_eq!(eval(&bin(OpKind::Power, ilit(7), ilit(0))), Ok(Primitive::Integer(1)));
}

#[test]
fn integer_division_truncates_toward_zero() {
    assert_eq!(eval(&bin(OpKind::Divide, ilit(7), ilit(2))), Ok(Primitive::Integer(3)));
    assert_eq!(eval(&bin(OpKind::Divide, ilit(-7), ilit(2))), Ok(Primitive::Integer(-3)));
    assert_eq!(eval(&bin(OpKind::Divide, ilit(7), ilit(-2))), Ok(Primitive::Integer(-3)));
    assert_eq!(eval(&bin(OpKind::Divide, ilit(-7), ilit(-2))), Ok(Primitive::Integer(3)));
    assert_eq!(eval(&bin(OpKind::Divide, ilit(i32::MIN), ilit(1))), Ok(Primitive::Integer(i32::MIN)));
}

#[test]
fn integer_division_by_zero() {
    assert_eq!(eval(&bin(OpKind::Divide, ilit(7), ilit(0))), Err(EvalError::DivisionByZero));
    assert_eq!(eval(&bin(OpKind::Modulus, ilit(7), ilit(0))), Err(EvalError::DivisionByZero));
}

#[test]
fn integer_overflow_is_an_error() {
    assert_eq!(eval(&bin(OpKind::Add, ilit(i32::MAX), ilit(1))), Err(EvalError::IntegerOverflow));
    assert_eq!(eval(&bin(OpKind::Subtract, ilit(i32::MIN), ilit(1))), Err(EvalError::IntegerOverflow));
    assert_eq!(eval(&bin(OpKind::Multiply, ilit(65536), ilit(65536))), Err(EvalError::IntegerOverflow));
    assert_eq!(eval(&bin(OpKind::Divide, ilit(i32::MIN), ilit(-1))), Err(EvalError::IntegerOverflow));
    assert_eq!(eval(&bin(OpKind::Power, ilit(2), ilit(31))), Err(EvalError::IntegerOverflow));
    assert_eq!(eval(&bin(OpKind::Power, ilit(-2), ilit(31))), Ok(Primitive::Integer(i32::MIN)));
}

#[test]
fn integer_power_rules() {
    assert_eq!(eval(&bin(OpKind::Power, ilit(2), ilit(-1))), Err(EvalError::InvalidExponent));
    assert_eq!(eval(&bin(OpKind::Power, ilit(0), ilit(3))), Ok(Primitive::Integer(0)));
}

#[test]
fn power_zero_zero_is_undefined() {
    assert_eq!(eval(&bin(OpKind::Power, ilit(0), ilit(0))), Err(EvalError::UndefinedPower));
    assert_eq!(eval(&bin(OpKind::Power, flit(0.0), flit(0.0))), Err(EvalError::UndefinedPower));
    assert_eq!(eval(&bin(OpKind::Power, ilit(0), flit(0.0))), Err(EvalError::UndefinedPower));
}

#[test]
fn float_arithmetic_promotes_integers() {
    assert!((as_float(eval(&bin(OpKind::Add, flit(6.4), flit(5.7)))) - 12.1).abs() < 1e-5);
    assert!((as_float(eval(&bin(OpKind::Subtract, flit(6.4), flit(-5.7)))) - 12.1).abs() < 1e-5);
    assert!((as_float(eval(&bin(OpKind::Divide, flit(6.4), ilit(-4)))) + 1.6).abs() < 1e-6);
    assert_eq!(as_float(eval(&bin(OpKind::Add, ilit(2), flit(0.5)))), 2.5);
    assert!((as_float(eval(&bin(OpKind::Power, flit(4.0), flit(0.5)))) - 2.0).abs() < 1e-6);
    assert!((as_float(eval(&bin(OpKind::Power, flit(2.0), flit(-1.0)))) - 0.5).abs() < 1e-6);
}

#[test]
fn float_division_by_near_zero() {
    assert_eq!(eval(&bin(OpKind::Divide, flit(1.0), flit(0.0))), Err(EvalError::DivisionByZero));
    assert_eq!(eval(&bin(OpKind::Divide, flit(1.0), flit(1e-9))), Err(EvalError::DivisionByZero));
    assert_eq!(eval(&bin(OpKind::Divide, flit(1.0), flit(-1e-9))), Err(EvalError::DivisionByZero));
}

#[test]
fn arithmetic_type_mismatch() {
    assert_eq!(
        eval(&bin(OpKind::Add, ilit(1), blit(true))),
        Err(mismatch(OperationType::Arithmetic, ValueType::Integer, Some(ValueType::Boolean)))
    );
    assert_eq!(
        eval(&bin(OpKind::Multiply, tlit("a"), flit(1.0))),
        Err(mismatch(OperationType::Arithmetic, ValueType::Text, Some(ValueType::Float)))
    );
}

#[test]
fn logical_operators() {
    assert_eq!(eval(&bin(OpKind::LogicalAnd, blit(true), blit(true))), Ok(Primitive::Boolean(true)));
    assert_eq!(eval(&bin(OpKind::LogicalAnd, blit(true), blit(false))), Ok(Primitive::Boolean(false)));
    assert_eq!(eval(&bin(OpKind::LogicalOr, blit(false), blit(false))), Ok(Primitive::Boolean(false)));
    assert_eq!(eval(&bin(OpKind::LogicalOr, blit(false), blit(true))), Ok(Primitive::Boolean(true)));
    assert_eq!(eval(&un(OpKind::LogicalNot, blit(true))), Ok(Primitive::Boolean(false)));
}

#[test]
fn logical_not_names_one_operand() {
    assert_eq!(
        eval(&un(OpKind::LogicalNot, ilit(1))),
        Err(mismatch(OperationType::Logical, ValueType::Integer, None))
    );
    assert_eq!(
        eval(&bin(OpKind::LogicalAnd, blit(true), ilit(1))),
        Err(mismatch(OperationType::Logical, ValueType::Boolean, Some(ValueType::Integer)))
    );
}

#[test]
fn bitwise_operators() {
    assert_eq!(eval(&bin(OpKind::BitwiseAnd, ilit(5), ilit(4))), Ok(Primitive::Integer(4)));
    assert_eq!(eval(&bin(OpKind::BitwiseOr, ilit(5), ilit(4))), Ok(Primitive::Integer(5)));
    assert_eq!(eval(&bin(OpKind::BitwiseXor, ilit(5), ilit(4))), Ok(Primitive::Integer(1)));
    assert_eq!(eval(&un(OpKind::BitwiseNot, ilit(5))), Ok(Primitive::Integer(-6)));
}

#[test]
fn bitwise_rejects_non_integers() {
    assert_eq!(
        eval(&bin(OpKind::BitwiseAnd, ilit(5), blit(true))),
        Err(mismatch(OperationType::Bitwise, ValueType::Integer, Some(ValueType::Boolean)))
    );
    assert_eq!(
        eval(&bin(OpKind::BitwiseOr, ilit(5), flit(1.0))),
        Err(mismatch(OperationType::Bitwise, ValueType::Integer, Some(ValueType::Float)))
    );
    assert_eq!(
        eval(&un(OpKind::BitwiseNot, blit(true))),
        Err(mismatch(OperationType::Bitwise, ValueType::Boolean, None))
    );
}

#[test]
fn shifts_are_unsupported() {
    assert_eq!(eval(&bin(OpKind::LeftShift, ilit(1), ilit(2))), Err(EvalError::UnsupportedOperation));
    assert_eq!(eval(&bin(OpKind::RightShift, ilit(8), ilit(2))), Err(EvalError::UnsupportedOperation));
}

#[test]
fn equality_by_value() {
    assert_eq!(eval(&bin(OpKind::Equals, ilit(5), ilit(5))), Ok(Primitive::Boolean(true)));
    assert_eq!(eval(&bin(OpKind::Equals, tlit("test"), tlit("not test"))), Ok(Primitive::Boolean(false)));
    assert_eq!(eval(&bin(OpKind::Equals, blit(true), blit(false))), Ok(Primitive::Boolean(false)));
    assert_eq!(eval(&bin(OpKind::NotEquals, flit(5.7), flit(-5.7))), Ok(Primitive::Boolean(true)));
}

#[test]
fn float_equality_within_epsilon() {
    let x = 1.0f32;
    let y = 1.0f32 + f32::EPSILON / 4.0;
    let z = 1.0f32 + 4.0 * f32::EPSILON;
    assert_eq!(eval(&bin(OpKind::Equals, flit(x), flit(x))), Ok(Primitive::Boolean(true)));
    assert_eq!(eval(&bin(OpKind::Equals, flit(x), flit(y))), Ok(Primitive::Boolean(true)));
    assert_eq!(eval(&bin(OpKind::Equals, flit(y), flit(x))), Ok(Primitive::Boolean(true)));
    assert_eq!(eval(&bin(OpKind::Equals, flit(x), flit(z))), Ok(Primitive::Boolean(false)));
    assert_eq!(eval(&bin(OpKind::Equals, flit(z), flit(x))), Ok(Primitive::Boolean(false)));
}

#[test]
fn not_equals_negates_equals() {
    let pairs = vec![
        (ilit(3), ilit(3)),
        (ilit(3), ilit(4)),
        (blit(true), blit(true)),
        (blit(true), blit(false)),
        (tlit("a"), tlit("a")),
        (tlit("a"), tlit("b")),
        (flit(1.5), flit(1.5)),
        (flit(1.5), flit(2.5)),
    ];
    for (a, b) in pairs {
        let eq = eval(&bin(OpKind::Equals, clone_lit(&a), clone_lit(&b)));
        let ne = eval(&bin(OpKind::NotEquals, a, b));
        match (eq, ne) {
            (Ok(Primitive::Boolean(x)), Ok(Primitive::Boolean(y))) => assert_eq!(x, !y),
            other => panic!("unexpected {:?}", other),
        }
    }
}

fn clone_lit(e: &Expr) -> Expr {
    match e {
        Expr::Literal(p) => Expr::Literal(p.duplicate()),
        _ => panic!("not a literal"),
    }
}

#[test]
fn equals_integer_text_mismatch() {
    assert_eq!(
        eval(&bin(OpKind::Equals, ilit(6), tlit("hello"))),
        Err(mismatch(OperationType::Equality, ValueType::Integer, Some(ValueType::Text)))
    );
    assert_eq!(
        eval(&bin(OpKind::NotEquals, ilit(6), flit(6.0))),
        Err(mismatch(OperationType::Equality, ValueType::Integer, Some(ValueType::Float)))
    );
}

#[test]
fn relational_operators() {
    assert_eq!(eval(&bin(OpKind::LessThan, ilit(3), ilit(4))), Ok(Primitive::Boolean(true)));
    assert_eq!(eval(&bin(OpKind::LessThanOrEqual, ilit(4), ilit(4))), Ok(Primitive::Boolean(true)));
    assert_eq!(eval(&bin(OpKind::GreaterThan, ilit(3), ilit(4))), Ok(Primitive::Boolean(false)));
    assert_eq!(eval(&bin(OpKind::GreaterThanOrEqual, ilit(4), ilit(3))), Ok(Primitive::Boolean(true)));
    assert_eq!(eval(&bin(OpKind::LessThan, flit(1.5), ilit(2))), Ok(Primitive::Boolean(true)));
    assert_eq!(eval(&bin(OpKind::GreaterThan, flit(1.5), ilit(2))), Ok(Primitive::Boolean(false)));
    assert_eq!(eval(&bin(OpKind::GreaterThanOrEqual, flit(2.5), flit(1.5))), Ok(Primitive::Boolean(true)));
    assert_eq!(eval(&bin(OpKind::GreaterThanOrEqual, flit(1.5), flit(2.5))), Ok(Primitive::Boolean(false)));
    assert_eq!(eval(&bin(OpKind::LessThanOrEqual, flit(2.0), ilit(2))), Ok(Primitive::Boolean(true)));
    assert_eq!(
        eval(&bin(OpKind::LessThan, tlit("a"), ilit(2))),
        Err(mismatch(OperationType::Relational, ValueType::Text, Some(ValueType::Integer)))
    );
}

#[test]
fn casts() {
    assert_eq!(eval(&un(OpKind::FloatToInt, flit(5.7))), Ok(Primitive::Integer(5)));
    assert_eq!(eval(&un(OpKind::FloatToInt, flit(-5.7))), Ok(Primitive::Integer(-5)));
    assert_eq!(as_float(eval(&un(OpKind::IntToFloat, ilit(3)))), 3.0);
}

#[test]
fn cast_of_wrong_type_fails() {
    assert_eq!(
        eval(&un(OpKind::FloatToInt, blit(true))),
        Err(EvalError::CastError { target: ValueType::Integer, actual: ValueType::Boolean })
    );
    assert_eq!(
        eval(&un(OpKind::FloatToInt, tlit("x"))),
        Err(EvalError::CastError { target: ValueType::Integer, actual: ValueType::Text })
    );
    assert_eq!(
        eval(&un(OpKind::IntToFloat, blit(false))),
        Err(EvalError::CastError { target: ValueType::Float, actual: ValueType::Boolean })
    );
    assert_eq!(
        eval(&un(OpKind::IntToFloat, tlit("x"))),
        Err(EvalError::CastError { target: ValueType::Float, actual: ValueType::Text })
    );
    assert_eq!(
        eval(&un(OpKind::IntToFloat, flit(1.0))),
        Err(EvalError::CastError { target: ValueType::Float, actual: ValueType::Float })
    );
}

#[test]
fn first_operand_error_wins() {
    let e = bin(
        OpKind::Add,
        bin(OpKind::Divide, ilit(1), ilit(0)),
        bin(OpKind::Power, ilit(2), ilit(-1)),
    );
    assert_eq!(eval(&e), Err(EvalError::DivisionByZero));
    let e = bin(OpKind::Add, ilit(1), bin(OpKind::Power, ilit(2), ilit(-1)));
    assert_eq!(eval(&e), Err(EvalError::InvalidExponent));
    let e = bin(OpKind::Add, tlit("a"), cell(9, 9));
    assert_eq!(eval(&e), Err(EvalError::CellNotFound(CellAddress(9, 9))));
}

#[test]
fn nested_combination() {
    let e = bin(
        OpKind::Equals,
        bin(
            OpKind::Multiply,
            bin(OpKind::Add, bin(OpKind::Subtract, ilit(5), ilit(5)), ilit(5)),
            bin(OpKind::BitwiseOr, ilit(5), ilit(4)),
        ),
        ilit(25),
    );
    assert_eq!(eval(&e), Ok(Primitive::Boolean(true)));
    assert_eq!(e.to_string(&F32Unit), "((((5) - (5)) + (5)) * ((5) | (4))) == (25)");
}

#[test]
fn cell_reference_resolves_through_chain() {
    let mut env = Environment::init();
    env.set_cell(&CellAddress(0, 0), ilit(7));
    env.set_cell(&CellAddress(1, 0), cell(0, 0));
    env.set_cell(&CellAddress(2, 0), bin(OpKind::Add, cell(1, 0), ilit(1)));
    assert_eq!(eval_in(&cell(2, 0), &env), Ok(Primitive::Integer(8)));
    env.set_cell(&CellAddress(0, 0), ilit(10));
    assert_eq!(eval_in(&cell(2, 0), &env), Ok(Primitive::Integer(11)));
}

#[test]
fn unbound_cell_reference() {
    let env = Environment::init();
    assert_eq!(eval_in(&cell(3, -2), &env), Err(EvalError::CellNotFound(CellAddress(3, -2))));
}

#[test]
fn circular_reference_fails() {
    let mut env = Environment::init();
    env.set_cell(&CellAddress(0, 0), cell(1, 0));
    env.set_cell(&CellAddress(1, 0), cell(0, 0));
    assert!(matches!(eval_in(&cell(0, 0), &env), Err(EvalError::CircularReference(_))));
}

fn block_env() -> Environment {
    let mut env = Environment::init();
    env.set_cell(&CellAddress(0, 0), ilit(1));
    env.set_cell(&CellAddress(1, 0), ilit(2));
    env.set_cell(&CellAddress(0, 1), ilit(3));
    env.set_cell(&CellAddress(1, 1), ilit(4));
    env
}

#[test]
fn range_statistics_block() {
    let env = block_env();
    let tl = CellAddress(0, 1);
    let br = CellAddress(1, 0);
    assert_eq!(as_float(eval_in(&Expr::Stat(Statistics::Sum(tl, br)), &env)), 10.0);
    assert_eq!(as_float(eval_in(&Expr::Stat(Statistics::Mean(tl, br)), &env)), 2.5);
    assert_eq!(eval_in(&Expr::Stat(Statistics::Max(tl, br)), &env), Ok(Primitive::Integer(4)));
    assert_eq!(eval_in(&Expr::Stat(Statistics::Min(tl, br)), &env), Ok(Primitive::Integer(1)));
}

#[test]
fn range_max_keeps_unpromoted_variant() {
    let mut env = block_env();
    env.set_cell(&CellAddress(1, 1), flit(3.5));
    let tl = CellAddress(0, 1);
    let br = CellAddress(1, 0);
    assert_eq!(eval_in(&Expr::Stat(Statistics::Max(tl, br)), &env), Ok(Primitive::Float(3.5f32.to_bits())));
    assert_eq!(eval_in(&Expr::Stat(Statistics::Min(tl, br)), &env), Ok(Primitive::Integer(1)));
}

#[test]
fn single_cell_range() {
    let env = block_env();
    let a = CellAddress(1, 1);
    assert_eq!(as_float(eval_in(&Expr::Stat(Statistics::Mean(a, a)), &env)), 4.0);
}

#[test]
fn range_enumeration_order() {
    let cells = get_cells(&CellAddress(0, 1), &CellAddress(2, 0));
    assert_eq!(
        cells,
        vec![
            CellAddress(0, 0),
            CellAddress(1, 0),
            CellAddress(2, 0),
            CellAddress(0, 1),
            CellAddress(1, 1),
            CellAddress(2, 1),
        ]
    );
}

#[test]
fn invalid_range_leaves_store_untouched() {
    let env = Environment::init();
    let s = Statistics::Sum(CellAddress(2, 1), CellAddress(1, 0));
    assert_eq!(eval_in(&Expr::Stat(s), &env), Err(EvalError::InvalidRange));
    let s = Statistics::Max(CellAddress(0, 0), CellAddress(1, 1));
    assert_eq!(eval_in(&Expr::Stat(s), &env), Err(EvalError::InvalidRange));
}

#[test]
fn range_errors_in_enumeration_order() {
    let mut env = block_env();
    let tl = CellAddress(0, 2);
    let br = CellAddress(1, 0);
    assert_eq!(eval_in(&Expr::Stat(Statistics::Sum(tl, br)), &env), Err(EvalError::CellNotFound(CellAddress(0, 2))));
    env.set_cell(&CellAddress(1, 0), tlit("x"));
    assert_eq!(eval_in(&Expr::Stat(Statistics::Sum(tl, br)), &env), Err(EvalError::NonNumericCell(CellAddress(1, 0))));
    env.set_cell(&CellAddress(0, 0), bin(OpKind::Divide, ilit(1), ilit(0)));
    assert_eq!(eval_in(&Expr::Stat(Statistics::Sum(tl, br)), &env), Err(EvalError::DivisionByZero));
}

#[test]
fn rendering() {
    assert_eq!(CellAddress(1, -2).to_string(), "(1, -2)");
    assert_eq!(CellValue(0, 10).to_string(), "(0, 10)");
    assert_eq!(Statistics::Sum(CellAddress(0, 1), CellAddress(1, 0)).to_string(), "Sum((0, 1), (1, 0))");
    assert_eq!(Primitive::Text("hi".to_string()).to_string(&F32Unit), "\"hi\"");
    assert_eq!(OperationType::FloatToInt.to_string(), "Float to Int");
    assert_eq!(OperationType::Relational.to_string(), "Relational");
    assert_eq!(Primitive::Boolean(false).to_string(&F32Unit), "false");
    assert_eq!(Primitive::Float(6.4f32.to_bits()).to_string(&F32Unit), "6.4");
    assert_eq!(un(OpKind::LogicalNot, blit(true)).to_string(&F32Unit), "!(true)");
    assert_eq!(un(OpKind::BitwiseNot, ilit(-5)).to_string(&F32Unit), "~(-5)");
    assert_eq!(un(OpKind::FloatToInt, flit(1.5)).to_string(&F32Unit), "FloatToInt(1.5)");
    assert_eq!(bin(OpKind::Power, ilit(2), cell(0, 1)).to_string(&F32Unit), "(2) ** ((0, 1))");
    assert_eq!(bin(OpKind::GreaterThanOrEqual, ilit(2), ilit(3)).to_string(&F32Unit), "(2) >= (3)");
}

#[test]
fn value_accessors() {
    let v = Primitive::Integer(3);
    assert_eq!(v.get_int_value(), Ok(3));
    assert_eq!(v.type_string(), "Integer");
    assert_eq!(Primitive::Text("a".to_string()).type_string(), "String");
    assert_eq!(
        v.get_boolean_value(),
        Err(EvalError::TypeMismatch {
            context: MismatchContext::Value(ValueType::Boolean),
            first: ValueType::Integer,
            second: None
        })
    );
    assert!(v.is_numeric() && v.is_integer() && !v.is_boolean());
    assert!(Primitive::Float(0).is_numeric());
    assert!(!Primitive::Boolean(true).is_numeric());
}

#[test]
fn environment_replaces_binding() {
    let mut env = Environment::init();
    env.set_cell(&CellAddress(0, 0), ilit(1));
    env.set_cell(&CellAddress(0, 0), ilit(2));
    assert_eq!(env.len(), 1);
    assert!(env.get_cell(&CellAddress(1, 0)).is_none());
    assert_eq!(eval_in(&cell(0, 0), &env), Ok(Primitive::Integer(2)));
}

#[test]
fn apply_on_values() {
    let r = apply(OpKind::Subtract, &Primitive::Integer(2), &Some(Primitive::Integer(9)), &F32Unit);
    assert_eq!(r, Ok(Primitive::Integer(-7)));
}

#[test]
fn evaluatable_nodes() {
    let env = block_env();
    assert_eq!(Primitive::Integer(9).evaluate(&env, &F32Unit), Ok(Primitive::Integer(9)));
    assert_eq!(CellValue(1, 1).evaluate(&env, &F32Unit), Ok(Primitive::Integer(4)));
    assert_eq!(CellValue(5, 5).evaluate(&env, &F32Unit), Err(EvalError::CellNotFound(CellAddress(5, 5))));
    let op = Operation::binary(OpKind::Multiply, cell(0, 1), cell(1, 0));
    assert_eq!(op.evaluate(&env, &F32Unit), Ok(Primitive::Integer(6)));
    let s = Statistics::Max(CellAddress(0, 1), CellAddress(1, 0));
    assert_eq!(s.evaluate(&env, &F32Unit), Ok(Primitive::Integer(4)));
}

#[test]
fn power_of_unit_bases() {
    assert_eq!(eval(&bin(OpKind::Power, ilit(1), ilit(i32::MAX))), Ok(Primitive::Integer(1)));
    assert_eq!(eval(&bin(OpKind::Power, ilit(-1), ilit(i32::MAX))), Ok(Primitive::Integer(-1)));
    assert_eq!(eval(&bin(OpKind::Power, ilit(-1), ilit(1_000_000))), Ok(Primitive::Integer(1)));
    assert_eq!(eval(&bin(OpKind::Power, ilit(0), ilit(i32::MAX))), Ok(Primitive::Integer(0)));
}

#[test]
fn malformed_range_has_no_cells() {
    assert!(get_cells(&CellAddress(2, 1), &CellAddress(1, 0)).is_empty());
    assert!(get_cells(&CellAddress(0, 0), &CellAddress(1, 1)).is_empty());
}

#[test]
fn wrong_operand_count_is_a_mismatch() {
    let two_for_not = Operation { kind: OpKind::LogicalNot, first: Box::new(blit(true)), second: Some(Box::new(blit(false))) };
    assert_eq!(
        eval(&Expr::Op(two_for_not)),
        Err(mismatch(OperationType::Logical, ValueType::Boolean, Some(ValueType::Boolean)))
    );
    let one_for_and = Operation { kind: OpKind::BitwiseAnd, first: Box::new(ilit(5)), second: None };
    assert_eq!(eval(&Expr::Op(one_for_and)), Err(mismatch(OperationType::Bitwise, ValueType::Integer, None)));
}

#[test]
fn float_power_of_negatives() {
    assert_eq!(as_float(eval(&bin(OpKind::Power, flit(-2.0), flit(-1.0)))), -0.5);
}

#[test]
fn cast_round_trip() {
    let e = un(OpKind::FloatToInt, un(OpKind::IntToFloat, ilit(16_777_216)));
    assert_eq!(eval(&e), Ok(Primitive::Integer(16_777_216)));
}
