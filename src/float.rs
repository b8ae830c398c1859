use vstd::prelude::*;

verus! {

/// Single-precision float arithmetic, supplied by the caller.
///
/// Floats travel through the library as IEEE-754 bit patterns, and every
/// computation on them goes through this trait. Each method's result is named by
/// a spec function of the same arguments: all the library assumes of an
/// implementation is that it computes a function of its arguments, so that the
/// contracts can say exactly how results are combined. What those functions are
/// on given values is left to the implementation; an implementation outside
/// verified code defines each `_spec` method as the value its exec method returns.
pub trait FloatUnit {
    spec fn from_int_spec(&self, v: i32) -> u32;

    /// The float nearest to an integer.
    fn from_int(&self, v: i32) -> (r: u32)
        ensures
            r == self.from_int_spec(v),
    ;

    spec fn from_count_spec(&self, n: usize) -> u32;

    /// The float nearest to a count of elements.
    fn from_count(&self, n: usize) -> (r: u32)
        ensures
            r == self.from_count_spec(n),
    ;

    spec fn to_int_spec(&self, x: u32) -> i32;

    /// Truncation toward zero.
    fn to_int(&self, x: u32) -> (r: i32)
        ensures
            r == self.to_int_spec(x),
    ;

    spec fn plus_spec(&self, x: u32, y: u32) -> u32;

    /// `x + y`.
    fn plus(&self, x: u32, y: u32) -> (r: u32)
        ensures
            r == self.plus_spec(x, y),
    ;

    spec fn minus_spec(&self, x: u32, y: u32) -> u32;

    /// `x - y`.
    fn minus(&self, x: u32, y: u32) -> (r: u32)
        ensures
            r == self.minus_spec(x, y),
    ;

    spec fn times_spec(&self, x: u32, y: u32) -> u32;

    /// `x * y`.
    fn times(&self, x: u32, y: u32) -> (r: u32)
        ensures
            r == self.times_spec(x, y),
    ;

    spec fn divide_spec(&self, x: u32, y: u32) -> u32;

    /// `x / y`.
    fn divide(&self, x: u32, y: u32) -> (r: u32)
        ensures
            r == self.divide_spec(x, y),
    ;

    spec fn remainder_spec(&self, x: u32, y: u32) -> u32;

    /// `x % y`, with the sign of `x`.
    fn remainder(&self, x: u32, y: u32) -> (r: u32)
        ensures
            r == self.remainder_spec(x, y),
    ;

    spec fn power_spec(&self, x: u32, y: u32) -> u32;

    /// Real exponentiation `x` to the power `y`.
    fn power(&self, x: u32, y: u32) -> (r: u32)
        ensures
            r == self.power_spec(x, y),
    ;

    spec fn near_zero_spec(&self, x: u32) -> bool;

    /// Whether `|x|` is below single-precision machine epsilon.
    fn near_zero(&self, x: u32) -> (r: bool)
        ensures
            r == self.near_zero_spec(x),
    ;

    spec fn approx_eq_spec(&self, x: u32, y: u32) -> bool;

    /// Whether `|x - y|` is below single-precision machine epsilon.
    fn approx_eq(&self, x: u32, y: u32) -> (r: bool)
        ensures
            r == self.approx_eq_spec(x, y),
    ;

    spec fn less_spec(&self, x: u32, y: u32) -> bool;

    /// `x < y`.
    fn less(&self, x: u32, y: u32) -> (r: bool)
        ensures
            r == self.less_spec(x, y),
    ;

    spec fn greater_spec(&self, x: u32, y: u32) -> bool;

    /// `x > y`.
    fn greater(&self, x: u32, y: u32) -> (r: bool)
        ensures
            r == self.greater_spec(x, y),
    ;

    spec fn render_spec(&self, x: u32) -> String;

    /// The float's literal text.
    fn render(&self, x: u32) -> (r: String)
        ensures
            r@ == self.render_spec(x)@,
    ;
}

} // verus!
