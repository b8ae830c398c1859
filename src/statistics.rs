use vstd::prelude::*;

use crate::address::CellAddress;
use crate::float::FloatUnit;
use crate::operation::{promote, promote_spec};
use crate::value::Primitive;

verus! {

/// An aggregate over the rectangle spanned by a top-left and a bottom-right address.
#[derive(Clone, Copy, PartialEq, Eq, Structural, Debug)]
pub enum Statistics {
    Max(CellAddress, CellAddress),
    Min(CellAddress, CellAddress),
    Mean(CellAddress, CellAddress),
    Sum(CellAddress, CellAddress),
}

impl Statistics {
    pub open spec fn corners_spec(self) -> (CellAddress, CellAddress) {
        match self {
            Statistics::Max(a, b) => (a, b),
            Statistics::Min(a, b) => (a, b),
            Statistics::Mean(a, b) => (a, b),
            Statistics::Sum(a, b) => (a, b),
        }
    }

    /// The top-left and bottom-right addresses.
    pub fn corners(&self) -> (r: (CellAddress, CellAddress))
        ensures
            r == self.corners_spec(),
    {
        match self {
            Statistics::Max(a, b) => (*a, *b),
            Statistics::Min(a, b) => (*a, *b),
            Statistics::Mean(a, b) => (*a, *b),
            Statistics::Sum(a, b) => (*a, *b),
        }
    }
}

/// A range is well formed when the top-left column is not right of the
/// bottom-right one and the top-left row is not below the bottom-right one
/// (the top row is the numerically larger one).
pub open spec fn range_valid(top_left: CellAddress, bot_right: CellAddress) -> bool {
    top_left.0 <= bot_right.0 && top_left.1 >= bot_right.1
}

pub open spec fn range_width(top_left: CellAddress, bot_right: CellAddress) -> int {
    bot_right.0 - top_left.0 + 1
}

pub open spec fn range_height(top_left: CellAddress, bot_right: CellAddress) -> int {
    top_left.1 - bot_right.1 + 1
}

/// The `k`-th address of a range: rows from the bottom-right row up to the
/// top-left row, and within a row, columns from left to right.
pub open spec fn range_cell(top_left: CellAddress, bot_right: CellAddress, k: int) -> CellAddress {
    let w = range_width(top_left, bot_right);
    CellAddress((top_left.0 + k % w) as i32, (bot_right.1 + k / w) as i32)
}

pub open spec fn range_cells(top_left: CellAddress, bot_right: CellAddress) -> Seq<CellAddress> {
    Seq::new(
        (range_width(top_left, bot_right) * range_height(top_left, bot_right)) as nat,
        |k: int| range_cell(top_left, bot_right, k),
    )
}

/// Every address of a range, in row-major order; none for a malformed range.
pub fn get_cells(top_left: &CellAddress, bot_right: &CellAddress) -> (r: Vec<CellAddress>)
    ensures
        r@ == (if range_valid(*top_left, *bot_right) {
            range_cells(*top_left, *bot_right)
        } else {
            Seq::<CellAddress>::empty()
        }),
{
    if top_left.0 > bot_right.0 || top_left.1 < bot_right.1 {
        return Vec::new();
    }
    let ghost w = range_width(*top_left, *bot_right);
    let mut cells: Vec<CellAddress> = Vec::new();
    let mut y: i64 = bot_right.1 as i64;
    while y <= top_left.1 as i64
        invariant
            range_valid(*top_left, *bot_right),
            w == range_width(*top_left, *bot_right),
            bot_right.1 <= y <= top_left.1 + 1,
            cells@.len() == (y - bot_right.1) * w,
            forall|k: int|
                0 <= k < cells@.len() ==> #[trigger] cells@[k] == range_cell(
                    *top_left,
                    *bot_right,
                    k,
                ),
        decreases top_left.1 + 1 - y,
    {
        let mut x: i64 = top_left.0 as i64;
        while x <= bot_right.0 as i64
            invariant
                range_valid(*top_left, *bot_right),
                w == range_width(*top_left, *bot_right),
                bot_right.1 <= y <= top_left.1,
                top_left.0 <= x <= bot_right.0 + 1,
                cells@.len() == (y - bot_right.1) * w + (x - top_left.0),
                forall|k: int|
                    0 <= k < cells@.len() ==> #[trigger] cells@[k] == range_cell(
                        *top_left,
                        *bot_right,
                        k,
                    ),
            decreases bot_right.0 + 1 - x,
        {
            let ghost k = cells@.len() as int;
            proof {
                vstd::arithmetic::div_mod::lemma_fundamental_div_mod_converse(
                    k,
                    w,
                    y - bot_right.1,
                    x - top_left.0,
                );
            }
            cells.push(CellAddress(x as i32, y as i32));
            x = x + 1;
        }
        assert(cells@.len() == (y + 1 - bot_right.1) * w) by (nonlinear_arith)
            requires
                cells@.len() == (y - bot_right.1) * w + w,
        ;
        y = y + 1;
    }
    assert(cells@.len() == w * range_height(*top_left, *bot_right)) by (nonlinear_arith)
        requires
            cells@.len() == (y - bot_right.1) * w,
            y - bot_right.1 == range_height(*top_left, *bot_right),
    ;
    assert(cells@ =~= range_cells(*top_left, *bot_right));
    cells
}

/// The sum of the first `n` values, each widened to a float, added in order
/// from zero.
pub open spec fn sum_spec<F: FloatUnit>(fpu: &F, vals: Seq<Primitive>, n: nat) -> u32
    decreases n,
{
    if n == 0 || n > vals.len() {
        0
    } else {
        fpu.plus_spec(sum_spec(fpu, vals, (n - 1) as nat), promote_spec(fpu, vals[n - 1]))
    }
}

/// The sum of the values divided by their number.
pub open spec fn mean_spec<F: FloatUnit>(fpu: &F, vals: Seq<Primitive>) -> u32 {
    fpu.divide_spec(sum_spec(fpu, vals, vals.len()), fpu.from_count_spec(vals.len() as usize))
}

/// Whether `candidate` replaces `best` in a scan for the greatest (or least)
/// value: strictly greater (or less), compared as floats.
pub open spec fn beats<F: FloatUnit>(fpu: &F, candidate: Primitive, best: Primitive, greatest: bool) -> bool {
    if greatest {
        fpu.greater_spec(promote_spec(fpu, candidate), promote_spec(fpu, best))
    } else {
        fpu.less_spec(promote_spec(fpu, candidate), promote_spec(fpu, best))
    }
}

/// The value a scan of the first `n` values keeps: it starts from the smallest
/// integer (for the greatest) or the largest (for the least), and takes each
/// value that beats the one kept so far, as it stands, without widening it.
pub open spec fn extreme_spec<F: FloatUnit>(fpu: &F, vals: Seq<Primitive>, n: nat, greatest: bool) -> Primitive
    decreases n,
{
    if n == 0 || n > vals.len() {
        Primitive::Integer(if greatest { i32::MIN } else { i32::MAX })
    } else {
        let best = extreme_spec(fpu, vals, (n - 1) as nat, greatest);
        if beats(fpu, vals[n - 1], best, greatest) {
            vals[n - 1]
        } else {
            best
        }
    }
}

/// The sum of the values, each widened to a float, added in order from zero.
pub(crate) fn sum<F: FloatUnit>(vals: &Vec<Primitive>, fpu: &F) -> (r: u32)
    ensures
        r == sum_spec(fpu, vals@, vals@.len()),
{
    let mut total: u32 = 0;
    let mut i: usize = 0;
    while i < vals.len()
        invariant
            i <= vals@.len(),
            total == sum_spec(fpu, vals@, i as nat),
        decreases vals@.len() - i,
    {
        total = fpu.plus(total, promote(&vals[i], fpu));
        i = i + 1;
    }
    total
}

/// The sum divided by the number of values.
pub(crate) fn mean<F: FloatUnit>(vals: &Vec<Primitive>, fpu: &F) -> (r: u32)
    ensures
        r == mean_spec(fpu, vals@),
{
    let total = sum(vals, fpu);
    fpu.divide(total, fpu.from_count(vals.len()))
}

/// The first value greater, compared as floats, than every value before it and
/// than the smallest integer; that integer itself when there is none.
pub(crate) fn max<F: FloatUnit>(vals: &Vec<Primitive>, fpu: &F) -> (r: Primitive)
    ensures
        r == extreme_spec(fpu, vals@, vals@.len(), true),
{
    extreme(vals, fpu, true)
}

/// The first value less, compared as floats, than every value before it and than
/// the largest integer; that integer itself when there is none.
pub(crate) fn min<F: FloatUnit>(vals: &Vec<Primitive>, fpu: &F) -> (r: Primitive)
    ensures
        r == extreme_spec(fpu, vals@, vals@.len(), false),
{
    extreme(vals, fpu, false)
}

fn extreme<F: FloatUnit>(vals: &Vec<Primitive>, fpu: &F, greatest: bool) -> (r: Primitive)
    ensures
        r == extreme_spec(fpu, vals@, vals@.len(), greatest),
{
    let mut best = Primitive::Integer(if greatest { i32::MIN } else { i32::MAX });
    let mut i: usize = 0;
    while i < vals.len()
        invariant
            i <= vals@.len(),
            best == extreme_spec(fpu, vals@, i as nat, greatest),
        decreases vals@.len() - i,
    {
        let candidate = promote(&vals[i], fpu);
        let current = promote(&best, fpu);
        let better = if greatest {
            fpu.greater(candidate, current)
        } else {
            fpu.less(candidate, current)
        };
        if better {
            best = vals[i].duplicate();
        }
        i = i + 1;
    }
    best
}

} // verus!
