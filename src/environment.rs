use vstd::prelude::*;

use crate::address::CellAddress;
use crate::expr::Expr;

verus! {

/// The grid: at most one expression bound to each cell address.
pub struct Environment {
    entries: Vec<(CellAddress, Expr)>,
    cells: Ghost<Map<CellAddress, Expr>>,
}

impl View for Environment {
    type V = Map<CellAddress, Expr>;

    closed spec fn view(&self) -> Map<CellAddress, Expr> {
        self.cells@
    }
}

impl Environment {
    pub closed spec fn wf(&self) -> bool {
        &&& self.cells@.dom().finite()
        &&& self.cells@.dom().len() == self.entries@.len()
        &&& forall|i: int|
            0 <= i < self.entries@.len() ==> #[trigger] self.cells@.contains_key(
                self.entries@[i].0,
            ) && self.cells@[self.entries@[i].0] == self.entries@[i].1
        &&& forall|k: CellAddress| #[trigger]
            self.cells@.contains_key(k) ==> exists|i: int|
                0 <= i < self.entries@.len() && #[trigger] self.entries@[i].0 == k
        &&& forall|i: int, j: int|
            0 <= i < j < self.entries@.len() ==> #[trigger] self.entries@[i].0
                != #[trigger] self.entries@[j].0
    }

    /// An empty grid.
    pub fn init() -> (r: Environment)
        ensures
            r.wf(),
            r@ == Map::<CellAddress, Expr>::empty(),
    {
        Environment { entries: Vec::new(), cells: Ghost(Map::empty()) }
    }

    /// The number of bound cells.
    pub fn len(&self) -> (r: usize)
        requires
            self.wf(),
        ensures
            r == self@.dom().len(),
    {
        self.entries.len()
    }

    fn position(&self, adr: &CellAddress) -> (r: Option<usize>)
        requires
            self.wf(),
        ensures
            match r {
                Some(i) => i < self.entries@.len() && self.entries@[i as int].0 == *adr,
                None => !self@.contains_key(*adr),
            },
    {
        let mut i: usize = 0;
        while i < self.entries.len()
            invariant
                self.wf(),
                i <= self.entries@.len(),
                forall|j: int| 0 <= j < i ==> self.entries@[j].0 != *adr,
            decreases self.entries@.len() - i,
        {
            if self.entries[i].0 == *adr {
                return Some(i);
            }
            i = i + 1;
        }
        None
    }

    /// Binds `val` at `adr`, replacing any earlier binding.
    pub fn set_cell(&mut self, adr: &CellAddress, val: Expr)
        requires
            old(self).wf(),
        ensures
            final(self).wf(),
            final(self)@ == old(self)@.insert(*adr, val),
    {
        let ghost new_cells = self.cells@.insert(*adr, val);
        let ghost old_entries = self.entries@;
        let ghost idx: int;
        match self.position(adr) {
            Some(i) => {
                proof {
                    assert(new_cells.dom() =~= self.cells@.dom());
                    idx = i as int;
                }
                self.entries.set(i, (*adr, val));
            },
            None => {
                proof {
                    idx = old_entries.len() as int;
                }
                self.entries.push((*adr, val));
            },
        }
        self.cells = Ghost(new_cells);
        assert forall|k: CellAddress| #[trigger] self.cells@.contains_key(k) implies exists|i: int|
            0 <= i < self.entries@.len() && #[trigger] self.entries@[i].0 == k by {
            if k == *adr {
                assert(self.entries@[idx].0 == k);
            } else {
                let j = choose|j: int| 0 <= j < old_entries.len() && old_entries[j].0 == k;
                assert(self.entries@[j].0 == k);
            }
        }
    }

    /// The expression bound at `adr`, if any.
    pub fn get_cell(&self, adr: &CellAddress) -> (r: Option<&Expr>)
        requires
            self.wf(),
        ensures
            r is Some <==> self@.contains_key(*adr),
            r is Some ==> *r->Some_0 == self@[*adr],
    {
        match self.position(adr) {
            Some(i) => {
                proof {
                    assert(self.cells@.contains_key(self.entries@[i as int].0));
                }
                Some(&self.entries[i].1)
            },
            None => None,
        }
    }
}

} // verus!
