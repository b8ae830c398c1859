use vstd::prelude::*;

verus! {

/// Address of a cell: column, then row.
#[derive(Clone, Copy, PartialEq, Eq, Structural, Hash, Debug)]
pub struct CellAddress(pub i32, pub i32);

/// A reference to the value bound at a cell: column, then row.
#[derive(Clone, Copy, PartialEq, Eq, Structural, Debug)]
pub struct CellValue(pub i32, pub i32);

impl CellValue {
    pub open spec fn address_spec(self) -> CellAddress {
        CellAddress(self.0, self.1)
    }

    pub fn address(&self) -> (r: CellAddress)
        ensures
            r == self.address_spec(),
    {
        CellAddress(self.0, self.1)
    }
}

} // verus!
