use vstd::prelude::*;

use crate::cell::CellValue;

verus! {

/// A condition on one cell value, decided by `test` exactly as `accepts` says.
pub trait CellTest {
    spec fn accepts(&self, v: CellValue) -> bool;

    fn test(&self, v: &CellValue) -> (r: bool)
        ensures
            r == self.accepts(*v),
    ;
}

/// A condition on the values gathered along one column, decided by `test`
/// exactly as `stops` says.
pub trait GroupTest {
    spec fn stops(&self, g: Seq<CellValue>) -> bool;

    fn test(&self, g: &Vec<CellValue>) -> (r: bool)
        ensures
            r == self.stops(g@),
    ;
}

/// Accepts text cells whose text equals the held string.
pub struct TextEquals {
    pub text: String,
}

impl CellTest for TextEquals {
    open spec fn accepts(&self, v: CellValue) -> bool {
        v.spec_is_text(self.text@)
    }

    fn test(&self, v: &CellValue) -> (r: bool) {
        v.is_string() && v.eq_str(self.text.as_str())
    }
}

/// Accepts text cells of any content.
pub struct IsText;

impl CellTest for IsText {
    open spec fn accepts(&self, v: CellValue) -> bool {
        v is Text
    }

    fn test(&self, v: &CellValue) -> (r: bool) {
        v.is_string()
    }
}

/// Accepts every present cell.
pub struct AnyCell;

impl CellTest for AnyCell {
    open spec fn accepts(&self, v: CellValue) -> bool {
        true
    }

    fn test(&self, v: &CellValue) -> (r: bool) {
        true
    }
}

/// True of a group in which every value is an empty cell (so also of a group
/// with no values at all).
pub open spec fn all_empty(g: Seq<CellValue>) -> bool {
    forall|i: int| 0 <= i < g.len() ==> (#[trigger] g[i]) is Empty
}

/// Stops at a group whose values are all empty cells.
pub struct AllEmpty;

impl GroupTest for AllEmpty {
    open spec fn stops(&self, g: Seq<CellValue>) -> bool {
        all_empty(g)
    }

    fn test(&self, g: &Vec<CellValue>) -> (r: bool) {
        let mut i: usize = 0;
        while i < g.len()
            invariant
                0 <= i <= g@.len(),
                forall|j: int| 0 <= j < i ==> (#[trigger] g@[j]) is Empty,
            decreases g@.len() - i,
        {
            if !g[i].is_empty() {
                return false;
            }
            i = i + 1;
        }
        true
    }
}

/// Never stops: every group is gathered.
pub struct NeverStop;

impl GroupTest for NeverStop {
    open spec fn stops(&self, g: Seq<CellValue>) -> bool {
        false
    }

    fn test(&self, g: &Vec<CellValue>) -> (r: bool) {
        false
    }
}

} // verus!
