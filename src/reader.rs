use vstd::prelude::*;

use calamine::{DataType, Range};

use crate::axis::Axis;
use crate::cell::CellValue;
use crate::predicate::{CellTest, GroupTest};

verus! {

#[verifier::external_type_specification]
#[verifier::external_body]
#[verifier::reject_recursive_types(T)]
pub struct ExRange<T>(Range<T>);

#[verifier::external_type_specification]
#[verifier::external_body]
pub struct ExDataType(DataType);

/// The cells that a worksheet range holds, by absolute (row, column).
pub uninterp spec fn range_cells(r: Range<DataType>) -> Map<(u32, u32), CellValue>;

/// The cell of `cells` at (row, col), if one is present.
pub open spec fn cell_of(cells: Map<(u32, u32), CellValue>, row: u32, col: u32) -> Option<
    CellValue,
> {
    if cells.contains_key((row, col)) {
        Some(cells[(row, col)])
    } else {
        None
    }
}

/// Relies on calamine::Range::get_value: the value stored at an absolute
/// (row, column), or None outside the range; the value is copied out variant
/// for variant, floats as their bit patterns and errors as their text.
#[verifier::external_body]
fn cell_at(r: &Range<DataType>, row: u32, col: u32) -> (v: Option<CellValue>)
    ensures
        v == cell_of(range_cells(*r), row, col),
{
    match r.get_value((row, col)) {
        None => None,
        Some(DataType::Int(i)) => Some(CellValue::Int(*i)),
        Some(DataType::Float(f)) => Some(CellValue::Float(f.to_bits())),
        Some(DataType::String(s)) => Some(CellValue::Text(s.clone())),
        Some(DataType::Bool(b)) => Some(CellValue::Bool(*b)),
        Some(DataType::DateTime(f)) => Some(CellValue::DateTime(f.to_bits())),
        Some(DataType::Error(e)) => Some(CellValue::Error(e.to_string())),
        Some(DataType::Empty) => Some(CellValue::Empty),
    }
}

/// A cell is present at (row, col) and `test` accepts it.
pub open spec fn hit<F: CellTest>(
    cells: Map<(u32, u32), CellValue>,
    test: F,
    row: u32,
    col: u32,
) -> bool {
    cells.contains_key((row, col)) && test.accepts(cells[(row, col)])
}

/// Position (a, b) of the row and column sequences comes before (i, j) in
/// row-major order.
pub open spec fn before(a: int, b: int, i: int, j: int) -> bool {
    a < i || (a == i && b < j)
}

/// (rows[i], cols[j]) is a hit and no position before it in row-major order is.
pub open spec fn first_hit<F: CellTest>(
    cells: Map<(u32, u32), CellValue>,
    rows: Seq<u32>,
    cols: Seq<u32>,
    test: F,
    i: int,
    j: int,
) -> bool {
    &&& 0 <= i < rows.len()
    &&& 0 <= j < cols.len()
    &&& hit(cells, test, rows[i], cols[j])
    &&& forall|a: int, b: int|
        0 <= a < rows.len() && 0 <= b < cols.len() && before(a, b, i, j) ==> !#[trigger] hit(
            cells,
            test,
            rows[a],
            cols[b],
        )
}

/// Some position of rows x cols is a hit.
pub open spec fn has_hit<F: CellTest>(
    cells: Map<(u32, u32), CellValue>,
    rows: Seq<u32>,
    cols: Seq<u32>,
    test: F,
) -> bool {
    exists|a: int, b: int|
        0 <= a < rows.len() && 0 <= b < cols.len() && #[trigger] hit(cells, test, rows[a], cols[b])
}

/// `r` is what a row-major search of rows x cols must give: the coordinate of
/// the first hit, or None when there is none.
pub open spec fn search_result<F: CellTest>(
    cells: Map<(u32, u32), CellValue>,
    rows: Seq<u32>,
    cols: Seq<u32>,
    test: F,
    r: Option<(u32, u32)>,
) -> bool {
    match r {
        Some((row, col)) => exists|i: int, j: int|
            #[trigger] first_hit(cells, rows, cols, test, i, j) && rows[i] == row && cols[j] == col,
        None => !has_hit(cells, rows, cols, test),
    }
}

/// The values present along column `col` at the given rows, in row order.
pub open spec fn column_values(
    cells: Map<(u32, u32), CellValue>,
    rows: Seq<u32>,
    col: u32,
) -> Seq<CellValue>
    decreases rows.len(),
{
    if rows.len() == 0 {
        Seq::empty()
    } else {
        let prev = column_values(cells, rows.drop_last(), col);
        if cells.contains_key((rows.last(), col)) {
            prev.push(cells[(rows.last(), col)])
        } else {
            prev
        }
    }
}

/// `groups` is what a column-major gathering must give: one group per column
/// in column order, up to and excluding the first group on which `stop` holds.
pub open spec fn gathered<G: GroupTest>(
    cells: Map<(u32, u32), CellValue>,
    rows: Seq<u32>,
    cols: Seq<u32>,
    stop: G,
    groups: Seq<Seq<CellValue>>,
) -> bool {
    &&& groups.len() <= cols.len()
    &&& forall|j: int|
        0 <= j < groups.len() ==> #[trigger] groups[j] == column_values(cells, rows, cols[j])
            && !stop.stops(groups[j])
    &&& groups.len() < cols.len() ==> stop.stops(column_values(cells, rows, cols[groups.len() as int]))
}

/// Searches rows x cols of `range` in row-major order (each row in turn, and
/// within it each column) for the first present cell that `test` accepts.
pub fn find_cell_reader<F: CellTest>(range: &Range<DataType>, rows: &Axis, cols: &Axis, test: &F) -> (r:
    Option<(u32, u32)>)
    requires
        rows.wf(),
        cols.wf(),
    ensures
        search_result(range_cells(*range), rows@, cols@, *test, r),
        r matches Some((row, col)) ==> hit(range_cells(*range), *test, row, col),
        rows@.len() == 0 || cols@.len() == 0 ==> r is None,
{
    let ghost cells = range_cells(*range);
    let nr = rows.len();
    let nc = cols.len();
    let mut i: u32 = 0;
    while i < nr
        invariant
            rows.wf(),
            cols.wf(),
            cells == range_cells(*range),
            nr == rows@.len(),
            nc == cols@.len(),
            i <= nr,
            forall|a: int, b: int|
                0 <= a < i && 0 <= b < nc ==> !#[trigger] hit(cells, *test, rows@[a], cols@[b]),
        decreases nr - i,
    {
        let row = rows.at(i);
        let mut j: u32 = 0;
        while j < nc
            invariant
                rows.wf(),
                cols.wf(),
                cells == range_cells(*range),
                nr == rows@.len(),
                nc == cols@.len(),
                i < nr,
                j <= nc,
                row == rows@[i as int],
                forall|a: int, b: int|
                    0 <= a < i && 0 <= b < nc ==> !#[trigger] hit(cells, *test, rows@[a], cols@[b]),
                forall|b: int| 0 <= b < j ==> !#[trigger] hit(cells, *test, row, cols@[b]),
            decreases nc - j,
        {
            let col = cols.at(j);
            match cell_at(range, row, col) {
                Some(v) => {
                    if test.test(&v) {
                        proof {
                            assert(first_hit(cells, rows@, cols@, *test, i as int, j as int));
                            assert(hit(cells, *test, row, col));
                        }
                        return Some((row, col));
                    }
                },
                None => {},
            }
            j = j + 1;
        }
        i = i + 1;
    }
    None
}

/// Gathers, for each column of `cols` in turn, the values present along it at
/// the rows of `rows`; stops before the first group that `stop` holds of.
pub fn iterate_row_values_reader<G: GroupTest>(
    range: &Range<DataType>,
    rows: &Axis,
    cols: &Axis,
    stop: &G,
) -> (r: Vec<Vec<CellValue>>)
    requires
        rows.wf(),
        cols.wf(),
    ensures
        gathered(range_cells(*range), rows@, cols@, *stop, r@.map_values(|g: Vec<CellValue>| g@)),
        cols@.len() == 0 ==> r@.len() == 0,
        rows@.len() == 0 ==> forall|j: int| 0 <= j < r@.len() ==> (#[trigger] r@[j])@.len() == 0,
        rows@.len() == 0 && stop.stops(Seq::empty()) ==> r@.len() == 0,
{
    let ghost cells = range_cells(*range);
    let nr = rows.len();
    let nc = cols.len();
    let mut values: Vec<Vec<CellValue>> = Vec::new();
    let mut j: u32 = 0;
    while j < nc
        invariant
            rows.wf(),
            cols.wf(),
            cells == range_cells(*range),
            nr == rows@.len(),
            nc == cols@.len(),
            j <= nc,
            values@.len() == j,
            forall|k: int|
                0 <= k < j ==> #[trigger] values@[k]@ == column_values(cells, rows@, cols@[k])
                    && !stop.stops(values@[k]@),
            nr == 0 && stop.stops(Seq::empty()) ==> j == 0,
        decreases nc - j,
    {
        let col = cols.at(j);
        let mut group: Vec<CellValue> = Vec::new();
        let mut i: u32 = 0;
        while i < nr
            invariant
                rows.wf(),
                cols.wf(),
                cells == range_cells(*range),
                nr == rows@.len(),
                i <= nr,
                group@ == column_values(cells, rows@.take(i as int), col),
            decreases nr - i,
        {
            let row = rows.at(i);
            proof {
                assert(rows@.take(i + 1).drop_last() =~= rows@.take(i as int));
            }
            match cell_at(range, row, col) {
                Some(v) => group.push(v),
                None => {},
            }
            i = i + 1;
        }
        proof {
            assert(rows@.take(nr as int) =~= rows@);
            if nr == 0 {
                assert(group@ =~= Seq::<CellValue>::empty());
            }
        }
        if stop.test(&group) {
            proof {
                assert(values@.map_values(|g: Vec<CellValue>| g@).len() == j);
            }
            return values;
        }
        values.push(group);
        j = j + 1;
    }
    values
}

} // verus!
