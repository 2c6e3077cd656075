use vstd::prelude::*;

use calamine::{DataType, Range};

use crate::axis::Axis;
use crate::cell::CellValue;
use crate::predicate::{CellTest, GroupTest};
use crate::reader::{
    find_cell_reader,
    gathered,
    has_hit,
    iterate_row_values_reader,
    range_cells,
    hit,
    first_hit,
    search_result,
};

verus! {

/// How a handle uses its workbook, fixed when the handle is made.
#[derive(PartialEq, Eq, Structural, Debug, Clone, Copy)]
pub enum Mode {
    Read,
    Write,
    Create,
}

impl Mode {
    pub open spec fn spec_label(self) -> Seq<char> {
        match self {
            Mode::Read => "Read"@,
            Mode::Write => "Write"@,
            Mode::Create => "Create"@,
        }
    }

    /// The mode's name.
    pub fn label(&self) -> (r: &'static str)
        ensures
            r@ == self.spec_label(),
    {
        match self {
            Mode::Read => "Read",
            Mode::Write => "Write",
            Mode::Create => "Create",
        }
    }
}

/// Why a handle could not be made.
#[derive(Debug, Clone, PartialEq)]
pub enum HandleError {
    /// The workbook could not be opened or parsed; the text says why.
    Open(String),
    /// A file already stands at the path that was to be created.
    AlreadyExists,
}

/// One worksheet of an opened workbook: its name and its cell range, or None
/// where the range could not be read.
pub struct Sheet {
    pub name: String,
    pub range: Option<Range<DataType>>,
}

/// What was found at a handle's path before the handle is made.
pub enum Found {
    /// A workbook was opened there, with these sheets in workbook order.
    Opened(Vec<Sheet>),
    /// Nothing could be opened there; the text says why.
    Unopened(String),
    /// A file stands there; its content was not read.
    Present,
}

enum Book {
    Reader(Vec<Sheet>),
    Writer(Vec<Sheet>),
    Creater,
}

/// A workbook together with the mode in which it was taken.
pub struct ExcelHandle {
    book: Book,
    path: String,
    mode: Mode,
}

/// The first sheet of `sheets` named `name`.
pub open spec fn lookup(sheets: Seq<Sheet>, name: Seq<char>) -> Option<Sheet>
    decreases sheets.len(),
{
    if sheets.len() == 0 {
        None
    } else if sheets[0].name@ == name {
        Some(sheets[0])
    } else {
        lookup(sheets.skip(1), name)
    }
}

/// The message of the open error given when a workbook was required at the
/// path but only a file's presence was learnt.
pub open spec fn unread_message() -> Seq<char> {
    "workbook at this path was not read"@
}

impl ExcelHandle {
    /// The mode chosen when the handle was made; no method changes it.
    pub closed spec fn mode_of(self) -> Mode {
        self.mode
    }

    /// The path the handle was made on.
    pub closed spec fn path_of(self) -> Seq<char> {
        self.path@
    }

    /// The sheets open to queries: those of a workbook taken in read mode,
    /// and none otherwise.
    pub closed spec fn readable(self) -> Seq<Sheet> {
        match self.book {
            Book::Reader(s) => s@,
            _ => Seq::empty(),
        }
    }

    /// The sheets the handle holds, in whatever mode.
    pub closed spec fn sheets_of(self) -> Seq<Sheet> {
        match self.book {
            Book::Reader(s) => s@,
            Book::Writer(s) => s@,
            Book::Creater => Seq::empty(),
        }
    }

    /// The handle's book agrees with its mode.
    pub closed spec fn wf(self) -> bool {
        match self.book {
            Book::Reader(_) => self.mode == Mode::Read,
            Book::Writer(_) => self.mode == Mode::Write,
            Book::Creater => self.mode == Mode::Create,
        }
    }

    /// The names of the readable sheets, in workbook order.
    pub open spec fn names(self) -> Seq<String> {
        self.readable().map_values(|s: Sheet| s.name)
    }

    /// The range a query on `name` reads, if any.
    pub open spec fn grid(self, name: Seq<char>) -> Option<Range<DataType>> {
        match lookup(self.readable(), name) {
            Some(s) => s.range,
            None => None,
        }
    }

    /// A search of sheet `name` over rows x cols finds a cell.
    pub open spec fn has_match<F: CellTest>(
        self,
        name: Seq<char>,
        rows: Seq<u32>,
        cols: Seq<u32>,
        test: F,
    ) -> bool {
        match self.grid(name) {
            Some(g) => has_hit(range_cells(g), rows, cols, test),
            None => false,
        }
    }

    /// `r` is what `find_cell` owes on sheet `name`.
    pub open spec fn find_result<F: CellTest>(
        self,
        name: Seq<char>,
        rows: Seq<u32>,
        cols: Seq<u32>,
        test: F,
        r: Option<(u32, u32)>,
    ) -> bool {
        match self.grid(name) {
            Some(g) => search_result(range_cells(g), rows, cols, test, r),
            None => r is None,
        }
    }

    /// Makes a handle on `file_path` in `mode` from what was found there.
    ///
    /// Read and Write need an opened workbook and fail with an open error
    /// otherwise. Create fails with `AlreadyExists` wherever something was
    /// found at the path, and otherwise gives a handle on a new, empty book.
    pub fn new(file_path: String, mode: Mode, found: Found) -> (r: Result<Self, HandleError>)
        ensures
            match r {
                Ok(h) => {
                    &&& h.wf()
                    &&& h.mode_of() == mode
                    &&& h.path_of() == file_path@
                    &&& mode == Mode::Read ==> h.readable() == h.sheets_of()
                    &&& mode != Mode::Read ==> h.readable().len() == 0
                },
                Err(_) => true,
            },
            mode == Mode::Create ==> match found {
                Found::Unopened(_) => r matches Ok(h) && h.sheets_of().len() == 0,
                _ => r == Err::<Self, HandleError>(HandleError::AlreadyExists),
            },
            mode != Mode::Create ==> match found {
                Found::Opened(s) => r matches Ok(h) && h.sheets_of() == s@,
                Found::Unopened(m) => r == Err::<Self, HandleError>(HandleError::Open(m)),
                Found::Present => r matches Err(HandleError::Open(m)) && m@ == unread_message(),
            },
    {
        match mode {
            Mode::Create => match found {
                Found::Unopened(_) => Ok(ExcelHandle { book: Book::Creater, path: file_path, mode }),
                _ => Err(HandleError::AlreadyExists),
            },
            _ => match found {
                Found::Opened(sheets) => {
                    let book = if mode == Mode::Read {
                        Book::Reader(sheets)
                    } else {
                        Book::Writer(sheets)
                    };
                    Ok(ExcelHandle { book, path: file_path, mode })
                },
                Found::Unopened(m) => Err(HandleError::Open(m)),
                Found::Present => Err(
                    HandleError::Open(String::from_str("workbook at this path was not read")),
                ),
            },
        }
    }

    /// The handle's mode.
    pub fn mode(&self) -> (m: Mode)
        ensures
            m == self.mode_of(),
    {
        self.mode
    }

    /// The path the handle was made on.
    pub fn path(&self) -> (p: &str)
        ensures
            p@ == self.path_of(),
    {
        self.path.as_str()
    }

    fn readable_sheets(&self) -> (r: Option<&Vec<Sheet>>)
        ensures
            match r {
                Some(s) => s@ == self.readable(),
                None => self.readable().len() == 0,
            },
    {
        match &self.book {
            Book::Reader(s) => Some(s),
            _ => None,
        }
    }

    /// The range of the first readable sheet named `name`, if it has one.
    fn sheet_range(&self, name: &str) -> (r: Option<&Range<DataType>>)
        ensures
            match r {
                Some(g) => self.grid(name@) == Some(*g),
                None => self.grid(name@) is None,
            },
    {
        let sheets = match self.readable_sheets() {
            Some(s) => s,
            None => {
                return None;
            },
        };
        let key = name.to_owned();
        let mut i: usize = 0;
        proof {
            assert(sheets@.skip(0) =~= sheets@);
        }
        while i < sheets.len()
            invariant
                sheets@ == self.readable(),
                key@ == name@,
                i <= sheets@.len(),
                lookup(sheets@, name@) == lookup(sheets@.skip(i as int), name@),
            decreases sheets@.len() - i,
        {
            proof {
                assert(sheets@.skip(i as int).skip(1) =~= sheets@.skip(i + 1));
                assert(sheets@.skip(i as int)[0] == sheets@[i as int]);
            }
            if sheets[i].name == key {
                return match &sheets[i].range {
                    Some(g) => Some(g),
                    None => None,
                };
            }
            i = i + 1;
        }
        None
    }

    /// The names of the readable sheets, in workbook order.
    pub fn get_sheetnames(&self) -> (r: Vec<String>)
        ensures
            r@ == self.names(),
    {
        let mut names: Vec<String> = Vec::new();
        match self.readable_sheets() {
            Some(sheets) => {
                let mut i: usize = 0;
                while i < sheets.len()
                    invariant
                        sheets@ == self.readable(),
                        i <= sheets@.len(),
                        names@ == sheets@.take(i as int).map_values(|s: Sheet| s.name),
                    decreases sheets@.len() - i,
                {
                    proof {
                        assert(sheets@.take(i + 1).map_values(|s: Sheet| s.name) =~= sheets@.take(
                            i as int,
                        ).map_values(|s: Sheet| s.name).push(sheets@[i as int].name));
                    }
                    names.push(sheets[i].name.clone());
                    i = i + 1;
                }
                proof {
                    assert(sheets@.take(sheets@.len() as int) =~= sheets@);
                }
            },
            None => {
                proof {
                    assert(self.names() =~= Seq::<String>::empty());
                }
            },
        }
        names
    }

    /// Searches sheet `sheetname` over rows x cols in row-major order for the
    /// first present cell that `test` accepts. An unknown or unreadable sheet
    /// gives None.
    pub fn find_cell<F: CellTest>(&self, sheetname: &str, rows: &Axis, cols: &Axis, test: &F) -> (r:
        Option<(u32, u32)>)
        requires
            rows.wf(),
            cols.wf(),
        ensures
            self.find_result(sheetname@, rows@, cols@, *test, r),
            r matches Some((row, col)) ==> self.grid(sheetname@) matches Some(g) && hit(
                range_cells(g),
                *test,
                row,
                col,
            ),
            rows@.len() == 0 || cols@.len() == 0 ==> r is None,
    {
        match self.sheet_range(sheetname) {
            Some(g) => find_cell_reader(g, rows, cols, test),
            None => None,
        }
    }

    /// The names of the readable sheets, in workbook order, on which
    /// `find_cell` with the same sequences and test finds a cell.
    pub fn find_sheets<F: CellTest>(&self, rows: &Axis, cols: &Axis, test: &F) -> (r: Vec<String>)
        requires
            rows.wf(),
            cols.wf(),
        ensures
            r@ == self.names().filter(|n: String| self.has_match(n@, rows@, cols@, *test)),
    {
        let ghost pred = |n: String| self.has_match(n@, rows@, cols@, *test);
        let names = self.get_sheetnames();
        let mut found: Vec<String> = Vec::new();
        let mut k: usize = 0;
        while k < names.len()
            invariant
                names@ == self.names(),
                rows.wf(),
                cols.wf(),
                k <= names@.len(),
                pred == (|n: String| self.has_match(n@, rows@, cols@, *test)),
                found@ == names@.take(k as int).filter(pred),
            decreases names@.len() - k,
        {
            let r = self.find_cell(names[k].as_str(), rows, cols, test);
            proof {
                lemma_search_found_iff_match(*self, names@[k as int]@, rows@, cols@, *test, r);
                reveal(Seq::filter);
                assert(names@.take(k + 1).drop_last() =~= names@.take(k as int));
            }
            if r.is_some() {
                found.push(names[k].clone());
            }
            k = k + 1;
        }
        proof {
            assert(names@.take(names@.len() as int) =~= names@);
        }
        found
    }

    /// Gathers, for each column of `cols` in turn, the values present in sheet
    /// `sheetname` along it at the rows of `rows`, and stops before the first
    /// group that `stop` holds of. An unknown or unreadable sheet gives no
    /// groups.
    pub fn iterate_row_values<G: GroupTest>(
        &self,
        sheetname: &str,
        rows: &Axis,
        cols: &Axis,
        stop: &G,
    ) -> (r: Vec<Vec<CellValue>>)
        requires
            rows.wf(),
            cols.wf(),
        ensures
            match self.grid(sheetname@) {
                Some(g) => gathered(
                    range_cells(g),
                    rows@,
                    cols@,
                    *stop,
                    r@.map_values(|v: Vec<CellValue>| v@),
                ),
                None => r@.len() == 0,
            },
            cols@.len() == 0 ==> r@.len() == 0,
            rows@.len() == 0 ==> forall|j: int| 0 <= j < r@.len() ==> (#[trigger] r@[j])@.len() == 0,
            rows@.len() == 0 && stop.stops(Seq::empty()) ==> r@.len() == 0,
    {
        match self.sheet_range(sheetname) {
            Some(g) => iterate_row_values_reader(g, rows, cols, stop),
            None => Vec::new(),
        }
    }

    fn is_writable(&self)
        requires
            self.mode_of() != Mode::Read,
    {
    }

    /// Writes to sheet `sheetname`; allowed only on a handle that is not in
    /// read mode.
    pub fn set_range_values(&self, sheetname: &str) -> (r: Result<(), HandleError>)
        requires
            self.mode_of() != Mode::Read,
        ensures
            r is Ok,
    {
        self.is_writable();
        Ok(())
    }
}

/// A search's result is present exactly when some position is a hit.
proof fn lemma_search_some_iff_hit<F: CellTest>(
    cells: Map<(u32, u32), CellValue>,
    rows: Seq<u32>,
    cols: Seq<u32>,
    test: F,
    r: Option<(u32, u32)>,
)
    requires
        search_result(cells, rows, cols, test, r),
    ensures
        r is Some <==> has_hit(cells, rows, cols, test),
{
    if let Some((row, col)) = r {
        let (i, j) = choose|i: int, j: int|
            #[trigger] first_hit(cells, rows, cols, test, i, j) && rows[i] == row && cols[j] == col;
        assert(hit(cells, test, rows[i], cols[j]));
    }
}

/// Whether `find_cell` finds a cell on sheet `name` is decided by `has_match`.
proof fn lemma_search_found_iff_match<F: CellTest>(
    h: ExcelHandle,
    name: Seq<char>,
    rows: Seq<u32>,
    cols: Seq<u32>,
    test: F,
    r: Option<(u32, u32)>,
)
    requires
        h.find_result(name, rows, cols, test, r),
    ensures
        r is Some <==> h.has_match(name, rows, cols, test),
{
    if let Some(g) = h.grid(name) {
        lemma_search_some_iff_hit(range_cells(g), rows, cols, test, r);
    }
}

/// `find_sheets` filters the sheet names by `find_cell`: whatever `find_cell`
/// gives on the `k`-th readable sheet name, that name is among the names that
/// `find_sheets` gives (with the same sequences and test) exactly when the
/// search found a cell. Names are kept in workbook order, as the filter keeps
/// them.
pub proof fn law_find_sheets_filters_by_find_cell<F: CellTest>(
    h: ExcelHandle,
    rows: Axis,
    cols: Axis,
    test: F,
    sheets: Seq<String>,
    k: int,
    r: Option<(u32, u32)>,
)
    requires
        sheets == h.names().filter(|n: String| h.has_match(n@, rows@, cols@, test)),
        0 <= k < h.names().len(),
        h.find_result(h.names()[k]@, rows@, cols@, test, r),
    ensures
        r is Some <==> sheets.contains(h.names()[k]),
{
    let pred = |n: String| h.has_match(n@, rows@, cols@, test);
    let names = h.names();
    lemma_search_found_iff_match(h, names[k]@, rows@, cols@, test, r);
    broadcast use vstd::seq_lib::group_filter_ensures;

    if sheets.contains(names[k]) {
        let i = choose|i: int| 0 <= i < sheets.len() && sheets[i] == names[k];
        assert(pred(sheets[i]));
    }
}

} // verus!
