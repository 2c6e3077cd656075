use calamine::{CellErrorType, DataType, Range};
use excelhandler::axis::Axis;
use excelhandler::cell::CellValue;
use excelhandler::handle::{ExcelHandle, Found, HandleError, Mode, Sheet};
use excelhandler::predicate::{AllEmpty, AnyCell, CellTest, GroupTest, IsText, NeverStop, TextEquals};

fn foo_range() -> Range<DataType> {
    let mut r: Range<DataType> = Range::new((0, 0), (9, 9));
    r.set_value((3, 7), DataType::String("foo".to_string()));
    r.set_value((2, 5), DataType::Int(42));
    r.set_value((6, 5), DataType::String("bar".to_string()));
    r
}

fn sheet(name: &str, range: Option<Range<DataType>>) -> Sheet {
    Sheet { name: name.to_string(), range }
}

fn reader(sheets: Vec<Sheet>) -> ExcelHandle {
    ExcelHandle::new("book.xlsx".to_string(), Mode::Read, Found::Opened(sheets)).unwrap()
}

fn foo() -> TextEquals {
    TextEquals { text: "foo".to_string() }
}

#[test]
fn find_cell_locates_text() {
    let h = reader(vec![sheet("Sheet1", Some(foo_range()))]);
    let r = h.find_cell("Sheet1", &Axis::span(0, 10), &Axis::span(1, 10), &foo());
    assert_eq!(r, Some((3, 7)));
}

#[test]
fn find_cell_misses_excluded_column() {
    let h = reader(vec![sheet("Sheet1", Some(foo_range()))]);
    let r = h.find_cell("Sheet1", &Axis::span(0, 10), &Axis::span(1, 7), &foo());
    assert_eq!(r, None);
}

#[test]
fn find_cell_gives_first_in_row_major_order() {
    let mut g: Range<DataType> = Range::new((0, 0), (9, 9));
    g.set_value((2, 8), DataType::String("foo".to_string()));
    g.set_value((5, 1), DataType::String("foo".to_string()));
    let h = reader(vec![sheet("S", Some(g))]);
    let r = h.find_cell("S", &Axis::span(0, 10), &Axis::span(0, 10), &foo());
    assert_eq!(r, Some((2, 8)));
}

#[test]
fn find_cell_follows_sequence_order() {
    let mut g: Range<DataType> = Range::new((0, 0), (9, 9));
    g.set_value((1, 1), DataType::String("foo".to_string()));
    g.set_value((5, 1), DataType::String("foo".to_string()));
    let h = reader(vec![sheet("S", Some(g))]);
    let r = h.find_cell("S", &Axis::stepped(3, 10, 2), &Axis::span(0, 3), &foo());
    assert_eq!(r, Some((5, 1)));
}

#[test]
fn find_cell_result_is_accepted() {
    let h = reader(vec![sheet("Sheet1", Some(foo_range()))]);
    let r = h.find_cell("Sheet1", &Axis::span(0, 10), &Axis::span(0, 10), &IsText);
    assert_eq!(r, Some((3, 7)));
    let r = h.find_cell("Sheet1", &Axis::span(4, 10), &Axis::span(0, 10), &IsText);
    assert_eq!(r, Some((6, 5)));
}

#[test]
fn find_cell_skips_cells_outside_range() {
    let h = reader(vec![sheet("Sheet1", Some(foo_range()))]);
    let r = h.find_cell("Sheet1", &Axis::span(10, 20), &Axis::span(0, 20), &AnyCell);
    assert_eq!(r, None);
}

#[test]
fn find_cell_unknown_sheet_is_none() {
    let h = reader(vec![sheet("Sheet1", Some(foo_range()))]);
    assert_eq!(h.find_cell("Nope", &Axis::span(0, 10), &Axis::span(0, 10), &foo()), None);
    let h = reader(vec![sheet("Broken", None)]);
    assert_eq!(h.find_cell("Broken", &Axis::span(0, 10), &Axis::span(0, 10), &AnyCell), None);
}

#[test]
fn empty_sequences_give_nothing() {
    let h = reader(vec![sheet("Sheet1", Some(foo_range()))]);
    assert_eq!(h.find_cell("Sheet1", &Axis::span(5, 5), &Axis::span(0, 10), &AnyCell), None);
    assert_eq!(h.find_cell("Sheet1", &Axis::span(0, 10), &Axis::span(7, 3), &AnyCell), None);
    assert!(h.iterate_row_values("Sheet1", &Axis::span(0, 10), &Axis::span(4, 4), &NeverStop).is_empty());
    let groups = h.iterate_row_values("Sheet1", &Axis::span(0, 0), &Axis::span(0, 2), &NeverStop);
    assert_eq!(groups, vec![Vec::<CellValue>::new(), Vec::new()]);
}

#[test]
fn find_sheets_keeps_workbook_order() {
    let mut other: Range<DataType> = Range::new((0, 0), (4, 9));
    other.set_value((1, 6), DataType::String("foo".to_string()));
    let h = reader(vec![
        sheet("Zeta", Some(foo_range())),
        sheet("Empty", Some(Range::new((0, 0), (3, 3)))),
        sheet("Alpha", Some(other)),
        sheet("Broken", None),
    ]);
    let found = h.find_sheets(&Axis::span(0, 10), &Axis::span(4, 10), &foo());
    assert_eq!(found, vec!["Zeta".to_string(), "Alpha".to_string()]);
    for name in h.get_sheetnames() {
        let hit = h.find_cell(&name, &Axis::span(0, 10), &Axis::span(4, 10), &foo()).is_some();
        assert_eq!(hit, found.contains(&name));
    }
    let none = h.find_sheets(&Axis::span(0, 10), &Axis::span(8, 10), &foo());
    assert!(none.is_empty());
}

#[test]
fn iterate_row_values_is_column_major() {
    let h = reader(vec![sheet("Sheet1", Some(foo_range()))]);
    let groups = h.iterate_row_values("Sheet1", &Axis::stepped(2, 8, 4), &Axis::span(5, 8), &NeverStop);
    assert_eq!(
        groups,
        vec![
            vec![CellValue::Int(42), CellValue::Text("bar".to_string())],
            vec![CellValue::Empty, CellValue::Empty],
            vec![CellValue::Empty, CellValue::Empty],
        ]
    );
}

#[test]
fn iterate_row_values_stops_before_trigger() {
    let h = reader(vec![sheet("Sheet1", Some(foo_range()))]);
    let groups = h.iterate_row_values("Sheet1", &Axis::stepped(0, 10, 2), &Axis::starting_at(5), &AllEmpty);
    assert_eq!(
        groups,
        vec![vec![
            CellValue::Empty,
            CellValue::Int(42),
            CellValue::Empty,
            CellValue::Text("bar".to_string()),
            CellValue::Empty,
        ]]
    );
    let groups = h.iterate_row_values("Sheet1", &Axis::span(3, 4), &Axis::starting_at(7), &AllEmpty);
    assert_eq!(groups, vec![vec![CellValue::Text("foo".to_string())]]);
    let groups = h.iterate_row_values("Sheet1", &Axis::span(3, 4), &Axis::starting_at(8), &AllEmpty);
    assert!(groups.is_empty());
}

#[test]
fn iterate_row_values_omits_missing_cells() {
    let h = reader(vec![sheet("Sheet1", Some(foo_range()))]);
    let groups = h.iterate_row_values("Sheet1", &Axis::span(8, 14), &Axis::span(9, 12), &NeverStop);
    assert_eq!(groups, vec![vec![CellValue::Empty, CellValue::Empty], vec![], vec![]]);
    assert!(h.iterate_row_values("Nope", &Axis::span(0, 10), &Axis::span(0, 10), &NeverStop).is_empty());
}

#[test]
fn cell_kinds_are_copied_from_range() {
    let mut g: Range<DataType> = Range::new((0, 0), (0, 5));
    g.set_value((0, 0), DataType::Bool(true));
    g.set_value((0, 1), DataType::Float(1.5));
    g.set_value((0, 2), DataType::DateTime(44000.25));
    g.set_value((0, 3), DataType::Error(CellErrorType::Div0));
    g.set_value((0, 4), DataType::Int(-7));
    let h = reader(vec![sheet("S", Some(g))]);
    let groups = h.iterate_row_values("S", &Axis::span(0, 1), &Axis::span(0, 6), &NeverStop);
    let row: Vec<CellValue> = groups.into_iter().map(|mut g| g.remove(0)).collect();
    assert_eq!(
        row,
        vec![
            CellValue::Bool(true),
            CellValue::Float(1.5f64.to_bits()),
            CellValue::DateTime(44000.25f64.to_bits()),
            CellValue::Error("#DIV/0!".to_string()),
            CellValue::Int(-7),
            CellValue::Empty,
        ]
    );
    assert!(row[0].eq_bool(true) && !row[0].eq_bool(false) && row[0].is_bool());
    assert!(row[1].is_float() && row[2].is_datetime() && row[3].is_error() && row[5].is_empty());
    assert!(row[4].is_int() && row[4].eq_int(-7) && !row[4].eq_int(7));
}

#[test]
fn text_predicates() {
    let t = CellValue::Text("foo".to_string());
    assert!(t.is_string() && t.eq_str("foo") && !t.eq_str("fo"));
    assert!(!CellValue::Int(1).eq_str("1"));
    assert!(foo().test(&t) && !foo().test(&CellValue::Text("bar".to_string())));
    assert!(IsText.test(&t) && !IsText.test(&CellValue::Empty));
    assert!(AllEmpty.test(&vec![CellValue::Empty]) && AllEmpty.test(&vec![]));
    assert!(!AllEmpty.test(&vec![CellValue::Empty, CellValue::Bool(false)]));
}

#[test]
fn get_sheetnames_in_each_mode() {
    let h = reader(vec![sheet("B", None), sheet("A", Some(foo_range()))]);
    assert_eq!(h.get_sheetnames(), vec!["B".to_string(), "A".to_string()]);
    let w = ExcelHandle::new("w.xlsx".to_string(), Mode::Write, Found::Opened(vec![sheet("A", Some(foo_range()))])).unwrap();
    assert_eq!(w.mode(), Mode::Write);
    assert!(w.get_sheetnames().is_empty());
    assert_eq!(w.find_cell("A", &Axis::span(0, 10), &Axis::span(0, 10), &AnyCell), None);
    assert_eq!(w.set_range_values("A"), Ok(()));
}

#[test]
fn create_over_existing_path_fails() {
    let r = ExcelHandle::new("taken.xlsx".to_string(), Mode::Create, Found::Present);
    assert!(matches!(r, Err(HandleError::AlreadyExists)));
    let r = ExcelHandle::new("taken.xlsx".to_string(), Mode::Create, Found::Opened(vec![]));
    assert!(matches!(r, Err(HandleError::AlreadyExists)));
}

#[test]
fn create_on_free_path_gives_empty_book() {
    let h = ExcelHandle::new("new.xlsx".to_string(), Mode::Create, Found::Unopened("missing".to_string())).unwrap();
    assert_eq!(h.mode(), Mode::Create);
    assert_eq!(h.path(), "new.xlsx");
    assert!(h.get_sheetnames().is_empty());
    assert_eq!(h.set_range_values("Sheet1"), Ok(()));
}

#[test]
fn read_of_missing_path_fails_to_open() {
    let r = ExcelHandle::new("gone.xlsx".to_string(), Mode::Read, Found::Unopened("no such file".to_string()));
    assert!(matches!(r, Err(HandleError::Open(ref m)) if m == "no such file"));
    let r = ExcelHandle::new("gone.xlsx".to_string(), Mode::Write, Found::Present);
    assert!(matches!(r, Err(HandleError::Open(_))));
}

#[test]
fn mode_labels() {
    assert_eq!(Mode::Read.label(), "Read");
    assert_eq!(Mode::Write.label(), "Write");
    assert_eq!(Mode::Create.label(), "Create");
}
