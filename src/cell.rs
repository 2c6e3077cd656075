use vstd::prelude::*;

verus! {

/// The content of one spreadsheet cell.
///
/// Floating-point contents (numbers and dates) are held as their IEEE-754
/// bit patterns, so that the value is kept exactly while staying a plain
/// integer.
#[derive(Clone, Debug, PartialEq)]
pub enum CellValue {
    Empty,
    Bool(bool),
    Int(i64),
    Float(u64),
    Text(String),
    Error(String),
    DateTime(u64),
}

impl CellValue {
    /// True when the cell holds text equal to `s`.
    pub open spec fn spec_is_text(self, s: Seq<char>) -> bool {
        match self {
            CellValue::Text(t) => t@ == s,
            _ => false,
        }
    }

    pub fn is_empty(&self) -> (r: bool)
        ensures
            r == (*self is Empty),
    {
        match self {
            CellValue::Empty => true,
            _ => false,
        }
    }

    pub fn is_bool(&self) -> (r: bool)
        ensures
            r == (*self is Bool),
    {
        match self {
            CellValue::Bool(_) => true,
            _ => false,
        }
    }

    pub fn is_int(&self) -> (r: bool)
        ensures
            r == (*self is Int),
    {
        match self {
            CellValue::Int(_) => true,
            _ => false,
        }
    }

    pub fn is_float(&self) -> (r: bool)
        ensures
            r == (*self is Float),
    {
        match self {
            CellValue::Float(_) => true,
            _ => false,
        }
    }

    pub fn is_string(&self) -> (r: bool)
        ensures
            r == (*self is Text),
    {
        match self {
            CellValue::Text(_) => true,
            _ => false,
        }
    }

    pub fn is_error(&self) -> (r: bool)
        ensures
            r == (*self is Error),
    {
        match self {
            CellValue::Error(_) => true,
            _ => false,
        }
    }

    pub fn is_datetime(&self) -> (r: bool)
        ensures
            r == (*self is DateTime),
    {
        match self {
            CellValue::DateTime(_) => true,
            _ => false,
        }
    }

    /// Compares a text cell with `s`; a cell of any other kind never equals a string.
    pub fn eq_str(&self, s: &str) -> (r: bool)
        ensures
            r == self.spec_is_text(s@),
    {
        match self {
            CellValue::Text(t) => {
                let other = s.to_owned();
                *t == other
            },
            _ => false,
        }
    }

    /// Compares an integer cell with `n`.
    pub fn eq_int(&self, n: i64) -> (r: bool)
        ensures
            r == (*self == CellValue::Int(n)),
    {
        match self {
            CellValue::Int(i) => *i == n,
            _ => false,
        }
    }

    /// Compares a boolean cell with `b`.
    pub fn eq_bool(&self, b: bool) -> (r: bool)
        ensures
            r == (*self == CellValue::Bool(b)),
    {
        match self {
            CellValue::Bool(x) => *x == b,
            _ => false,
        }
    }
}

} // verus!
