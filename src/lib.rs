//! Search and iteration over the cells of spreadsheet workbooks, with a
//! handle whose access mode gates what may be done with it.

pub mod axis;
pub mod cell;
pub mod handle;
pub mod predicate;
pub mod reader;
