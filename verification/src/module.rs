//! The states of an ECMAScript module.

use vstd::prelude::*;

verus! {

/// The different states a module can be in. "Evaluated" is split into
/// `Evaluated` and `Errored`, indicating success and failure.
#[derive(Copy, Clone, Debug, PartialEq, Eq, Structural)]
pub enum ModuleStatus {
    Uninstantiated,
    Instantiating,
    Instantiated,
    Evaluating,
    Evaluated,
    Errored,
}

/// A location in JavaScript source: a line and a column number.
#[derive(Copy, Clone, Debug, PartialEq, Eq, Structural)]
pub struct Location {
    line_number: i32,
    column_number: i32,
}

impl Location {
    /// The line number.
    pub closed spec fn line(&self) -> i32 {
        self.line_number
    }

    /// The column number.
    pub closed spec fn column(&self) -> i32 {
        self.column_number
    }

    /// The location at `line_number` and `column_number`.
    pub fn new(line_number: i32, column_number: i32) -> (r: Self)
        ensures
            r.line() == line_number,
            r.column() == column_number,
    {
        Location { line_number, column_number }
    }

    /// The line number.
    pub fn get_line_number(&self) -> (r: i32)
        ensures
            r == self.line(),
    {
        self.line_number
    }

    /// The column number.
    pub fn get_column_number(&self) -> (r: i32)
        ensures
            r == self.column(),
    {
        self.column_number
    }
}

} // verus!
