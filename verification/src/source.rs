//! Places in the program's source, as the client names them and as the
//! symbol resolver reports them.

use vstd::prelude::*;

verus! {

/// The characters of an optional text.
pub open spec fn text_of(text: Option<String>) -> Option<Seq<char>> {
    match text {
        Some(t) => Some(t@),
        None => None,
    }
}

/// Whether two optional texts hold the same characters.
pub fn same_text(a: &Option<String>, b: &Option<String>) -> (same: bool)
    ensures
        same == (text_of(*a) == text_of(*b)),
{
    match (a, b) {
        (Some(x), Some(y)) => *x == *y,
        (None, None) => true,
        _ => false,
    }
}

/// A copy of an optional text.
pub fn copy_text(text: &Option<String>) -> (copy: Option<String>)
    ensures
        copy == *text,
{
    match text {
        Some(t) => Some(t.clone()),
        None => None,
    }
}

/// Where a statement begins within its line.
#[derive(Clone, Copy, Debug, PartialEq, Eq, Structural)]
pub enum ColumnType {
    /// At the start of the line.
    LeftEdge,
    /// At this column; columns count from 1.
    Column(u64),
}

impl ColumnType {
    /// The column as a resolver request takes it: the left edge is column 0.
    pub open spec fn number(self) -> u64 {
        match self {
            ColumnType::LeftEdge => 0,
            ColumnType::Column(c) => c,
        }
    }

    pub fn to_number(&self) -> (column: u64)
        ensures
            column == self.number(),
    {
        match self {
            ColumnType::LeftEdge => 0,
            ColumnType::Column(c) => *c,
        }
    }
}

/// The source descriptor that the client sent with a breakpoint request. It
/// is kept so that the breakpoint can be resolved again after a rebuild.
#[derive(Debug, PartialEq, Eq)]
pub struct Source {
    pub name: Option<String>,
    pub path: Option<String>,
}

pub struct SourceView {
    pub name: Option<Seq<char>>,
    pub path: Option<Seq<char>>,
}

impl View for Source {
    type V = SourceView;

    open spec fn view(&self) -> SourceView {
        SourceView { name: text_of(self.name), path: text_of(self.path) }
    }
}

impl Clone for Source {
    fn clone(&self) -> (copy: Self)
        ensures
            copy == *self,
    {
        Source { name: copy_text(&self.name), path: copy_text(&self.path) }
    }
}

impl Source {
    /// Whether two descriptors name the same source.
    pub fn same_as(&self, other: &Source) -> (same: bool)
        ensures
            same == (self@ == other@),
    {
        same_text(&self.name, &other.name) && same_text(&self.path, &other.path)
    }
}

/// A place in the source that the resolver found for an address.
#[derive(Debug, PartialEq, Eq)]
pub struct SourceLocation {
    pub line: Option<u64>,
    pub column: Option<ColumnType>,
    pub file: Option<String>,
    pub directory: Option<String>,
    pub low_pc: Option<u32>,
    pub high_pc: Option<u32>,
}

pub struct SourceLocationView {
    pub line: Option<u64>,
    pub column: Option<ColumnType>,
    pub file: Option<Seq<char>>,
    pub directory: Option<Seq<char>>,
    pub low_pc: Option<u32>,
    pub high_pc: Option<u32>,
}

impl View for SourceLocation {
    type V = SourceLocationView;

    open spec fn view(&self) -> SourceLocationView {
        SourceLocationView {
            line: self.line,
            column: self.column,
            file: text_of(self.file),
            directory: text_of(self.directory),
            low_pc: self.low_pc,
            high_pc: self.high_pc,
        }
    }
}

impl Clone for SourceLocation {
    fn clone(&self) -> (copy: Self)
        ensures
            copy == *self,
    {
        SourceLocation {
            line: self.line,
            column: self.column,
            file: copy_text(&self.file),
            directory: copy_text(&self.directory),
            low_pc: self.low_pc,
            high_pc: self.high_pc,
        }
    }
}

impl SourceLocation {
    /// The line to ask the resolver for: line 0 where none is recorded.
    pub open spec fn request_line(self) -> u64 {
        match self.line {
            Some(line) => line,
            None => 0,
        }
    }

    /// The column to ask the resolver for, if one is recorded.
    pub open spec fn request_column(self) -> Option<u64> {
        match self.column {
            Some(column) => Some(column.number()),
            None => None,
        }
    }

    /// The line to ask the resolver for.
    pub fn line_or_zero(&self) -> (line: u64)
        ensures
            line == self.request_line(),
    {
        match self.line {
            Some(line) => line,
            None => 0,
        }
    }

    /// The column to ask the resolver for.
    pub fn column_number(&self) -> (column: Option<u64>)
        ensures
            column == self.request_column(),
    {
        match self.column {
            Some(column) => Some(column.to_number()),
            None => None,
        }
    }

    /// Whether two locations are the same place.
    pub fn same_as(&self, other: &SourceLocation) -> (same: bool)
        ensures
            same == (self@ == other@),
    {
        self.line == other.line && self.column == other.column && same_text(
            &self.file,
            &other.file,
        ) && same_text(&self.directory, &other.directory) && self.low_pc == other.low_pc
            && self.high_pc == other.high_pc
    }
}

/// Why a place in the source was not resolved to an address.
#[derive(Debug, PartialEq, Eq)]
pub enum ResolveError {
    /// The source file is not where the place says, in words for the user.
    SourceFileNotFound(String),
    /// The resolver found no address for the place, in its own words.
    Unresolved(String),
}

/// What the resolver found for a requested place: the address to break at,
/// and the place that this address really belongs to.
#[derive(Debug, PartialEq, Eq)]
pub struct VerifiedBreakpoint {
    pub address: u64,
    pub source_location: SourceLocation,
}

} // verus!
