//! Completion requests: the position, unsaved-file overrides and option
//! flags one query runs with.

use vstd::prelude::*;
use crate::raw::{OPTION_INCLUDE_BRIEF_COMMENTS, OPTION_INCLUDE_CODE_PATTERNS,
    OPTION_INCLUDE_MACROS};

verus! {

/// An in-memory override for one file's on-disk content during a query.
#[derive(Debug)]
pub struct Unsaved {
    /// The path of the file whose content is overridden.
    pub path: String,
    /// The content to use in place of the on-disk content.
    pub contents: String,
}

/// A completion request: the position to complete at, the unsaved-file
/// overrides to use, and the engine option flags.
///
/// The shim that talks to the engine reads this record, runs one query with
/// it, and hands the engine's buffer back as a raw result set; running the
/// same request twice issues two independent queries.
#[derive(Debug)]
pub struct Completer {
    /// The path of the file to run completion in.
    pub file: String,
    /// The 1-based line of the completion point.
    pub line: u32,
    /// The 1-based column of the completion point.
    pub column: u32,
    /// The unsaved-file overrides to substitute during the query.
    pub unsaved: Vec<Unsaved>,
    /// The engine option flags the query runs with.
    pub flags: u32,
}

impl Completer {
    /// Builds a request for the given position with no unsaved overrides.
    ///
    /// `default_flags` is the engine's built-in default option set, which
    /// the shim obtains from the engine; no default is hardcoded here.
    pub fn new(file: String, line: u32, column: u32, default_flags: u32) -> (r: Completer)
        ensures
            r.file == file,
            r.line == line,
            r.column == column,
            r.unsaved@.len() == 0,
            r.flags == default_flags,
    {
        Completer { file, line, column, unsaved: Vec::new(), flags: default_flags }
    }

    /// Sets the unsaved files to use.
    pub fn unsaved(self, unsaved: Vec<Unsaved>) -> (r: Completer)
        ensures
            r.unsaved == unsaved,
            r.file == self.file,
            r.line == self.line,
            r.column == self.column,
            r.flags == self.flags,
    {
        Completer { unsaved, ..self }
    }

    /// Sets whether macro names will be included in the results.
    pub fn macros(self, enable: bool) -> (r: Completer)
        ensures
            r.flags == if enable {
                self.flags | OPTION_INCLUDE_MACROS
            } else {
                self.flags & !OPTION_INCLUDE_MACROS
            },
            r.file == self.file,
            r.line == self.line,
            r.column == self.column,
            r.unsaved == self.unsaved,
    {
        let flags = if enable {
            self.flags | OPTION_INCLUDE_MACROS
        } else {
            self.flags & !OPTION_INCLUDE_MACROS
        };
        Completer { flags, ..self }
    }

    /// Sets whether code patterns (e.g., loop templates) will be included
    /// in the results.
    pub fn code_patterns(self, enable: bool) -> (r: Completer)
        ensures
            r.flags == if enable {
                self.flags | OPTION_INCLUDE_CODE_PATTERNS
            } else {
                self.flags & !OPTION_INCLUDE_CODE_PATTERNS
            },
            r.file == self.file,
            r.line == self.line,
            r.column == self.column,
            r.unsaved == self.unsaved,
    {
        let flags = if enable {
            self.flags | OPTION_INCLUDE_CODE_PATTERNS
        } else {
            self.flags & !OPTION_INCLUDE_CODE_PATTERNS
        };
        Completer { flags, ..self }
    }

    /// Sets whether documentation comment briefs will be attached to the
    /// results.
    pub fn briefs(self, enable: bool) -> (r: Completer)
        ensures
            r.flags == if enable {
                self.flags | OPTION_INCLUDE_BRIEF_COMMENTS
            } else {
                self.flags & !OPTION_INCLUDE_BRIEF_COMMENTS
            },
            r.file == self.file,
            r.line == self.line,
            r.column == self.column,
            r.unsaved == self.unsaved,
    {
        let flags = if enable {
            self.flags | OPTION_INCLUDE_BRIEF_COMMENTS
        } else {
            self.flags & !OPTION_INCLUDE_BRIEF_COMMENTS
        };
        Completer { flags, ..self }
    }
}

} // verus!
