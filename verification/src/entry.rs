//! A visited filesystem entry, and the resolution of its link target.

use vstd::prelude::*;

verus! {

/// How a failed attempt to read an entry as a symbolic link is classed.
#[derive(Clone, Copy, Debug, PartialEq, Eq, Structural)]
pub enum LinkErrorKind {
    /// The operation was invalid for this entry: it is not a symbolic link.
    InvalidInput,
    /// Any other failure (permission denied, entry vanished, ...).
    Other,
}

/// A failed attempt to read an entry as a symbolic link.
#[derive(Debug)]
pub struct LinkError {
    pub kind: LinkErrorKind,
    /// The failure in words, as it is to appear in a diagnostic.
    pub detail: String,
}

/// One entry met during a traversal, with the outcome of reading it as a
/// symbolic link.
#[derive(Debug)]
pub struct Entry {
    /// The entry's path, in the form shown to the user.
    pub path: String,
    /// The raw bytes stored in the link, neither resolved nor checked for
    /// existence; or why there are none.
    pub link: Result<Vec<u8>, LinkError>,
}

/// The line reported when the link of the entry at `path` could not be read.
pub open spec fn diagnostic_text(path: Seq<char>, detail: Seq<char>) -> Seq<char> {
    "Error reading target of "@ + path + ": "@ + detail
}

impl Entry {
    /// The stored link target, if the entry is a readable symbolic link.
    pub open spec fn target(&self) -> Option<Seq<u8>> {
        match self.link {
            Ok(bytes) => Some(bytes@),
            Err(_) => None,
        }
    }

    /// The entry is simply not a symbolic link.
    pub open spec fn is_not_a_link(&self) -> bool {
        self.link matches Err(e) && e.kind == LinkErrorKind::InvalidInput
    }

    /// The lines that resolving this entry reports: one for a read that
    /// failed for any reason but the entry not being a link, none otherwise.
    pub open spec fn diagnostics(&self) -> Seq<Seq<char>> {
        match self.link {
            Ok(_) => Seq::empty(),
            Err(e) => if e.kind == LinkErrorKind::InvalidInput {
                Seq::empty()
            } else {
                seq![diagnostic_text(self.path@, e.detail@)]
            },
        }
    }
}

/// The sink that collects the diagnostics of an evaluation, oldest first.
#[derive(Debug)]
pub struct MatcherIO {
    diagnostics: Vec<String>,
}

impl View for MatcherIO {
    type V = Seq<Seq<char>>;

    closed spec fn view(&self) -> Seq<Seq<char>> {
        self.diagnostics@.map_values(|line: String| line@)
    }
}

impl MatcherIO {
    /// A sink that holds no line yet.
    pub fn new() -> (io: Self)
        ensures
            io@ == Seq::<Seq<char>>::empty(),
    {
        MatcherIO { diagnostics: Vec::new() }
    }

    /// Appends one line.
    pub fn report(&mut self, line: String)
        ensures
            final(self)@ == old(self)@.push(line@),
    {
        self.diagnostics.push(line);
    }

    /// The lines collected so far.
    pub fn diagnostics(&self) -> (lines: &Vec<String>)
        ensures
            lines.deep_view() == self@,
    {
        &self.diagnostics
    }
}

/// Builds the line reported for a link that could not be read.
pub fn diagnostic_line(path: &str, detail: &str) -> (line: String)
    ensures
        line@ == diagnostic_text(path@, detail@),
{
    let mut line = "Error reading target of ".to_owned();
    line.append(path);
    line.append(": ");
    line.append(detail);
    line
}

/// Resolves the link target of an entry.
///
/// A symbolic link yields its stored target. Anything else yields `None`; a
/// failure other than "not a link" is also reported to `io`, and never aborts
/// the evaluation.
pub fn read_link_target<'a>(file_info: &'a Entry, io: &mut MatcherIO) -> (target: Option<&'a [u8]>)
    ensures
        match target {
            Some(bytes) => file_info.target() == Some(bytes@),
            None => file_info.target() is None,
        },
        final(io)@ == old(io)@ + file_info.diagnostics(),
{
    match &file_info.link {
        Ok(bytes) => Some(bytes.as_slice()),
        Err(err) => {
            match err.kind {
                LinkErrorKind::InvalidInput => {},
                LinkErrorKind::Other => {
                    io.report(diagnostic_line(file_info.path.as_str(), err.detail.as_str()));
                },
            }
            None
        },
    }
}

} // verus!
