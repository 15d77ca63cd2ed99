//! The two link-name predicates: case-sensitive and caseless.

use crate::entry::{read_link_target, Entry, MatcherIO};
use crate::text::{lowercase, target_text, to_text};
use crate::wildcard::{compile, glob_matches, glob_syntax_error, pattern_source, PatternSyntaxError};
use vstd::prelude::*;

verus! {

/// Compares the target of a symbolic link against a shell wildcard pattern,
/// telling upper from lower case.
///
/// The target is taken as one flat string: the whole of it must match, and the
/// pattern is not applied component by component.
#[derive(Debug)]
pub struct LinkNameMatcher {
    pattern: glob::Pattern,
}

impl View for LinkNameMatcher {
    type V = Seq<char>;

    /// The pattern text that the matcher was built from.
    closed spec fn view(&self) -> Seq<char> {
        pattern_source(self.pattern)
    }
}

impl LinkNameMatcher {
    /// The answer for an entry: it is a readable symbolic link, and the text
    /// of its target matches the pattern.
    pub open spec fn accepts(&self, file_info: &Entry) -> bool {
        match file_info.target() {
            Some(bytes) => glob_matches(self@, target_text(bytes)),
            None => false,
        }
    }

    /// Compiles `pattern_string`. This is the only place where a pattern is
    /// compiled; a string that is no valid wildcard is rejected here.
    pub fn new(pattern_string: &str) -> (made: Result<Self, PatternSyntaxError>)
        ensures
            match made {
                Ok(matcher) => glob_syntax_error(pattern_string@) is None && matcher@
                    == pattern_string@,
                Err(e) => glob_syntax_error(pattern_string@) == Some(e@),
            },
    {
        match compile(pattern_string) {
            Ok(p) => Ok(LinkNameMatcher { pattern: p }),
            Err(e) => Err(e),
        }
    }

    /// Tests one entry. Whatever resolving the entry reports is appended to
    /// `io`; nothing else changes.
    pub fn matches(&self, file_info: &Entry, io: &mut MatcherIO) -> (found: bool)
        ensures
            found == self.accepts(file_info),
            final(io)@ == old(io)@ + file_info.diagnostics(),
            file_info.is_not_a_link() ==> !found && final(io)@ == old(io)@,
    {
        match read_link_target(file_info, io) {
            Some(target) => {
                let text = to_text(target);
                self.pattern.matches(text.as_str())
            },
            None => false,
        }
    }
}

/// Compares the target of a symbolic link against a shell wildcard pattern,
/// ignoring case: the pattern is lowercased once, when the matcher is built,
/// and each target is lowercased before it is tested.
#[derive(Debug)]
pub struct CaselessLinkNameMatcher {
    pattern: glob::Pattern,
}

impl View for CaselessLinkNameMatcher {
    type V = Seq<char>;

    /// The lowercased pattern text that the matcher holds.
    closed spec fn view(&self) -> Seq<char> {
        pattern_source(self.pattern)
    }
}

impl CaselessLinkNameMatcher {
    /// The answer for an entry: it is a readable symbolic link, and the
    /// lowercased text of its target matches the lowercased pattern.
    pub open spec fn accepts(&self, file_info: &Entry) -> bool {
        match file_info.target() {
            Some(bytes) => glob_matches(self@, lowercase(target_text(bytes))),
            None => false,
        }
    }

    /// Lowercases `pattern_string` and compiles the result. A string whose
    /// lowercase form is no valid wildcard is rejected.
    pub fn new(pattern_string: &str) -> (made: Result<Self, PatternSyntaxError>)
        ensures
            match made {
                Ok(matcher) => glob_syntax_error(lowercase(pattern_string@)) is None && matcher@
                    == lowercase(pattern_string@),
                Err(e) => glob_syntax_error(lowercase(pattern_string@)) == Some(e@),
            },
    {
        let lowered = pattern_string.to_lowercase();
        match compile(lowered.as_str()) {
            Ok(p) => Ok(CaselessLinkNameMatcher { pattern: p }),
            Err(e) => Err(e),
        }
    }

    /// Tests one entry. Whatever resolving the entry reports is appended to
    /// `io`; nothing else changes.
    pub fn matches(&self, file_info: &Entry, io: &mut MatcherIO) -> (found: bool)
        ensures
            found == self.accepts(file_info),
            final(io)@ == old(io)@ + file_info.diagnostics(),
            file_info.is_not_a_link() ==> !found && final(io)@ == old(io)@,
    {
        match read_link_target(file_info, io) {
            Some(target) => {
                let text = to_text(target).to_lowercase();
                self.pattern.matches(text.as_str())
            },
            None => false,
        }
    }
}

/// An entry that is not a symbolic link is rejected by both predicates,
/// whatever their patterns, and resolving it reports nothing.
pub proof fn lemma_not_a_link_is_rejected(
    sensitive: LinkNameMatcher,
    caseless: CaselessLinkNameMatcher,
    file_info: Entry,
)
    requires
        file_info.is_not_a_link(),
    ensures
        !sensitive.accepts(&file_info),
        !caseless.accepts(&file_info),
        file_info.diagnostics() == Seq::<Seq<char>>::empty(),
{
}

/// An entry without a readable link target is rejected by both predicates,
/// whatever the reason for the missing target.
pub proof fn lemma_no_target_is_rejected(
    sensitive: LinkNameMatcher,
    caseless: CaselessLinkNameMatcher,
    file_info: Entry,
)
    requires
        file_info.target() is None,
    ensures
        !sensitive.accepts(&file_info),
        !caseless.accepts(&file_info),
{
}

/// The answer is a function of the pattern and of the stored target alone.
/// Evaluating an entry again while its link is unchanged, in any order with
/// other entries and whatever the sink holds, gives the same answer; the
/// entry's path plays no part.
pub proof fn lemma_answer_follows_target(
    sensitive: LinkNameMatcher,
    caseless: CaselessLinkNameMatcher,
    first: Entry,
    second: Entry,
)
    requires
        first.target() == second.target(),
    ensures
        sensitive.accepts(&first) == sensitive.accepts(&second),
        caseless.accepts(&first) == caseless.accepts(&second),
{
}

/// Two predicates built from the same pattern text answer alike on every
/// entry: a matcher carries no state but its pattern.
pub proof fn lemma_same_pattern_same_answer(
    one: LinkNameMatcher,
    other: LinkNameMatcher,
    file_info: Entry,
)
    requires
        one@ == other@,
    ensures
        one.accepts(&file_info) == other.accepts(&file_info),
{
}

/// The case of a caseless pattern is irrelevant: patterns with the same
/// lowercase form give predicates that answer alike on every entry.
pub proof fn lemma_caseless_ignores_pattern_case(
    one: CaselessLinkNameMatcher,
    one_pattern: Seq<char>,
    other: CaselessLinkNameMatcher,
    other_pattern: Seq<char>,
    file_info: Entry,
)
    requires
        one@ == lowercase(one_pattern),
        other@ == lowercase(other_pattern),
        lowercase(one_pattern) == lowercase(other_pattern),
    ensures
        one.accepts(&file_info) == other.accepts(&file_info),
{
}

/// The case of a target is irrelevant to a caseless predicate: targets whose
/// texts have the same lowercase form get the same answer.
pub proof fn lemma_caseless_ignores_target_case(
    matcher: CaselessLinkNameMatcher,
    first: Entry,
    second: Entry,
)
    requires
        first.target() matches Some(a) && second.target() matches Some(b) && lowercase(
            target_text(a),
        ) == lowercase(target_text(b)),
    ensures
        matcher.accepts(&first) == matcher.accepts(&second),
{
}

} // verus!
