//! The wildcard engine: the `glob` crate's compiled patterns, and what this
//! library takes on trust about them.

use vstd::prelude::*;

verus! {

/// `glob::Pattern`, a compiled shell wildcard. Nothing inside it is visible
/// here; [`pattern_source`] stands for the text it was compiled from.
#[verifier::external_type_specification]
#[verifier::external_body]
pub struct ExPattern(glob::Pattern);

/// `glob::PatternError`: where compilation stopped, and why. Its two fields,
/// `pos` and `msg`, are public and are read as they stand.
#[verifier::external_type_specification]
pub struct ExPatternError(glob::PatternError);

/// The text a compiled pattern was built from, as `glob::Pattern::as_str`
/// returns it. A pattern is immutable, and its tokens are computed from this
/// text alone, so the text identifies the pattern.
pub uninterp spec fn pattern_source(pattern: glob::Pattern) -> Seq<char>;

/// The error that `glob::Pattern::new` reports for `pattern` (the position and
/// the message), or `None` where the text compiles.
pub uninterp spec fn glob_syntax_error(pattern: Seq<char>) -> Option<(nat, Seq<char>)>;

/// Whether the pattern compiled from `pattern` matches the whole of `text`
/// under the engine's default options, as `glob::Pattern::matches` decides
/// it: `?` is any one character, `*` any run, `[...]` one of a class, and
/// upper and lower case differ.
///
/// The engine asks the platform which characters separate path components,
/// and `**` is tied to them, so for a pattern that holds `**` (and, on
/// Windows, for separators) the answer is the one of the platform that the
/// crate is built for.
pub uninterp spec fn glob_matches(pattern: Seq<char>, text: Seq<char>) -> bool;

/// `glob::Pattern::new` never panics. It either rejects the text with the
/// error that [`glob_syntax_error`] names, or yields a pattern that keeps the
/// text as its source.
pub assume_specification[ glob::Pattern::new ](pattern: &str) -> (compiled: Result<
    glob::Pattern,
    glob::PatternError,
>)
    ensures
        match compiled {
            Ok(p) => glob_syntax_error(pattern@) is None && pattern_source(p) == pattern@,
            Err(e) => glob_syntax_error(pattern@) == Some((e.pos as nat, e.msg@)),
        },
;

/// `glob::Pattern::matches` never panics, and its answer depends on the
/// pattern's source text and on `str` alone: it is the one that
/// [`glob_matches`] names.
pub assume_specification[ glob::Pattern::matches ](pattern: &glob::Pattern, str: &str) -> (b: bool)
    ensures
        b == glob_matches(pattern_source(*pattern), str@),
;

/// A wildcard that could not be compiled.
#[derive(Clone, Copy, Debug, PartialEq, Eq)]
pub struct PatternSyntaxError {
    /// The approximate index, in characters, of where the pattern goes wrong.
    pub pos: usize,
    /// What is wrong with it.
    pub msg: &'static str,
}

impl View for PatternSyntaxError {
    type V = (nat, Seq<char>);

    open spec fn view(&self) -> (nat, Seq<char>) {
        (self.pos as nat, self.msg@)
    }
}

impl PatternSyntaxError {
    /// Takes over the position and the message of the engine's error.
    pub fn from_glob(err: glob::PatternError) -> (e: Self)
        ensures
            e.pos == err.pos,
            e.msg == err.msg,
    {
        PatternSyntaxError { pos: err.pos, msg: err.msg }
    }
}

/// Compiles a wildcard, or says what is wrong with it.
pub fn compile(pattern: &str) -> (compiled: Result<glob::Pattern, PatternSyntaxError>)
    ensures
        match compiled {
            Ok(p) => glob_syntax_error(pattern@) is None && pattern_source(p) == pattern@,
            Err(e) => glob_syntax_error(pattern@) == Some(e@),
        },
{
    match glob::Pattern::new(pattern) {
        Ok(p) => Ok(p),
        Err(err) => Err(PatternSyntaxError::from_glob(err)),
    }
}

} // verus!
