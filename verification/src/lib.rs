//! Predicates over the target of a symbolic link.
//!
//! A matcher is built once from a shell wildcard pattern and then asked, entry
//! by entry, whether the entry is a symbolic link whose stored target matches
//! the pattern. Reading the link is the caller's business: the caller hands
//! over an [`entry::Entry`] that records what the read gave.

pub mod entry;
pub mod lname;
pub mod text;
pub mod wildcard;

pub use lname::{CaselessLinkNameMatcher, LinkNameMatcher};
pub use entry::{read_link_target, Entry, LinkError, LinkErrorKind, MatcherIO};
pub use wildcard::PatternSyntaxError;
