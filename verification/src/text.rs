//! From the bytes stored in a link to the text that a pattern is tested on.

use vstd::prelude::*;
use vstd::utf8::{decode_utf8, valid_utf8};

verus! {

/// What `String::from_utf8_lossy` makes of `bytes`: their decoding, with
/// U+FFFD in place of each ill-formed sequence.
pub uninterp spec fn utf8_lossy(bytes: Seq<u8>) -> Seq<char>;

/// What `str::to_lowercase` makes of `text`: its lowercase equivalent in the
/// terms of Unicode, which may differ from `text` in length.
pub uninterp spec fn lowercase(text: Seq<char>) -> Seq<char>;

/// The textual form of a link target: its decoding where the bytes are
/// well-formed UTF-8, the lossy conversion otherwise.
pub open spec fn target_text(bytes: Seq<u8>) -> Seq<char> {
    if valid_utf8(bytes) {
        decode_utf8(bytes)
    } else {
        utf8_lossy(bytes)
    }
}

/// `String::from_utf8_lossy` accepts any bytes and never fails. Its result is
/// the one that [`utf8_lossy`] names; on well-formed UTF-8 it changes nothing,
/// so the result is the plain decoding.
#[verifier::external_body]
fn from_utf8_lossy(bytes: &[u8]) -> (text: String)
    ensures
        text@ == utf8_lossy(bytes@),
        valid_utf8(bytes@) ==> text@ == decode_utf8(bytes@),
{
    String::from_utf8_lossy(bytes).into_owned()
}

/// `str::to_lowercase` is a function of the text alone (no locale enters):
/// its result is the one that [`lowercase`] names.
pub assume_specification[ str::to_lowercase ](s: &str) -> (lowered: String)
    ensures
        lowered@ == lowercase(s@),
;

/// Converts a link target to text, replacing what is not valid UTF-8 rather
/// than failing.
pub fn to_text(target: &[u8]) -> (text: String)
    ensures
        text@ == target_text(target@),
{
    from_utf8_lossy(target)
}

} // verus!
