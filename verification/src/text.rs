use vstd::prelude::*;
use vstd::utf8::{decode_utf8, valid_utf8};

use crate::errors::Utf8Error;

verus! {

/// The text `String::from_utf8_lossy` makes of a byte sequence: invalid
/// sequences are replaced by U+FFFD.
pub uninterp spec fn utf8_lossy(bytes: Seq<u8>) -> Seq<char>;

/// Decodes UTF-8 bytes by `String::from_utf8`. It succeeds exactly on valid
/// UTF-8, with the text the bytes encode. Otherwise the error gives, as the
/// standard library documents them, the length of the longest valid prefix
/// and, unless the input ended inside a sequence, the length of the invalid
/// sequence that follows it, which lies within the input. Which lengths an
/// invalid sequence can have, and how far short of the end an unfinished one
/// stops, is not stated.
#[verifier::external_body]
pub(crate) fn string_from_utf8(bytes: Vec<u8>) -> (res: Result<String, Utf8Error>)
    ensures
        match res {
            Ok(s) => valid_utf8(bytes@) && s@ == decode_utf8(bytes@),
            Err(e) => {
                &&& !valid_utf8(bytes@)
                &&& e.valid_up_to <= bytes@.len()
                &&& valid_utf8(bytes@.subrange(0, e.valid_up_to as int))
                &&& forall|k: int|
                    e.valid_up_to < k <= bytes@.len() ==> !valid_utf8(
                        #[trigger] bytes@.subrange(0, k),
                    )
                &&& e.error_len matches Some(n) ==> 1 <= n && e.valid_up_to + n <= bytes@.len()
            },
        },
{
    match String::from_utf8(bytes) {
        Ok(s) => Ok(s),
        Err(e) => {
            let u = e.utf8_error();
            Err(Utf8Error { valid_up_to: u.valid_up_to(), error_len: u.error_len() })
        },
    }
}

/// Decodes bytes by `String::from_utf8_lossy`. Valid UTF-8 decodes to the text
/// it encodes, as the standard library documents.
#[verifier::external_body]
pub(crate) fn string_from_utf8_lossy(bytes: &[u8]) -> (res: String)
    ensures
        res@ == utf8_lossy(bytes@),
        valid_utf8(bytes@) ==> res@ == decode_utf8(bytes@),
{
    String::from_utf8_lossy(bytes).into_owned()
}

} // verus!
