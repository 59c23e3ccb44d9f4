//! The outer layer of a code: unpadded Base64 over the standard alphabet,
//! computed by the `base64` crate's `STANDARD_NO_PAD` engine.

use base64::Engine;
use vstd::prelude::*;

verus! {

/// The text that the `STANDARD_NO_PAD` engine's `encode` gives for `data`.
pub uninterp spec fn base64_text(data: Seq<u8>) -> Seq<char>;

/// The bytes that the `STANDARD_NO_PAD` engine's `decode` gives for `code`,
/// `None` where it gives an error.
pub uninterp spec fn base64_bytes(code: Seq<char>) -> Option<Seq<u8>>;

/// The 64 symbols of the standard alphabet. The padding sign `=` is none of
/// them.
pub open spec fn is_base64_symbol(c: char) -> bool {
    ||| 'A' <= c <= 'Z'
    ||| 'a' <= c <= 'z'
    ||| '0' <= c <= '9'
    ||| c == '+'
    ||| c == '/'
}

/// Whether `code` is made of symbols of the standard alphabet only.
pub open spec fn all_base64_symbols(code: Seq<char>) -> bool {
    forall|i: int| 0 <= i < code.len() ==> is_base64_symbol(#[trigger] code[i])
}

/// The longest input that [`armor`] takes: its output is a third longer and
/// must fit in `usize`.
pub open spec fn armorable(len: nat) -> bool {
    len <= usize::MAX / 2
}

/// Calls `Engine::encode` on `base64::engine::general_purpose::STANDARD_NO_PAD`.
///
/// Believed of it: the result is the crate's encoding of `data`; it is made
/// of alphabet symbols alone, this engine writing no padding; and the same
/// engine's `decode` gives `data` back for it. The length bound keeps the
/// crate's size computation from overflowing, where it would panic.
#[verifier::external_body]
pub(crate) fn armor(data: &[u8]) -> (code: String)
    requires
        armorable(data@.len()),
    ensures
        code@ == base64_text(data@),
        all_base64_symbols(code@),
        base64_bytes(code@) == Some(data@),
{
    base64::engine::general_purpose::STANDARD_NO_PAD.encode(data)
}

/// Calls `Engine::decode` on `base64::engine::general_purpose::STANDARD_NO_PAD`.
///
/// Believed of it: the outcome depends on `code` alone, and it succeeds only
/// on text made of alphabet symbols: any other byte, the padding sign
/// included, is an error under this engine's configuration.
#[verifier::external_body]
pub(crate) fn unarmor(code: &str) -> (r: Result<Vec<u8>, base64::DecodeError>)
    ensures
        match r {
            Ok(bytes) => base64_bytes(code@) == Some(bytes@),
            Err(_) => base64_bytes(code@) is None,
        },
        r is Ok ==> all_base64_symbols(code@),
{
    base64::engine::general_purpose::STANDARD_NO_PAD.decode(code)
}

} // verus!
