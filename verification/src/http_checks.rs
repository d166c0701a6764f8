//! Checks that HTTP values supplied by the platform are representable.
use vstd::prelude::*;

verus! {

/// A byte `http` accepts in a header value: tab, or anything from space
/// upward except DEL.
pub open spec fn spec_header_value_byte(b: u8) -> bool {
    (b >= 32 && b != 127) || b == 9
}

/// Whether `http` accepts a string as a header value: every byte of its
/// UTF-8 encoding is acceptable.
pub open spec fn spec_header_value_valid(s: Seq<char>) -> bool {
    let bytes = vstd::utf8::encode_utf8(s);
    forall|i: int| 0 <= i < bytes.len() ==> #[trigger] spec_header_value_byte(bytes[i])
}

/// Whether `http::uri::Authority` parses a string.
pub uninterp spec fn http_authority_parses(s: Seq<char>) -> bool;

/// Returns whether `http` accepts the string as a header value.
///
/// Trusted: `http::HeaderValue::try_from(&str)`.  Its source checks every
/// byte of the string and fails exactly when one is below space (other
/// than tab) or is DEL.
#[verifier::external_body]
pub(crate) fn header_value_valid(s: &str) -> (valid: bool)
    ensures
        valid == spec_header_value_valid(s@),
{
    http::HeaderValue::try_from(s).is_ok()
}

/// Returns whether `http` parses the string as a URI authority.
///
/// Trusted: `http::uri::Authority::try_from(&str)`.  The grammar it
/// accepts is long; the result is only named, as a function of the string.
#[verifier::external_body]
pub(crate) fn authority_valid(s: &str) -> (valid: bool)
    ensures
        valid == http_authority_parses(s@),
{
    http::uri::Authority::try_from(s).is_ok()
}

} // verus!
