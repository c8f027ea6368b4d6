use vstd::prelude::*;

use crate::headers::{valid_header_char, valid_header_value};

verus! {

/// Whether `c` is a lowercase hexadecimal digit.
pub open spec fn is_lower_hex_char(c: char) -> bool {
    (48 <= c as u32 <= 57) || (97 <= c as u32 <= 102)
}

/// The hyphenated textual form of a UUID: 36 characters with hyphens at
/// positions 8, 13, 18 and 23, and lowercase hexadecimal digits
/// everywhere else.
pub open spec fn is_uuid_text(s: Seq<char>) -> bool {
    &&& s.len() == 36
    &&& forall|i: int|
        0 <= i < 36 ==> (if i == 8 || i == 13 || i == 18 || i == 23 {
            (#[trigger] s[i]) as u32 == 45
        } else {
            is_lower_hex_char(s[i])
        })
}

/// Relies on `uuid::Uuid::new_v4` and the `Display` form of `Uuid`: a
/// fresh random UUID rendered hyphenated in lowercase, which is 36
/// characters — hyphens at positions 8, 13, 18 and 23, lowercase hex
/// digits elsewhere. The value is random; nothing relates two calls.
#[verifier::external_body]
fn fresh_request_id() -> (r: String)
    ensures
        is_uuid_text(r@),
{
    uuid::Uuid::new_v4().to_string()
}

/// A UUID text is always legal as a header value: hyphens and lowercase
/// hex digits all lie in the printable ASCII range.
pub proof fn lemma_uuid_text_valid_header(s: Seq<char>)
    requires
        is_uuid_text(s),
    ensures
        valid_header_value(s),
{
    assert forall|i: int| 0 <= i < s.len() implies valid_header_char(#[trigger] s[i]) by {
        if i == 8 || i == 13 || i == 18 || i == 23 {
            assert(s[i] as u32 == 45);
        } else {
            assert(is_lower_hex_char(s[i]));
        }
    }
}

/// The request id a response carries: the inbound `x-request-id` value
/// verbatim when the request brought one, else a freshly generated UUID.
/// Either way the value is legal as a header value whenever the inbound
/// one was.
pub fn resolve_request_id(inbound: Option<String>) -> (r: String)
    ensures
        inbound matches Some(v) ==> r == v,
        inbound is None ==> is_uuid_text(r@),
{
    match inbound {
        Some(v) => v,
        None => fresh_request_id(),
    }
}

} // verus!
