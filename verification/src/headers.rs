use vstd::prelude::*;

use vstd::string::StrSliceExecFns;

verus! {

/// Whether `c` may appear in an HTTP header value.
///
/// Horizontal tab and everything from the space character upwards is
/// legal, except DEL; the remaining ASCII controls are not. Every byte of
/// a non-ASCII character's encoding is 128 or above, so this matches a
/// byte-wise check on the transport side.
pub open spec fn valid_header_char(c: char) -> bool {
    c as u32 == 9 || (c as u32 >= 32 && c as u32 != 127)
}

/// Whether `s` is legal as an HTTP header value: every character is.
pub open spec fn valid_header_value(s: Seq<char>) -> bool {
    forall|i: int| 0 <= i < s.len() ==> valid_header_char(#[trigger] s[i])
}

/// Decide header-value legality of `s`.
///
/// The service computes header values from request context; one that
/// holds an illegal character must turn into a per-request server error,
/// never be emitted and never abort the process.
pub fn check_header_value(s: &str) -> (b: bool)
    ensures
        b == valid_header_value(s@),
{
    let len = s.unicode_len();
    let mut i: usize = 0;
    while i < len
        invariant
            i <= len,
            len == s@.len(),
            forall|j: int| 0 <= j < i ==> valid_header_char(#[trigger] s@[j]),
        decreases len - i,
    {
        let c = s.get_char(i);
        let u = c as u32;
        if !(u == 9 || (u >= 32 && u != 127)) {
            assert(!valid_header_char(s@[i as int]));
            return false;
        }
        i += 1;
    }
    true
}

} // verus!
