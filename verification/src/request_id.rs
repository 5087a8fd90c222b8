use vstd::prelude::*;

verus! {

/// The identifier of one request, echoed in the `x-request-id` header.
#[derive(Debug, Clone, PartialEq, Eq)]
pub struct RequestId(pub String);

/// Characters of a lowercase hexadecimal digit.
pub open spec fn is_lower_hex(c: char) -> bool {
    ('0' <= c && c <= '9') || ('a' <= c && c <= 'f')
}

/// The hyphenated form of a UUID: 36 characters, `-` at positions 8, 13,
/// 18 and 23 and lowercase hexadecimal digits elsewhere.
pub open spec fn is_hyphenated_uuid(s: Seq<char>) -> bool {
    &&& s.len() == 36
    &&& forall|i: int| 0 <= i < 36 ==> if i == 8 || i == 13 || i == 18 || i == 23 {
        #[trigger] s[i] == '-'
    } else {
        is_lower_hex(s[i])
    }
}

/// A random (version 4, RFC 4122 variant) UUID in hyphenated form: the
/// version digit at position 14 is `4` and the variant digit at position 19
/// is one of `8`, `9`, `a`, `b`.
pub open spec fn is_random_uuid(s: Seq<char>) -> bool {
    &&& is_hyphenated_uuid(s)
    &&& s[14] == '4'
    &&& (s[19] == '8' || s[19] == '9' || s[19] == 'a' || s[19] == 'b')
}

/// Calls `uuid::Uuid::new_v4`, which sets the version and variant bits of a
/// random value, and formats it with `to_string`, which the crate documents
/// as the hyphenated lowercase form. Nothing is stated of the random digits.
#[verifier::external_body]
fn random_uuid_text() -> (s: String)
    ensures
        is_random_uuid(s@),
{
    uuid::Uuid::new_v4().to_string()
}

/// The identifier of a request: the one its `x-request-id` header carries,
/// where it carries a readable one, or a fresh random UUID.
pub fn resolve_request_id(header: Option<String>) -> (r: RequestId)
    ensures
        header matches Some(h) ==> r.0@ == h@,
        header is None ==> is_random_uuid(r.0@),
{
    match header {
        Some(h) => RequestId(h),
        None => RequestId(random_uuid_text()),
    }
}

} // verus!
