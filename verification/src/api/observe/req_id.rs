//! Which request id a request gets: the one that the client sent, or a new
//! one.

use vstd::prelude::*;
use vstd::string::StringExecFns;

use crate::text::{check_header_text, is_header_text, is_visible, opt_str};

verus! {

/// The header that carries the request id, inbound and outbound.
pub const REQUEST_ID_HEADER: &'static str = "x-request-id";

/// Whether `s` can serve as a request id: it is not empty and can be sent
/// back as a header value.
pub open spec fn is_request_id(s: Seq<char>) -> bool {
    s.len() > 0 && is_header_text(s)
}

/// A lower-case hexadecimal digit.
pub open spec fn is_lower_hex(c: char) -> bool {
    ('0' <= c && c <= '9') || ('a' <= c && c <= 'f')
}

/// The hyphenated lower-case notation of a random (version 4) UUID: 36
/// characters in groups of 8, 4, 4, 4 and 12 hexadecimal digits, the third
/// group starting with the version, the fourth with the variant.
pub open spec fn is_uuid_v4_text(s: Seq<char>) -> bool {
    &&& s.len() == 36
    &&& forall|i: int|
        0 <= i < 36 ==> if i == 8 || i == 13 || i == 18 || i == 23 {
            #[trigger] s[i] == '-'
        } else {
            is_lower_hex(s[i])
        }
    &&& s[14] == '4'
    &&& (s[19] == '8' || s[19] == '9' || s[19] == 'a' || s[19] == 'b')
}

/// The request id of a request whose client sent `inbound`, where `fresh`
/// is the id to fall back on: what the client sent if that can serve as a
/// request id, `fresh` otherwise.
pub open spec fn resolved_id(inbound: Option<Seq<char>>, fresh: Seq<char>) -> Seq<char> {
    match inbound {
        Some(v) => if is_request_id(v) {
            v
        } else {
            fresh
        },
        None => fresh,
    }
}

/// The text of a version 4 UUID can serve as a request id.
pub proof fn lemma_uuid_text_is_request_id(s: Seq<char>)
    requires
        is_uuid_v4_text(s),
    ensures
        is_request_id(s),
{
    assert forall|i: int| 0 <= i < s.len() implies is_visible(#[trigger] s[i]) by {
        if i == 8 || i == 13 || i == 18 || i == 23 {
        } else {
            assert(is_lower_hex(s[i]));
        }
    }
}

/// Draws a new random UUID and writes it out.
///
/// Calls `uuid::Uuid::new_v4` and the `to_string` of its `Display`. Taken on
/// trust: the text is the hyphenated lower-case notation, 36 characters
/// with `-` at offsets 8, 13, 18 and 23 and hexadecimal digits elsewhere,
/// the digit at offset 14 being the version 4 and the one at offset 19 the
/// variant. Which UUID comes out is left open. The call fails only where the
/// operating system hands out no random bytes.
#[verifier::external_body]
fn fresh_uuid() -> (id: String)
    ensures
        is_uuid_v4_text(id@),
{
    uuid::Uuid::new_v4().to_string()
}

/// Picks the request id of a request: `inbound`, the value of the client's
/// request id header, where there is one and it can serve as a request id;
/// `fresh` otherwise, as for a request without the header and for one whose
/// header is empty or malformed.
pub fn resolve_request_id(inbound: Option<&str>, fresh: String) -> (id: String)
    ensures
        id@ == resolved_id(opt_str(inbound), fresh@),
{
    match inbound {
        Some(v) => {
            if !v.is_empty() && check_header_text(v) {
                String::from_str(v)
            } else {
                fresh
            }
        },
        None => fresh,
    }
}

/// Makes request ids: the client's own where it sent a usable one, a random
/// UUID otherwise.
#[derive(Clone, Copy, Default, Debug)]
pub struct MakeRequestUuid;

impl MakeRequestUuid {
    /// The request id of a request whose request id header held `inbound`.
    /// There always is one, it can always serve as a request id, and it is
    /// the client's own wherever that can.
    pub fn make_request_id(&mut self, inbound: Option<&str>) -> (r: Option<String>)
        ensures
            r matches Some(id) && is_request_id(id@) && (match inbound {
                Some(v) => if is_request_id(v@) {
                    id@ == v@
                } else {
                    is_uuid_v4_text(id@)
                },
                None => is_uuid_v4_text(id@),
            }),
    {
        let fresh = fresh_uuid();
        proof {
            lemma_uuid_text_is_request_id(fresh@);
        }
        Some(resolve_request_id(inbound, fresh))
    }
}

} // verus!
