//! The bearer-token check that precedes every handler: a request is served
//! only when its Authorization header carries exactly the configured token.

use vstd::prelude::*;
use vstd::string::*;
use crate::command::Reply;

verus! {

/// The value the Authorization header must carry for the configured token.
pub open spec fn expected_header(token: Seq<char>) -> Seq<char> {
    "Bearer "@ + token
}

/// Whether one request is authorized: the header is present and equal,
/// character for character, to `Bearer ` followed by the configured token.
/// The caller runs this before any handler, so an unauthorized request
/// never reaches the mirror.
pub fn authorized(header: Option<&str>, token: &str) -> (r: bool)
    ensures
        r <==> (header matches Some(h) && h@ == expected_header(token@)),
{
    match header {
        None => false,
        Some(h) => {
            let expected = "Bearer ".to_owned().concat(token);
            let given = h.to_owned();
            given == expected
        },
    }
}

/// What an unauthorized request is told, before any handler runs.
pub fn unauthorized_reply() -> (r: Reply)
    ensures
        r.code == 401,
        r.body@ == "Invalid or missing API token"@,
{
    Reply { code: 401, body: "Invalid or missing API token".to_owned() }
}

} // verus!
