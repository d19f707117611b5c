//! Bearer-token check of the node agent.

use vstd::prelude::*;
use crate::text::{chars_of, chars_eq, chars_starts_with, slice_chars, starts_with};

verus! {

/// Holds the agent token for injection into request extensions.
pub struct AgentToken(pub String);

/// Whether an `Authorization` header value carries the expected token:
/// it is `"Bearer "` followed by exactly the token.
pub open spec fn token_accepted(header: Seq<char>, expected: Seq<char>) -> bool {
    starts_with(header, "Bearer "@) && header.skip(7) == expected
}

/// The decision of the agent's authentication middleware: a request passes
/// when its `Authorization` header (empty when absent) is `"Bearer "`
/// followed by the configured token (empty when none is configured);
/// otherwise it is answered 401.
pub fn require_token(auth_header: &str, expected: &str) -> (ok: bool)
    ensures
        ok == token_accepted(auth_header@, expected@),
{
    let h = chars_of(auth_header);
    let prefix = chars_of("Bearer ");
    proof {
        reveal_strlit("Bearer ");
    }
    if !chars_starts_with(&h, &prefix) {
        return false;
    }
    let rest = slice_chars(&h, 7, h.len());
    assert(rest@ =~= h@.skip(7));
    let want = chars_of(expected);
    chars_eq(&rest, &want)
}

} // verus!
