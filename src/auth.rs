//! The bearer-token check in front of the private API routes.
use vstd::prelude::*;
use crate::text::{has_prefix, owned, starts_with};

verus! {

/// A request is let through when its `Authorization` header is `Bearer `
/// followed by exactly the configured token.
pub open spec fn bearer_accepts(header: Option<Seq<char>>, token: Seq<char>) -> bool {
    match header {
        Some(h) => has_prefix(h, "Bearer "@) && h.skip(7) == token,
        None => false,
    }
}

/// Whether `header`, the request's `Authorization` value if it has one,
/// carries the expected token. The comparison is plain string equality,
/// which takes longer the longer the two agree.
pub fn is_authorized(header: Option<&str>, expected_token: &str) -> (r: bool)
    ensures
        r == bearer_accepts(
            match header {
                Some(h) => Some(h@),
                None => None,
            },
            expected_token@,
        ),
{
    match header {
        None => false,
        Some(h) => {
            if !starts_with(h, "Bearer ") {
                return false;
            }
            proof {
                reveal_strlit("Bearer ");
            }
            let n = h.unicode_len();
            let rest = owned(h.substring_char(7, n));
            let expected = owned(expected_token);
            assert(h@.subrange(7, n as int) == h@.skip(7));
            rest == expected
        },
    }
}

} // verus!
