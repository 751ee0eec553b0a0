//! Reading the caller's credential and deciding on privilege.
use vstd::prelude::*;
use vstd::string::*;

use crate::text::same_text;

verus! {

/// The scheme word, with its space, that opens an `Authorization` header.
pub open spec fn bearer_scheme() -> Seq<char> {
    "Bearer "@
}

/// The token that an `Authorization` header carries, if it has the bearer form.
pub open spec fn bearer_of(header: Option<Seq<char>>) -> Option<Seq<char>> {
    match header {
        Some(h) => if bearer_scheme().is_prefix_of(h) {
            Some(h.skip(bearer_scheme().len() as int))
        } else {
            None
        },
        None => None,
    }
}

/// A header value that may be absent, as plain text.
pub open spec fn header_text(header: Option<&str>) -> Option<Seq<char>> {
    match header {
        Some(h) => Some(h@),
        None => None,
    }
}

/// The token of an `Authorization` header of the form `Bearer <token>`;
/// `None` where the header is absent or has another form.
pub fn bearer_token(header: Option<&str>) -> (r: Option<&str>)
    ensures
        bearer_of(header_text(header)) == header_text(r),
{
    proof {
        reveal_strlit("Bearer ");
    }
    match header {
        None => None,
        Some(h) => {
            let scheme = "Bearer ";
            let m = scheme.unicode_len();
            let n = h.unicode_len();
            if n < m {
                return None;
            }
            let head = h.substring_char(0, m);
            if !same_text(head, scheme) {
                assert(!bearer_scheme().is_prefix_of(h@)) by {
                    if bearer_scheme().is_prefix_of(h@) {
                        assert(head@ =~= bearer_scheme());
                    }
                }
                return None;
            }
            assert(bearer_scheme().is_prefix_of(h@)) by {
                assert(h@.subrange(0, m as int) =~= bearer_scheme());
            }
            let token = h.substring_char(m, n);
            assert(token@ =~= h@.skip(m as int));
            Some(token)
        },
    }
}

/// The role that makes a user an administrator.
pub open spec fn admin_role() -> Seq<char> {
    "admin"@
}

/// Whether a user store lookup grants administrator rights: only a found
/// record whose role is exactly `admin` does. A missing record and a failed
/// lookup are both given as `None`, and both deny.
pub fn role_grants_admin(role: Option<&str>) -> (r: bool)
    ensures
        r == (role is Some && role->0@ == admin_role()),
{
    match role {
        Some(role) => same_text(role, "admin"),
        None => false,
    }
}

} // verus!
