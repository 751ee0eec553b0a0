//! Accepting a new subscriber: normalising and checking the address, and
//! the reply once the store has run its insert-if-absent.
use vstd::prelude::*;

use crate::reply::{Reply, STATUS_BAD_REQUEST, STATUS_INTERNAL_ERROR, STATUS_OK};
use crate::request::SubscribeRequest;
use crate::text::{contains_char, has_char, lowercase_text, lowercased, trim_text, trimmed};

verus! {

/// An address with surrounding whitespace removed, then lowercased.
pub open spec fn normalized(raw: Seq<char>) -> Seq<char> {
    lowercased(trimmed(raw))
}

/// The shallow syntactic check: not empty, and holding an `@`.
pub open spec fn acceptable(email: Seq<char>) -> bool {
    email.len() > 0 && has_char(email, '@')
}

/// The subscriber addresses held after the store's insert-if-absent of `email`.
pub open spec fn stored_after(rows: Set<Seq<char>>, email: Seq<char>) -> Set<Seq<char>> {
    rows.insert(email)
}

/// The subscriber addresses held after a subscription of `raw` whose
/// insert-if-absent the store carried out.
pub open spec fn rows_after_subscribe(rows: Set<Seq<char>>, raw: Seq<char>) -> Set<Seq<char>> {
    if acceptable(normalized(raw)) {
        stored_after(rows, normalized(raw))
    } else {
        rows
    }
}

/// The status that a subscription of `raw` answers with, where `stored`
/// tells whether the store's insert-if-absent succeeded.
pub open spec fn subscribe_status(raw: Seq<char>, stored: bool) -> u16 {
    if !acceptable(normalized(raw)) {
        STATUS_BAD_REQUEST
    } else if stored {
        STATUS_OK
    } else {
        STATUS_INTERNAL_ERROR
    }
}

/// Trims surrounding whitespace and lowercases.
pub fn normalize_email(raw: &str) -> (r: String)
    ensures
        r@ == normalized(raw@),
        raw@.len() == 0 ==> r@.len() == 0,
{
    let trimmed_raw = trim_text(raw);
    lowercase_text(trimmed_raw)
}

/// Whether a normalised address passes the shallow check.
pub fn is_acceptable_email(email: &str) -> (r: bool)
    ensures
        r == acceptable(email@),
{
    email.unicode_len() > 0 && contains_char(email, '@')
}

/// Normalises the requested address and checks it. `Ok` holds the address
/// to store; `Err` holds the 400 reply for an address that fails the check.
pub fn check_subscription(req: &SubscribeRequest) -> (r: Result<String, Reply>)
    ensures
        r is Ok <==> acceptable(normalized(req.email@)),
        req.email@.len() == 0 ==> r is Err,
        r matches Ok(email) ==> email@ == normalized(req.email@),
        r matches Err(reply) ==> reply.status == STATUS_BAD_REQUEST
            && reply.status == subscribe_status(req.email@, false)
            && reply.message@ == "Invalid email address"@,
{
    let email = normalize_email(req.email.as_str());
    if is_acceptable_email(email.as_str()) {
        Ok(email)
    } else {
        Err(Reply::new(STATUS_BAD_REQUEST, "Invalid email address"))
    }
}

/// The reply once an accepted address went to the store: success where the
/// insert-if-absent succeeded (also where the address was already held),
/// an internal error otherwise.
pub fn subscribe_reply(stored: bool) -> (r: Reply)
    ensures
        stored ==> r.status == STATUS_OK && r.message@ == "Subscribed successfully"@,
        !stored ==> r.status == STATUS_INTERNAL_ERROR && r.message@ == "Failed to subscribe"@,
{
    if stored {
        Reply::new(STATUS_OK, "Subscribed successfully")
    } else {
        Reply::new(STATUS_INTERNAL_ERROR, "Failed to subscribe")
    }
}

/// Subscribing twice with addresses that normalise alike, where the store
/// succeeds both times, answers success both times and leaves the address
/// held exactly once: the second insert changes nothing.
pub proof fn subscribing_twice_stores_once(rows: Set<Seq<char>>, first: Seq<char>, second: Seq<char>)
    requires
        normalized(first) == normalized(second),
        acceptable(normalized(first)),
    ensures
        subscribe_status(first, true) == STATUS_OK,
        subscribe_status(second, true) == STATUS_OK,
        rows_after_subscribe(rows_after_subscribe(rows, first), second)
            == rows_after_subscribe(rows, first),
        rows_after_subscribe(rows, first).contains(normalized(first)),
        rows_after_subscribe(rows, first).filter(|e: Seq<char>| e == normalized(first))
            == set![normalized(first)],
{
    let once = rows_after_subscribe(rows, first);
    assert(rows_after_subscribe(once, second) =~= once);
    assert(once.filter(|e: Seq<char>| e == normalized(first)) =~= set![normalized(first)]);
}

/// An address that normalises to empty text, or to text without `@`, is
/// refused with 400 and never reaches the store.
pub proof fn refused_addresses(rows: Set<Seq<char>>, raw: Seq<char>, stored: bool)
    requires
        normalized(raw).len() == 0 || !has_char(normalized(raw), '@'),
    ensures
        !acceptable(normalized(raw)),
        subscribe_status(raw, stored) == STATUS_BAD_REQUEST,
        rows_after_subscribe(rows, raw) == rows,
{
}

} // verus!
