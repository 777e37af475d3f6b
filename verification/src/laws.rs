//! Laws of the store's model: what inserting does to a well-formed table,
//! and that an inserted row is found again by the reading operations.

use vstd::prelude::*;

use crate::data::RecordV;
use crate::data::UserV;
use crate::data::has_user_with_email;
use crate::data::is_for_user;
use crate::data::records_for_user;
use crate::data::sorted_by_check_in_desc;
use crate::data::user_for_email;
use crate::data::wf_users;

verus! {

/// Appending a user with a fresh email and a positive identifier keeps the
/// `users` table well formed.
pub proof fn lemma_wf_push(users: Seq<UserV>, u: UserV)
    requires
        wf_users(users),
        u.id > 0,
        !has_user_with_email(users, u.email),
    ensures
        wf_users(users.push(u)),
{
    let w = users.push(u);
    assert forall|i: int, j: int|
        0 <= i < w.len() && 0 <= j < w.len() && i != j implies #[trigger] w[i].email
        != #[trigger] w[j].email by {
        if i < users.len() && j < users.len() {
            assert(w[i] == users[i] && w[j] == users[j]);
        } else if i < users.len() {
            assert(w[i] == users[i] && w[j] == u);
        } else {
            assert(w[i] == u && w[j] == users[j]);
        }
    }
    assert forall|i: int| 0 <= i < w.len() implies (#[trigger] w[i]).id > 0 by {
        if i < users.len() {
            assert(w[i] == users[i]);
        }
    }
}

/// In a well-formed table the user found under an email is the one row that
/// carries it.
pub proof fn lemma_user_for_email_unique(users: Seq<UserV>, i: int)
    requires
        wf_users(users),
        0 <= i < users.len(),
    ensures
        has_user_with_email(users, users[i].email),
        user_for_email(users, users[i].email) == users[i],
{
    let e = users[i].email;
    assert(has_user_with_email(users, e));
    let c = choose|k: int| 0 <= k < users.len() && (#[trigger] users[k]).email == e;
    if c != i {
        assert(users[c].email != users[i].email);
    }
}

/// Round trip for users: inserting a user whose email is not yet taken into
/// a well-formed table keeps the table well formed, and looking that email
/// up afterwards finds exactly the inserted row.
pub proof fn lemma_user_round_trip(users: Seq<UserV>, u: UserV)
    requires
        wf_users(users),
        u.id > 0,
        !has_user_with_email(users, u.email),
    ensures
        wf_users(users.push(u)),
        has_user_with_email(users.push(u), u.email),
        user_for_email(users.push(u), u.email) == u,
{
    lemma_wf_push(users, u);
    let w = users.push(u);
    assert(w[users.len() as int] == u);
    lemma_user_for_email_unique(w, users.len() as int);
}

/// Round trip for attendance records: after a record is appended, every
/// listing of its user's records — any sequence holding exactly those rows —
/// contains the inserted row.
pub proof fn lemma_record_round_trip(records: Seq<RecordV>, r: RecordV, listed: Seq<RecordV>)
    requires
        listed.to_multiset() == records_for_user(records.push(r), r.user_id).to_multiset(),
    ensures
        listed.contains(r),
{
    broadcast use vstd::seq_lib::group_to_multiset_ensures;

    records.push(r).lemma_filter_contains(is_for_user(r.user_id), records.len() as int);
    let kept = records_for_user(records.push(r), r.user_id);
    assert(kept.contains(r));
    assert(kept.to_multiset().count(r) > 0);
    assert(listed.to_multiset().count(r) > 0);
}

/// Inserting a row at a sorting position keeps a listing ordered by
/// check-in time, most recent first.
pub proof fn lemma_sorted_insert_desc(s: Seq<RecordV>, j: int, x: RecordV)
    requires
        sorted_by_check_in_desc(s),
        0 <= j <= s.len(),
        forall|k: int| 0 <= k < j ==> (#[trigger] s[k]).check_in >= x.check_in,
        j < s.len() ==> s[j].check_in <= x.check_in,
    ensures
        sorted_by_check_in_desc(s.insert(j, x)),
{
    s.insert_ensures(j, x);
    let w = s.insert(j, x);
    assert forall|a: int, b: int|
        0 <= a <= b < w.len() implies (#[trigger] w[a]).check_in >= (#[trigger] w[b]).check_in by {
        if a < j {
            assert(w[a] == s[a]);
        } else if a == j {
            assert(w[a] == x);
        } else {
            assert(w[a] == s[a - 1]);
        }
        if b < j {
            assert(w[b] == s[b]);
        } else if b == j {
            assert(w[b] == x);
        } else {
            assert(w[b] == s[b - 1]);
        }
    }
}

} // verus!
