//! The data carried by the store: users and attendance records, their
//! mathematical models, and the spec functions the store's contracts use.

use vstd::prelude::*;

verus! {

/// The ways a store operation can fail.
#[derive(Clone, Copy, Debug, PartialEq, Eq, Structural)]
pub enum StoreError {
    /// The database could not be opened or its schema could not be created.
    InitializationError,
    /// A uniqueness constraint was violated, e.g. a duplicate email.
    ConstraintViolation,
    /// A lookup matched no row.
    NotFound,
    /// Any other underlying storage failure.
    DatabaseError,
}

/// A member of the organisation, one row of the `users` table.
pub struct User {
    /// Unique identifier, assigned by the store on insert.
    pub id: i64,
    pub name: String,
    /// Unique across all users.
    pub email: String,
    /// Free-form role label.
    pub role: String,
    /// Optional identifier in the external biometric time-tracking system.
    pub biotime_id: Option<String>,
}

/// An attendance session of one user, one row of the `attendance` table.
///
/// Timestamps are carried as plain integers (e.g. Unix seconds), which is
/// also how they are ordered.
pub struct AttendanceRecord {
    /// Unique identifier, assigned by the store on insert.
    pub id: i64,
    /// The user this record belongs to.
    pub user_id: i64,
    pub check_in: i64,
    /// Absent while the user is still checked in.
    pub check_out: Option<i64>,
    /// Free-form status label.
    pub status: String,
    /// Whether the record was reconciled with the external biometric system;
    /// always false at insertion.
    pub synced_with_biotime: bool,
}

/// The mathematical value of a [`User`].
#[verifier::ext_equal]
pub ghost struct UserV {
    pub id: int,
    pub name: Seq<char>,
    pub email: Seq<char>,
    pub role: Seq<char>,
    pub biotime_id: Option<Seq<char>>,
}

/// The mathematical value of an [`AttendanceRecord`].
#[verifier::ext_equal]
pub ghost struct RecordV {
    pub id: int,
    pub user_id: int,
    pub check_in: int,
    pub check_out: Option<int>,
    pub status: Seq<char>,
    pub synced_with_biotime: bool,
}

/// The contents of the two tables, in insertion order.
#[verifier::ext_equal]
pub ghost struct StoreModel {
    pub users: Seq<UserV>,
    pub records: Seq<RecordV>,
}

pub open spec fn opt_int_of(o: Option<i64>) -> Option<int> {
    match o {
        Some(t) => Some(t as int),
        None => None,
    }
}

impl View for User {
    type V = UserV;

    open spec fn view(&self) -> UserV {
        UserV {
            id: self.id as int,
            name: self.name@,
            email: self.email@,
            role: self.role@,
            biotime_id: self.biotime_id.deep_view(),
        }
    }
}

impl DeepView for User {
    type V = UserV;

    open spec fn deep_view(&self) -> UserV {
        self@
    }
}

impl Clone for User {
    fn clone(&self) -> (r: Self)
        ensures
            r@ == self@,
    {
        User {
            id: self.id,
            name: self.name.clone(),
            email: self.email.clone(),
            role: self.role.clone(),
            biotime_id: match &self.biotime_id {
                Some(b) => Some(b.clone()),
                None => None,
            },
        }
    }
}

impl View for AttendanceRecord {
    type V = RecordV;

    open spec fn view(&self) -> RecordV {
        RecordV {
            id: self.id as int,
            user_id: self.user_id as int,
            check_in: self.check_in as int,
            check_out: opt_int_of(self.check_out),
            status: self.status@,
            synced_with_biotime: self.synced_with_biotime,
        }
    }
}

impl DeepView for AttendanceRecord {
    type V = RecordV;

    open spec fn deep_view(&self) -> RecordV {
        self@
    }
}

impl Clone for AttendanceRecord {
    fn clone(&self) -> (r: Self)
        ensures
            r@ == self@,
    {
        AttendanceRecord {
            id: self.id,
            user_id: self.user_id,
            check_in: self.check_in,
            check_out: self.check_out,
            status: self.status.clone(),
            synced_with_biotime: self.synced_with_biotime,
        }
    }
}

/// The user `u` as the store lays it down under a fresh identifier: every
/// field is kept, only `id` is replaced by the assigned one.
pub open spec fn with_id(u: UserV, id: int) -> UserV {
    UserV { id, name: u.name, email: u.email, role: u.role, biotime_id: u.biotime_id }
}

/// The record `r` as the store lays it down: the assigned identifier replaces
/// `id`, and `synced_with_biotime` is always false at insertion, whatever the
/// caller passed.
pub open spec fn as_stored(r: RecordV, id: int) -> RecordV {
    RecordV {
        id,
        user_id: r.user_id,
        check_in: r.check_in,
        check_out: r.check_out,
        status: r.status,
        synced_with_biotime: false,
    }
}

/// Well-formedness of the `users` table: emails are pairwise distinct and
/// every assigned identifier is positive.
pub open spec fn wf_users(users: Seq<UserV>) -> bool {
    &&& forall|i: int, j: int|
        #![trigger users[i], users[j]]
        0 <= i < users.len() && 0 <= j < users.len() && i != j ==> users[i].email != users[j].email
    &&& forall|i: int| 0 <= i < users.len() ==> (#[trigger] users[i]).id > 0
}

/// Whether some user in `users` carries `email`.
pub open spec fn has_user_with_email(users: Seq<UserV>, email: Seq<char>) -> bool {
    exists|i: int| 0 <= i < users.len() && (#[trigger] users[i]).email == email
}

/// The user in `users` carrying `email`; well defined when emails are unique.
pub open spec fn user_for_email(users: Seq<UserV>, email: Seq<char>) -> UserV
    recommends
        has_user_with_email(users, email),
{
    users[choose|i: int| 0 <= i < users.len() && (#[trigger] users[i]).email == email]
}

/// The predicate selecting the records of one user.
pub open spec fn is_for_user(user_id: int) -> spec_fn(RecordV) -> bool {
    |r: RecordV| r.user_id == user_id
}

/// The records of one user, in insertion order.
pub open spec fn records_for_user(records: Seq<RecordV>, user_id: int) -> Seq<RecordV> {
    records.filter(is_for_user(user_id))
}

/// Ordered by check-in time, most recent first.
pub open spec fn sorted_by_check_in_desc(s: Seq<RecordV>) -> bool {
    forall|i: int, j: int|
        #![trigger s[i], s[j]]
        0 <= i <= j < s.len() ==> s[i].check_in >= s[j].check_in
}

} // verus!
