//! The attendance store: one connection to the embedded SQLite database,
//! together with a ghost model of the rows its two tables hold.
//!
//! Every SQL statement runs behind a small trusted wrapper whose contract
//! states, against the ghost model, what SQLite's documentation promises of
//! it. The decisions around the statements — mapping failures, finding the
//! user carrying an email, selecting and ordering one user's records — are
//! verified. The model assumes the store is the only process touching the
//! database file, as the surrounding application guarantees.

use vstd::prelude::*;

use crate::data::AttendanceRecord;
use crate::data::RecordV;
use crate::data::StoreError;
use crate::data::StoreModel;
use crate::data::User;
use crate::data::UserV;
use crate::data::as_stored;
use crate::data::has_user_with_email;
use crate::data::is_for_user;
use crate::data::opt_int_of;
use crate::data::records_for_user;
use crate::data::sorted_by_check_in_desc;
use crate::data::user_for_email;
use crate::data::wf_users;
use crate::data::with_id;
use crate::laws::lemma_sorted_insert_desc;
use crate::laws::lemma_user_for_email_unique;
use crate::laws::lemma_wf_push;

verus! {

#[verifier::external_type_specification]
#[verifier::external_body]
pub struct ExConnection(rusqlite::Connection);

/// The attendance store: an open connection to `chrono_manager.db` and the
/// ghost contents of its `users` and `attendance` tables.
pub struct Store {
    conn: rusqlite::Connection,
    users: Ghost<Seq<UserV>>,
    records: Ghost<Seq<RecordV>>,
}

impl View for Store {
    type V = StoreModel;

    closed spec fn view(&self) -> StoreModel {
        StoreModel { users: self.users@, records: self.records@ }
    }
}

/// Relies on `str`'s `PartialEq`: true exactly when the two slices hold the
/// same characters. vstd specifies the `String` comparison but not this one.
#[verifier::external_body]
fn str_eq(a: &str, b: &str) -> (r: bool)
    ensures
        r == (a@ == b@),
{
    a == b
}

/// Relies on `String::push_str`: appends the slice's characters.
/// vstd gives this method no specification.
#[verifier::external_body]
fn append_str(s: &mut String, t: &str)
    ensures
        final(s)@ == old(s)@ + t@,
{
    s.push_str(t);
}

/// Relies on rusqlite's `Connection::open`: opens the database file at the
/// given path, creating it when absent. Nothing is promised of the outcome;
/// a failure is reported as `InitializationError`.
#[verifier::external_body]
fn open_connection(path: &str) -> Result<rusqlite::Connection, StoreError> {
    rusqlite::Connection::open(path).map_err(|_e| StoreError::InitializationError)
}

/// Relies on rusqlite's `Connection::execute` running two
/// `CREATE TABLE IF NOT EXISTS` statements: each creates its table when
/// absent and is a no-op that alters no stored row when the table already
/// exists. A failure is reported as `InitializationError`.
#[verifier::external_body]
fn create_tables(conn: &rusqlite::Connection) -> Result<(), StoreError> {
    conn.execute(
        "CREATE TABLE IF NOT EXISTS users (id INTEGER PRIMARY KEY, name TEXT NOT NULL, email TEXT UNIQUE NOT NULL, role TEXT NOT NULL, biotime_id TEXT, created_at TIMESTAMP DEFAULT CURRENT_TIMESTAMP)",
        [],
    ).map_err(|_e| StoreError::InitializationError)?;
    conn.execute(
        "CREATE TABLE IF NOT EXISTS attendance (id INTEGER PRIMARY KEY, user_id INTEGER NOT NULL, check_in TIMESTAMP NOT NULL, check_out TIMESTAMP, status TEXT NOT NULL, synced_with_biotime BOOLEAN DEFAULT FALSE, FOREIGN KEY (user_id) REFERENCES users (id))",
        [],
    ).map_err(|_e| StoreError::InitializationError)?;
    Ok(())
}

/// Wraps a connection whose `users` and `attendance` tables exist with the
/// store's schema. Relies on SQLite enforcing that schema on every row the
/// tables already hold — `email TEXT UNIQUE`, and rowids assigned by
/// `INTEGER PRIMARY KEY` auto-assignment, which are positive — so the table
/// contents are well formed. Assumes the file was only ever written through
/// this store.
#[verifier::external_body]
fn store_from_connection(conn: rusqlite::Connection) -> (s: Store)
    ensures
        s.wf(),
{
    Store { conn, users: Ghost(arbitrary()), records: Ghost(arbitrary()) }
}

/// The path of the database file inside the application's data directory.
fn db_path(data_dir: &str) -> (r: String)
    ensures
        r@ == data_dir@ + "/chrono_manager.db"@,
{
    let mut p = data_dir.to_owned();
    append_str(&mut p, "/chrono_manager.db");
    p
}

impl Store {
    /// The store's invariant: the modeled `users` table is well formed.
    pub open spec fn wf(&self) -> bool {
        wf_users(self@.users)
    }

    /// Relies on rusqlite's `Connection::execute` running a parameterized
    /// `INSERT INTO users`, and `Connection::last_insert_rowid` reporting the
    /// rowid it assigned. On success SQLite appends exactly one row, whose
    /// auto-assigned rowid is positive; `name`, `email` and `role` are bound
    /// non-null, so the only constraint the statement can violate is
    /// `UNIQUE(email)`: it fails with a constraint error exactly when the
    /// email is already stored, and a failed statement changes no row.
    #[verifier::external_body]
    fn insert_user_row(
        &mut self,
        name: &str,
        email: &str,
        role: &str,
        biotime_id: &Option<String>,
    ) -> (r: Result<i64, StoreError>)
        ensures
            final(self)@.records == old(self)@.records,
            match r {
                Ok(id) => {
                    &&& id > 0
                    &&& !has_user_with_email(old(self)@.users, email@)
                    &&& final(self)@.users == old(self)@.users.push(
                        (UserV {
                            id: id as int,
                            name: name@,
                            email: email@,
                            role: role@,
                            biotime_id: biotime_id.deep_view(),
                        }),
                    )
                },
                Err(StoreError::ConstraintViolation) => {
                    &&& final(self)@.users == old(self)@.users
                    &&& has_user_with_email(old(self)@.users, email@)
                },
                Err(StoreError::DatabaseError) => final(self)@.users == old(self)@.users,
                Err(_) => false,
            },
    {
        let res = self.conn.execute(
            "INSERT INTO users (name, email, role, biotime_id) VALUES (?1, ?2, ?3, ?4)",
            (name, email, role, biotime_id),
        );
        match res {
            Ok(_) => Ok(self.conn.last_insert_rowid()),
            Err(e) => match e.sqlite_error_code() {
                Some(rusqlite::ErrorCode::ConstraintViolation) => Err(
                    StoreError::ConstraintViolation,
                ),
                _ => Err(StoreError::DatabaseError),
            },
        }
    }

    /// Relies on rusqlite's `prepare`/`query_map` running
    /// `SELECT id, name, email, role, biotime_id FROM users ORDER BY id`:
    /// it returns every stored user row, in rowid order — insertion order,
    /// since the store's rowids are assigned in increasing order.
    #[verifier::external_body]
    fn fetch_user_rows(&self) -> (r: Result<Vec<User>, StoreError>)
        ensures
            match r {
                Ok(v) => v.deep_view() == self@.users,
                Err(e) => e == StoreError::DatabaseError,
            },
    {
        let q = "SELECT id, name, email, role, biotime_id FROM users ORDER BY id";
        let mut stmt = self.conn.prepare(q).map_err(|_e| StoreError::DatabaseError)?;
        let rows = stmt.query_map([], |row| {
            Ok(User { id: row.get(0)?, name: row.get(1)?, email: row.get(2)?, role: row.get(3)?, biotime_id: row.get(4)? })
        }).map_err(|_e| StoreError::DatabaseError)?;
        rows.collect::<Result<Vec<User>, rusqlite::Error>>().map_err(|_e| StoreError::DatabaseError)
    }

    /// Relies on rusqlite's `Connection::execute` running a parameterized
    /// `INSERT INTO attendance`, and `Connection::last_insert_rowid`. The
    /// column list omits `synced_with_biotime`, so SQLite stores its declared
    /// `DEFAULT FALSE`; the auto-assigned rowid is positive; the schema
    /// declares no enforced constraint on the bound values (SQLite leaves
    /// foreign keys unenforced unless switched on), and a failed statement
    /// changes no row.
    #[verifier::external_body]
    fn insert_attendance_row(
        &mut self,
        user_id: i64,
        check_in: i64,
        check_out: &Option<i64>,
        status: &str,
    ) -> (r: Result<i64, StoreError>)
        ensures
            final(self)@.users == old(self)@.users,
            match r {
                Ok(id) => {
                    &&& id > 0
                    &&& final(self)@.records == old(self)@.records.push(
                        (RecordV {
                            id: id as int,
                            user_id: user_id as int,
                            check_in: check_in as int,
                            check_out: opt_int_of(*check_out),
                            status: status@,
                            synced_with_biotime: false,
                        }),
                    )
                },
                Err(e) => {
                    &&& e == StoreError::DatabaseError
                    &&& final(self)@.records == old(self)@.records
                },
            },
    {
        let res = self.conn.execute(
            "INSERT INTO attendance (user_id, check_in, check_out, status) VALUES (?1, ?2, ?3, ?4)",
            (user_id, check_in, check_out, status),
        );
        match res {
            Ok(_) => Ok(self.conn.last_insert_rowid()),
            Err(_e) => Err(StoreError::DatabaseError),
        }
    }

    /// Relies on rusqlite's `prepare`/`query_map` running
    /// `SELECT id, user_id, check_in, check_out, status, synced_with_biotime
    /// FROM attendance ORDER BY id`: it returns every stored attendance row,
    /// in rowid order — insertion order, since the store's rowids are
    /// assigned in increasing order.
    #[verifier::external_body]
    fn fetch_attendance_rows(&self) -> (r: Result<Vec<AttendanceRecord>, StoreError>)
        ensures
            match r {
                Ok(v) => v.deep_view() == self@.records,
                Err(e) => e == StoreError::DatabaseError,
            },
    {
        let q = "SELECT id, user_id, check_in, check_out, status, synced_with_biotime FROM attendance ORDER BY id";
        let mut stmt = self.conn.prepare(q).map_err(|_e| StoreError::DatabaseError)?;
        let rows = stmt.query_map([], |row| {
            Ok(AttendanceRecord { id: row.get(0)?, user_id: row.get(1)?, check_in: row.get(2)?, check_out: row.get(3)?, status: row.get(4)?, synced_with_biotime: row.get(5)? })
        }).map_err(|_e| StoreError::DatabaseError)?;
        rows.collect::<Result<Vec<AttendanceRecord>, rusqlite::Error>>().map_err(|_e| StoreError::DatabaseError)
    }

    /// Opens or creates the database file `chrono_manager.db` inside
    /// `data_dir` — which must already exist — and ensures both tables
    /// exist; initializing an already initialized directory succeeds and
    /// alters no stored data. Every failure surfaces as
    /// `InitializationError`.
    pub fn init(data_dir: &str) -> (r: Result<Store, StoreError>)
        ensures
            match r {
                Ok(s) => s.wf(),
                Err(e) => e == StoreError::InitializationError,
            },
    {
        let path = db_path(data_dir);
        let conn = match open_connection(path.as_str()) {
            Ok(c) => c,
            Err(_) => {
                return Err(StoreError::InitializationError);
            },
        };
        match create_tables(&conn) {
            Ok(u) => u,
            Err(_) => {
                return Err(StoreError::InitializationError);
            },
        }
        Ok(store_from_connection(conn))
    }

    /// Durably inserts `user` under a fresh positive identifier; the given
    /// `user.id` is ignored. Fails with `ConstraintViolation`, storing
    /// nothing, when the email is already taken; any other failure is a
    /// `DatabaseError` and also stores nothing.
    pub fn add_user(&mut self, user: &User) -> (r: Result<(), StoreError>)
        requires
            old(self).wf(),
        ensures
            final(self).wf(),
            final(self)@.records == old(self)@.records,
            match r {
                Ok(()) => {
                    &&& !has_user_with_email(old(self)@.users, user@.email)
                    &&& exists|id: int|
                        id > 0 && final(self)@.users == old(self)@.users.push(
                            #[trigger] with_id(user@, id),
                        )
                },
                Err(StoreError::ConstraintViolation) => {
                    &&& final(self)@ == old(self)@
                    &&& has_user_with_email(old(self)@.users, user@.email)
                },
                Err(StoreError::DatabaseError) => final(self)@ == old(self)@,
                Err(_) => false,
            },
    {
        let r = self.insert_user_row(&user.name, &user.email, &user.role, &user.biotime_id);
        match r {
            Ok(id) => {
                proof {
                    assert(with_id(user@, id as int) =~= (UserV {
                        id: id as int,
                        name: user.name@,
                        email: user.email@,
                        role: user.role@,
                        biotime_id: user.biotime_id.deep_view(),
                    }));
                    lemma_wf_push(old(self)@.users, with_id(user@, id as int));
                    assert(self@.users == old(self)@.users.push(with_id(user@, id as int)));
                }
                Ok(())
            },
            Err(e) => {
                proof {
                    assert(self@ =~= old(self)@);
                }
                Err(e)
            },
        }
    }

    /// Returns the user carrying exactly `email`, every field as stored,
    /// under its assigned non-zero identifier. Fails with `NotFound` when no
    /// user carries the email, and with `DatabaseError` only when the
    /// underlying query fails.
    pub fn get_user_by_email(&self, email: &str) -> (r: Result<User, StoreError>)
        requires
            self.wf(),
        ensures
            match r {
                Ok(u) => {
                    &&& has_user_with_email(self@.users, email@)
                    &&& u@ == user_for_email(self@.users, email@)
                    &&& u@.email == email@
                    &&& u@.id > 0
                },
                Err(StoreError::NotFound) => !has_user_with_email(self@.users, email@),
                Err(StoreError::DatabaseError) => true,
                Err(_) => false,
            },
    {
        let rows = match self.fetch_user_rows() {
            Ok(v) => v,
            Err(_) => {
                return Err(StoreError::DatabaseError);
            },
        };
        let ghost users = self@.users;
        let mut i: usize = 0;
        while i < rows.len()
            invariant
                i <= rows.len(),
                rows.deep_view() == users,
                users == self@.users,
                wf_users(users),
                forall|k: int| 0 <= k < i ==> (#[trigger] users[k]).email != email@,
            decreases rows.len() - i,
        {
            assert(rows.deep_view()[i as int] == rows@[i as int]@);
            if str_eq(rows[i].email.as_str(), email) {
                let u = rows[i].clone();
                proof {
                    lemma_user_for_email_unique(users, i as int);
                }
                return Ok(u);
            }
            i += 1;
        }
        assert(forall|k: int|
            0 <= k < users.len() ==> (#[trigger] users[k]).email != email@) by {
            assert(forall|k: int|
                0 <= k < users.len() ==> users[k] == rows.deep_view()[k]);
        }
        Err(StoreError::NotFound)
    }

    /// Durably inserts `record` for `record.user_id` under a fresh positive
    /// identifier; the given `record.id` is ignored, and
    /// `synced_with_biotime` is stored as false whatever the caller passed.
    /// Any failure is a `DatabaseError` and stores nothing.
    pub fn add_attendance_record(&mut self, record: &AttendanceRecord) -> (r: Result<
        (),
        StoreError,
    >)
        ensures
            final(self)@.users == old(self)@.users,
            old(self).wf() ==> final(self).wf(),
            match r {
                Ok(()) => exists|id: int|
                    id > 0 && final(self)@.records == old(self)@.records.push(
                        #[trigger] as_stored(record@, id),
                    ),
                Err(e) => {
                    &&& e == StoreError::DatabaseError
                    &&& final(self)@ == old(self)@
                },
            },
    {
        let r = self.insert_attendance_row(
            record.user_id,
            record.check_in,
            &record.check_out,
            &record.status,
        );
        match r {
            Ok(id) => {
                proof {
                    assert(as_stored(record@, id as int) =~= (RecordV {
                        id: id as int,
                        user_id: record.user_id as int,
                        check_in: record.check_in as int,
                        check_out: opt_int_of(record.check_out),
                        status: record.status@,
                        synced_with_biotime: false,
                    }));
                }
                Ok(())
            },
            Err(e) => {
                proof {
                    assert(self@ =~= old(self)@);
                }
                Err(e)
            },
        }
    }

    /// Returns every attendance record of `user_id`, ordered by check-in
    /// time with the most recent first: exactly the rows the `attendance`
    /// table holds for that user, an empty vector — not an error — when
    /// there are none. Fails only with `DatabaseError`, and only when the
    /// underlying query fails.
    pub fn get_attendance_records(&self, user_id: i64) -> (r: Result<
        Vec<AttendanceRecord>,
        StoreError,
    >)
        ensures
            match r {
                Ok(v) => {
                    &&& sorted_by_check_in_desc(v.deep_view())
                    &&& v.deep_view().to_multiset() == records_for_user(
                        self@.records,
                        user_id as int,
                    ).to_multiset()
                },
                Err(e) => e == StoreError::DatabaseError,
            },
    {
        let rows = match self.fetch_attendance_rows() {
            Ok(v) => v,
            Err(_) => {
                return Err(StoreError::DatabaseError);
            },
        };
        let mine = filter_records(&rows, user_id);
        let sorted = sort_records_desc(mine);
        Ok(sorted)
    }
}

/// The records of one user, kept in the order they come in.
fn filter_records(rows: &Vec<AttendanceRecord>, user_id: i64) -> (r: Vec<AttendanceRecord>)
    ensures
        r.deep_view() == records_for_user(rows.deep_view(), user_id as int),
{
    let ghost all = rows.deep_view();
    let mut out: Vec<AttendanceRecord> = Vec::new();
    let mut i: usize = 0;
    while i < rows.len()
        invariant
            i <= rows.len(),
            all == rows.deep_view(),
            out.deep_view() == all.take(i as int).filter(is_for_user(user_id as int)),
        decreases rows.len() - i,
    {
        assert(rows.deep_view()[i as int] == rows@[i as int]@);
        proof {
            all.take(i as int).lemma_filter_push(all[i as int], is_for_user(user_id as int));
            assert(all.take(i + 1) =~= all.take(i as int).push(all[i as int]));
        }
        if rows[i].user_id == user_id {
            out.push(rows[i].clone());
        }
        i += 1;
    }
    proof {
        assert(all.take(rows.len() as int) =~= all);
    }
    out
}

/// Sorts a vector of records by check-in time, most recent first, by
/// insertion; the result holds exactly the given records.
fn sort_records_desc(v: Vec<AttendanceRecord>) -> (r: Vec<AttendanceRecord>)
    ensures
        sorted_by_check_in_desc(r.deep_view()),
        r.deep_view().to_multiset() == v.deep_view().to_multiset(),
{
    broadcast use vstd::seq_lib::group_to_multiset_ensures;

    let ghost all = v.deep_view();
    let mut out: Vec<AttendanceRecord> = Vec::new();
    let mut i: usize = 0;
    while i < v.len()
        invariant
            i <= v.len(),
            all == v.deep_view(),
            sorted_by_check_in_desc(out.deep_view()),
            out.deep_view().to_multiset() == all.take(i as int).to_multiset(),
        decreases v.len() - i,
    {
        assert(v.deep_view()[i as int] == v@[i as int]@);
        let x = v[i].clone();
        let mut j: usize = 0;
        while j < out.len() && out[j].check_in >= x.check_in
            invariant
                j <= out.len(),
                forall|k: int|
                    0 <= k < j ==> (#[trigger] out.deep_view()[k]).check_in >= x@.check_in,
            decreases out.len() - j,
        {
            assert(out.deep_view()[j as int] == out@[j as int]@);
            j += 1;
        }
        proof {
            if j < out.len() {
                assert(out.deep_view()[j as int] == out@[j as int]@);
            }
            lemma_sorted_insert_desc(out.deep_view(), j as int, x@);
        }
        let ghost prev = out.deep_view();
        out.insert(j, x);
        proof {
            assert(out.deep_view() =~= prev.insert(j as int, x@));
            vstd::seq_lib::to_multiset_insert(prev, j as int, x@);
            assert(all.take(i + 1) =~= all.take(i as int).push(all[i as int]));
            vstd::seq_lib::to_multiset_build(all.take(i as int), all[i as int]);
            assert(x@ == all[i as int]);
        }
        i += 1;
    }
    proof {
        assert(all.take(v.len() as int) =~= all);
    }
    out
}

} // verus!

