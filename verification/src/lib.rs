//! A persistence layer for a desktop attendance-tracking application.
//!
//! The store owns a single connection to an embedded file-backed SQLite
//! database holding two tables, `users` and `attendance`, and offers four
//! operations: insert a user, look a user up by its unique email, insert an
//! attendance record, and list the attendance records of one user ordered by
//! check-in time, newest first.
//!
//! Each operation's contract is stated against a ghost model of the two
//! tables; the SQL statements themselves run behind small trusted wrappers.

pub mod data;
pub mod laws;
pub mod store;

pub use data::AttendanceRecord;
pub use data::StoreError;
pub use data::User;
pub use store::Store;
