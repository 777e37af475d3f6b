use attendance_store::AttendanceRecord;
use attendance_store::Store;
use attendance_store::StoreError;
use attendance_store::User;

fn sample_user(email: &str) -> User {
    User {
        id: 0,
        name: String::from("Ada Lovelace"),
        email: String::from(email),
        role: String::from("engineer"),
        biotime_id: Some(String::from("bt-17")),
    }
}

fn sample_record(user_id: i64, check_in: i64) -> AttendanceRecord {
    AttendanceRecord {
        id: 0,
        user_id,
        check_in,
        check_out: Some(check_in + 480),
        status: String::from("present"),
        synced_with_biotime: false,
    }
}

#[test]
fn init_creates_database_file_and_tables() {
    let dir = tempfile::tempdir().unwrap();
    let _store = Store::init(dir.path().to_str().unwrap()).unwrap();
    let db_file = dir.path().join("chrono_manager.db");
    assert!(db_file.exists());

    let conn = rusqlite::Connection::open(&db_file).unwrap();
    let mut stmt = conn
        .prepare("SELECT name FROM sqlite_master WHERE type = 'table' ORDER BY name")
        .unwrap();
    let names: Vec<String> = stmt
        .query_map([], |row| row.get(0))
        .unwrap()
        .collect::<Result<Vec<String>, rusqlite::Error>>()
        .unwrap();
    assert!(names.iter().any(|n| n == "users"));
    assert!(names.iter().any(|n| n == "attendance"));
}

#[test]
fn init_twice_keeps_existing_data() {
    let dir = tempfile::tempdir().unwrap();
    let path = dir.path().to_str().unwrap();
    let mut store = Store::init(path).unwrap();
    store.add_user(&sample_user("a@x.com")).unwrap();

    let again = Store::init(path).unwrap();
    let found = again.get_user_by_email("a@x.com").unwrap();
    assert_eq!(found.name, "Ada Lovelace");
    assert_eq!(found.email, "a@x.com");
}

#[test]
fn duplicate_email_is_constraint_violation() {
    let dir = tempfile::tempdir().unwrap();
    let mut store = Store::init(dir.path().to_str().unwrap()).unwrap();
    store.add_user(&sample_user("a@x.com")).unwrap();

    let mut second = sample_user("a@x.com");
    second.name = String::from("Someone Else");
    let r = store.add_user(&second);
    assert!(matches!(r, Err(StoreError::ConstraintViolation)));

    let kept = store.get_user_by_email("a@x.com").unwrap();
    assert_eq!(kept.name, "Ada Lovelace");
}

#[test]
fn missing_email_is_not_found() {
    let dir = tempfile::tempdir().unwrap();
    let store = Store::init(dir.path().to_str().unwrap()).unwrap();
    let r = store.get_user_by_email("nobody@x.com");
    assert!(matches!(r, Err(StoreError::NotFound)));
}

#[test]
fn user_round_trip_matches_fields() {
    let dir = tempfile::tempdir().unwrap();
    let mut store = Store::init(dir.path().to_str().unwrap()).unwrap();
    store.add_user(&sample_user("ada@x.com")).unwrap();

    let found = store.get_user_by_email("ada@x.com").unwrap();
    assert_ne!(found.id, 0);
    assert!(found.id > 0);
    assert_eq!(found.name, "Ada Lovelace");
    assert_eq!(found.email, "ada@x.com");
    assert_eq!(found.role, "engineer");
    assert_eq!(found.biotime_id.as_deref(), Some("bt-17"));
}

#[test]
fn user_round_trip_without_biotime_id() {
    let dir = tempfile::tempdir().unwrap();
    let mut store = Store::init(dir.path().to_str().unwrap()).unwrap();
    let mut u = sample_user("no-bt@x.com");
    u.biotime_id = None;
    store.add_user(&u).unwrap();

    let found = store.get_user_by_email("no-bt@x.com").unwrap();
    assert_eq!(found.biotime_id, None);
}

#[test]
fn attendance_sorted_newest_first() {
    let dir = tempfile::tempdir().unwrap();
    let mut store = Store::init(dir.path().to_str().unwrap()).unwrap();
    store.add_user(&sample_user("t@x.com")).unwrap();
    let user = store.get_user_by_email("t@x.com").unwrap();

    // T1 < T2 < T3, inserted out of order.
    store.add_attendance_record(&sample_record(user.id, 2000)).unwrap();
    store.add_attendance_record(&sample_record(user.id, 1000)).unwrap();
    store.add_attendance_record(&sample_record(user.id, 3000)).unwrap();

    let records = store.get_attendance_records(user.id).unwrap();
    let times: Vec<i64> = records.iter().map(|r| r.check_in).collect();
    assert_eq!(times, vec![3000, 2000, 1000]);
}

#[test]
fn no_records_is_empty_not_error() {
    let dir = tempfile::tempdir().unwrap();
    let mut store = Store::init(dir.path().to_str().unwrap()).unwrap();
    store.add_user(&sample_user("idle@x.com")).unwrap();
    let user = store.get_user_by_email("idle@x.com").unwrap();

    let records = store.get_attendance_records(user.id).unwrap();
    assert!(records.is_empty());
}

#[test]
fn synced_flag_always_false_on_insert() {
    let dir = tempfile::tempdir().unwrap();
    let mut store = Store::init(dir.path().to_str().unwrap()).unwrap();
    store.add_user(&sample_user("s@x.com")).unwrap();
    let user = store.get_user_by_email("s@x.com").unwrap();

    let mut rec = sample_record(user.id, 500);
    rec.synced_with_biotime = true;
    store.add_attendance_record(&rec).unwrap();

    let records = store.get_attendance_records(user.id).unwrap();
    assert_eq!(records.len(), 1);
    assert!(!records[0].synced_with_biotime);
}

#[test]
fn record_round_trip_matches_fields() {
    let dir = tempfile::tempdir().unwrap();
    let mut store = Store::init(dir.path().to_str().unwrap()).unwrap();
    store.add_user(&sample_user("r@x.com")).unwrap();
    let user = store.get_user_by_email("r@x.com").unwrap();

    let mut open_session = sample_record(user.id, 700);
    open_session.check_out = None;
    open_session.status = String::from("late");
    store.add_attendance_record(&open_session).unwrap();

    let records = store.get_attendance_records(user.id).unwrap();
    assert_eq!(records.len(), 1);
    let got = &records[0];
    assert!(got.id > 0);
    assert_eq!(got.user_id, user.id);
    assert_eq!(got.check_in, 700);
    assert_eq!(got.check_out, None);
    assert_eq!(got.status, "late");
    assert!(!got.synced_with_biotime);
}

#[test]
fn records_are_filtered_by_user() {
    let dir = tempfile::tempdir().unwrap();
    let mut store = Store::init(dir.path().to_str().unwrap()).unwrap();
    store.add_user(&sample_user("one@x.com")).unwrap();
    store.add_user(&sample_user("two@x.com")).unwrap();
    let one = store.get_user_by_email("one@x.com").unwrap();
    let two = store.get_user_by_email("two@x.com").unwrap();

    store.add_attendance_record(&sample_record(one.id, 100)).unwrap();
    store.add_attendance_record(&sample_record(two.id, 200)).unwrap();
    store.add_attendance_record(&sample_record(one.id, 300)).unwrap();

    let records = store.get_attendance_records(one.id).unwrap();
    let times: Vec<i64> = records.iter().map(|r| r.check_in).collect();
    assert_eq!(times, vec![300, 100]);
    assert!(records.iter().all(|r| r.user_id == one.id));
}

#[test]
fn init_fails_without_directory() {
    let dir = tempfile::tempdir().unwrap();
    let missing = dir.path().join("does").join("not").join("exist");
    let r = Store::init(missing.to_str().unwrap());
    assert!(matches!(r, Err(StoreError::InitializationError)));
}

#[test]
fn foreign_schema_gives_database_error() {
    let dir = tempfile::tempdir().unwrap();
    let db_file = dir.path().join("chrono_manager.db");
    {
        let conn = rusqlite::Connection::open(&db_file).unwrap();
        conn.execute("CREATE TABLE users (wrong TEXT)", []).unwrap();
    }
    let mut store = Store::init(dir.path().to_str().unwrap()).unwrap();
    let r = store.add_user(&sample_user("a@x.com"));
    assert!(matches!(r, Err(StoreError::DatabaseError)));
}
