use spord_tracker::errors::SqlError;
use spord_tracker::models::SpordRecord;
use spord_tracker::models::SpordState;
use spord_tracker::rows::RawValue;
use spord_tracker::rows::SpordFields;
use spord_tracker::rows::SpordRow;
use spord_tracker::rows::decode_row;
use spord_tracker::rows::encode_record;
use spord_tracker::store::Db;

fn sample_record(name: &str, part: &str) -> SpordRecord {
    SpordRecord {
        id: 0,
        customer_name: name.to_string(),
        customer_phone: None,
        customer_email: Some("hello@example.com".to_string()),
        part: part.to_string(),
        state: SpordState::Ordered,
        creation_date: 1_700_000_000,
        received_date: None,
        comments: Some("test field".to_string()),
    }
}

#[test]
fn create_then_login_same_password_is_true() {
    let mut db = Db::new();
    db.user_create("alice", "hunter2").unwrap();
    assert_eq!(db.user_login("alice", "hunter2"), Ok(true));
}

#[test]
fn create_then_login_other_password_is_false() {
    let mut db = Db::new();
    db.user_create("alice", "hunter2").unwrap();
    assert_eq!(db.user_login("alice", "hunter3"), Ok(false));
    assert_eq!(db.user_login("alice", ""), Ok(false));
}

#[test]
fn login_unknown_user_is_false_not_error() {
    let db = Db::new();
    assert_eq!(db.user_login("nobody", "whatever"), Ok(false));
    let mut db2 = Db::new();
    db2.user_create("alice", "hunter2").unwrap();
    assert_eq!(db2.user_login("bob", "hunter2"), Ok(false));
}

#[test]
fn duplicate_user_fails_and_keeps_first_row() {
    let mut db = Db::new();
    db.user_create("alice", "first-password").unwrap();
    assert_eq!(
        db.user_create("alice", "second-password"),
        Err(SqlError::DuplicateUser)
    );
    // The stored hash is still the first one: the first password verifies,
    // the second does not.
    assert_eq!(db.user_login("alice", "first-password"), Ok(true));
    assert_eq!(db.user_login("alice", "second-password"), Ok(false));
}

#[test]
fn checked_create_rejects_mismatched_passwords() {
    let mut db = Db::new();
    assert_eq!(
        db.user_create_checked("alice", "one", "two"),
        Err(SqlError::PasswordMismatch)
    );
    assert_eq!(db.user_login("alice", "one"), Ok(false));
    db.user_create_checked("alice", "one", "one").unwrap();
    assert_eq!(db.user_login("alice", "one"), Ok(true));
}

#[test]
fn create_then_list_contains_record_with_assigned_id() {
    let mut db = Db::new();
    let record = sample_record("bob", "TRA9780");
    let id = db.spord_create(&record).unwrap();
    assert_eq!(id, 1);
    let (listed, skipped) = db.spord_get_all();
    assert_eq!(skipped, 0);
    assert_eq!(listed.len(), 1);
    let got = &listed[0];
    assert_eq!(got.id, id);
    assert_eq!(got.customer_name, record.customer_name);
    assert_eq!(got.customer_phone, record.customer_phone);
    assert_eq!(got.customer_email, record.customer_email);
    assert_eq!(got.part, record.part);
    assert_eq!(got.state, record.state);
    assert_eq!(got.creation_date, record.creation_date);
    assert_eq!(got.received_date, record.received_date);
    assert_eq!(got.comments, record.comments);
}

#[test]
fn update_changes_only_the_targeted_row() {
    let mut db = Db::new();
    let first = sample_record("bob", "TRA9780");
    let second = sample_record("carol", "BRK0042");
    let first_id = db.spord_create(&first).unwrap();
    let second_id = db.spord_create(&second).unwrap();
    assert_ne!(first_id, second_id);

    let mut changed = sample_record("carol", "BRK0042");
    changed.id = second_id;
    changed.customer_phone = Some("555-0199".to_string());
    changed.state = SpordState::Received;
    changed.received_date = Some(1_700_000_500);
    db.spord_update(&changed).unwrap();

    let (listed, skipped) = db.spord_get_all();
    assert_eq!(skipped, 0);
    assert_eq!(listed.len(), 2);
    // The untargeted row is unchanged, field for field.
    let untouched = listed.iter().find(|r| r.id == first_id).unwrap();
    assert_eq!(untouched.customer_name, first.customer_name);
    assert_eq!(untouched.customer_phone, first.customer_phone);
    assert_eq!(untouched.customer_email, first.customer_email);
    assert_eq!(untouched.part, first.part);
    assert_eq!(untouched.state, first.state);
    assert_eq!(untouched.creation_date, first.creation_date);
    assert_eq!(untouched.received_date, first.received_date);
    assert_eq!(untouched.comments, first.comments);
    // The targeted row carries the rewrite.
    let touched = listed.iter().find(|r| r.id == second_id).unwrap();
    assert_eq!(touched.customer_phone, Some("555-0199".to_string()));
    assert_eq!(touched.state, SpordState::Received);
    assert_eq!(touched.received_date, Some(1_700_000_500));
}

#[test]
fn update_of_missing_id_is_not_found_and_changes_nothing() {
    let mut db = Db::new();
    let id = db.spord_create(&sample_record("bob", "TRA9780")).unwrap();
    let mut missing = sample_record("mallory", "ZRK0000");
    missing.id = id + 7;
    assert_eq!(db.spord_update(&missing), Err(SqlError::NotFound));
    let (listed, skipped) = db.spord_get_all();
    assert_eq!(skipped, 0);
    assert_eq!(listed.len(), 1);
    assert_eq!(listed[0].customer_name, "bob".to_string());
}

fn well_typed_fields(state: RawValue) -> SpordFields {
    SpordFields {
        name: RawValue::Text("dana".to_string()),
        phone: RawValue::Null,
        email: RawValue::Null,
        part: RawValue::Text("CBL0007".to_string()),
        state,
        created: RawValue::Int(1_700_000_000),
        received: RawValue::Null,
        comments: RawValue::Null,
    }
}

#[test]
fn out_of_range_state_code_decodes_to_other() {
    let row = SpordRow {
        id: 3,
        fields: well_typed_fields(RawValue::Int(99)),
    };
    let record = decode_row(&row).unwrap();
    assert_eq!(record.state, SpordState::Other);
    assert_eq!(record.id, 3);
}

#[test]
fn out_of_range_state_code_does_not_abort_listing() {
    let mut db = Db::new();
    db.insert_fields(well_typed_fields(RawValue::Int(99))).unwrap();
    db.spord_create(&sample_record("bob", "TRA9780")).unwrap();
    let (listed, skipped) = db.spord_get_all();
    assert_eq!(skipped, 0);
    assert_eq!(listed.len(), 2);
    assert_eq!(listed[0].state, SpordState::Other);
    assert_eq!(listed[1].state, SpordState::Ordered);
}

#[test]
fn malformed_row_is_skipped_and_counted_not_fatal() {
    let mut db = Db::new();
    db.spord_create(&sample_record("bob", "TRA9780")).unwrap();
    // A row whose name column is null cannot decode into a record.
    let mut bad = well_typed_fields(RawValue::Int(1));
    bad.name = RawValue::Null;
    db.insert_fields(bad).unwrap();
    db.spord_create(&sample_record("carol", "BRK0042")).unwrap();
    let (listed, skipped) = db.spord_get_all();
    assert_eq!(skipped, 1);
    assert_eq!(listed.len(), 2);
    assert_eq!(listed[0].customer_name, "bob".to_string());
    assert_eq!(listed[1].customer_name, "carol".to_string());
}

#[test]
fn decode_rejects_each_malformed_column() {
    let good = well_typed_fields(RawValue::Int(1));
    let check = |fields: SpordFields| {
        assert_eq!(
            decode_row(&SpordRow { id: 1, fields }).unwrap_err(),
            SqlError::DecodeError
        );
    };
    let mut f = good.clone();
    f.name = RawValue::Int(4);
    check(f);
    let mut f = good.clone();
    f.phone = RawValue::Int(4);
    check(f);
    let mut f = good.clone();
    f.part = RawValue::Null;
    check(f);
    let mut f = good.clone();
    f.state = RawValue::Text("Ordered".to_string());
    check(f);
    let mut f = good.clone();
    f.state = RawValue::Int(i64::from(i32::MAX) + 1);
    check(f);
    let mut f = good.clone();
    f.created = RawValue::Null;
    check(f);
    let mut f = good.clone();
    f.received = RawValue::Text("yesterday".to_string());
    check(f);
    let mut f = good.clone();
    f.comments = RawValue::Int(0);
    check(f);
}

#[test]
fn encode_then_decode_round_trips_every_field() {
    let mut record = sample_record("erin", "FLT0psi");
    record.customer_phone = Some("555-0100".to_string());
    record.received_date = Some(1_700_000_999);
    record.state = SpordState::Pending;
    let row = SpordRow {
        id: 12,
        fields: encode_record(&record),
    };
    let back = decode_row(&row).unwrap();
    assert_eq!(back.id, 12);
    assert_eq!(back.customer_name, record.customer_name);
    assert_eq!(back.customer_phone, record.customer_phone);
    assert_eq!(back.customer_email, record.customer_email);
    assert_eq!(back.part, record.part);
    assert_eq!(back.state, record.state);
    assert_eq!(back.creation_date, record.creation_date);
    assert_eq!(back.received_date, record.received_date);
    assert_eq!(back.comments, record.comments);
}

#[test]
fn end_to_end_create_update_list() {
    let mut db = Db::new();
    let order = SpordRecord {
        id: 0,
        customer_name: "bob".to_string(),
        customer_phone: None,
        customer_email: Some("hello@example.com".to_string()),
        part: "TRA9780".to_string(),
        state: SpordState::Ordered,
        creation_date: 1_700_000_000,
        received_date: None,
        comments: Some("test field".to_string()),
    };
    let id = db.spord_create(&order).unwrap();

    let mut updated = order.clone();
    updated.id = id;
    updated.customer_phone = Some("test phone number!".to_string());
    updated.state = SpordState::Received;
    updated.received_date = Some(1_700_001_234);
    db.spord_update(&updated).unwrap();

    let (listed, skipped) = db.spord_get_all();
    assert_eq!(skipped, 0);
    assert_eq!(listed.len(), 1);
    let got = &listed[0];
    assert_eq!(got.id, id);
    assert_eq!(got.customer_phone, Some("test phone number!".to_string()));
    assert_eq!(got.state, SpordState::Received);
    assert_eq!(got.received_date, Some(1_700_001_234));
    assert_eq!(got.customer_name, "bob".to_string());
    assert_eq!(got.customer_email, Some("hello@example.com".to_string()));
    assert_eq!(got.comments, Some("test field".to_string()));
}

#[test]
fn state_codes_are_exact() {
    assert_eq!(SpordState::Pending.as_sql(), 1);
    assert_eq!(SpordState::Ordered.as_sql(), 2);
    assert_eq!(SpordState::Received.as_sql(), 3);
    assert_eq!(SpordState::Other.as_sql(), 0);
    assert_eq!(SpordState::from_sql(1), SpordState::Pending);
    assert_eq!(SpordState::from_sql(2), SpordState::Ordered);
    assert_eq!(SpordState::from_sql(3), SpordState::Received);
    assert_eq!(SpordState::from_sql(0), SpordState::Other);
    assert_eq!(SpordState::from_sql(99), SpordState::Other);
    assert_eq!(SpordState::from_sql(-1), SpordState::Other);
}

#[test]
fn received_date_unix_mirrors_the_field() {
    let mut record = sample_record("bob", "TRA9780");
    assert_eq!(record.received_date_unix(), None);
    record.received_date = Some(1_700_000_500);
    assert_eq!(record.received_date_unix(), Some(1_700_000_500));
}

#[test]
fn schema_statements_name_both_tables() {
    let auth = spord_tracker::store::auth_table_sql();
    assert!(auth.contains("CREATE TABLE auth"));
    assert!(auth.contains("username TEXT PRIMARY KEY"));
    let spords = spord_tracker::store::spords_table_sql();
    assert!(spords.contains("CREATE TABLE spords"));
    assert!(spords.contains("id INTEGER PRIMARY KEY AUTOINCREMENT"));
}
