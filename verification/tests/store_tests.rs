use config_store::commands::delete_cmd;
use config_store::commands::drop_cmd;
use config_store::commands::exists_cmd;
use config_store::commands::get_cmd;
use config_store::commands::list_cmd;
use config_store::commands::new;
use config_store::commands::set_cmd;
use config_store::commands::toggle_cmd;
use config_store::commands::StoreError;
use config_store::entry::Entry;
use config_store::store::Store;

fn create_db() -> Store {
    Store::open_in_memory().expect("Failed to open in-memory store")
}

#[test]
fn insert_and_drop() {
    let mut store = create_db();

    new(
        &mut store,
        "test1".to_string(),
        "value1".to_string(),
        "alternate1".to_string(),
    )
    .unwrap();

    assert_eq!(
        list_cmd(&store, false).unwrap(),
        format!(
            "{:?}\n",
            Entry {
                _id: 1,
                name: "test1".to_string(),
                value: "value1".to_string(),
                alternate: "alternate1".to_string(),
            }
        )
    );

    drop_cmd(&mut store).unwrap();
}

#[test]
fn insert_and_exists() {
    let mut store = create_db();

    assert_eq!(exists_cmd(&store, "test1".to_string()).unwrap(), "false");

    new(
        &mut store,
        "test1".to_string(),
        "value1".to_string(),
        "alternate1".to_string(),
    )
    .unwrap();

    assert_eq!(exists_cmd(&store, "test1".to_string()).unwrap(), "true");
}

#[test]
fn insert_and_get() {
    let mut store = create_db();

    new(
        &mut store,
        "test1".to_string(),
        "value1".to_string(),
        "alternate1".to_string(),
    )
    .unwrap();

    assert_eq!(
        get_cmd(&store, "test1".to_string(), false, false, false).unwrap(),
        format!("{} {}", "value1", "alternate1")
    );
}

#[test]
fn set_creates_and_exists_flips() {
    let mut store = create_db();

    assert_eq!(exists_cmd(&store, "k".to_string()).unwrap(), "false");
    let r = set_cmd(
        &mut store,
        "k".to_string(),
        Some("v".to_string()),
        Some("a".to_string()),
        false,
    )
    .unwrap();
    assert_eq!(r, "Ok");
    assert_eq!(exists_cmd(&store, "k".to_string()).unwrap(), "true");
}

#[test]
fn set_then_get_full() {
    let mut store = create_db();

    set_cmd(
        &mut store,
        "k".to_string(),
        Some("v".to_string()),
        Some("a".to_string()),
        false,
    )
    .unwrap();
    assert_eq!(
        get_cmd(&store, "k".to_string(), false, false, false).unwrap(),
        "v a"
    );
}

#[test]
fn set_updates_and_keeps_missing_fields() {
    let mut store = create_db();

    set_cmd(
        &mut store,
        "k".to_string(),
        Some("v1".to_string()),
        Some("a1".to_string()),
        false,
    )
    .unwrap();
    set_cmd(
        &mut store,
        "k".to_string(),
        Some("v2".to_string()),
        None,
        false,
    )
    .unwrap();
    assert_eq!(
        get_cmd(&store, "k".to_string(), false, false, false).unwrap(),
        "v2 a1"
    );
    set_cmd(
        &mut store,
        "k".to_string(),
        None,
        Some("a2".to_string()),
        false,
    )
    .unwrap();
    assert_eq!(
        get_cmd(&store, "k".to_string(), false, false, false).unwrap(),
        "v2 a2"
    );
}

#[test]
fn set_without_payloads_creates_empty_entry() {
    let mut store = create_db();

    set_cmd(&mut store, "k".to_string(), None, None, false).unwrap();
    assert_eq!(
        get_cmd(&store, "k".to_string(), false, false, false).unwrap(),
        " "
    );
}

#[test]
fn toggle_twice_restores_value() {
    let mut store = create_db();

    set_cmd(
        &mut store,
        "k".to_string(),
        Some("v".to_string()),
        Some("a".to_string()),
        false,
    )
    .unwrap();
    assert_eq!(toggle_cmd(&mut store, "k".to_string()).unwrap(), "a");
    assert_eq!(toggle_cmd(&mut store, "k".to_string()).unwrap(), "v");
    assert_eq!(
        get_cmd(&store, "k".to_string(), false, false, false).unwrap(),
        "v a"
    );
}

#[test]
fn change_only_on_missing_fails_and_creates_nothing() {
    let mut store = create_db();

    let r = set_cmd(
        &mut store,
        "missing".to_string(),
        Some("v".to_string()),
        None,
        true,
    );
    assert!(matches!(r, Err(StoreError::NoEntry)));
    assert_eq!(exists_cmd(&store, "missing".to_string()).unwrap(), "false");
}

#[test]
fn delete_missing_is_ok() {
    let mut store = create_db();

    assert_eq!(delete_cmd(&mut store, "missing".to_string()).unwrap(), "Ok");
    assert_eq!(exists_cmd(&store, "missing".to_string()).unwrap(), "false");
}

#[test]
fn drop_then_list_is_empty() {
    let mut store = create_db();

    set_cmd(
        &mut store,
        "k1".to_string(),
        Some("v1".to_string()),
        None,
        false,
    )
    .unwrap();
    set_cmd(
        &mut store,
        "k2".to_string(),
        None,
        Some("a2".to_string()),
        false,
    )
    .unwrap();
    assert_eq!(drop_cmd(&mut store).unwrap(), "Ok");
    assert_eq!(list_cmd(&store, false).unwrap(), "");
    assert_eq!(list_cmd(&store, true).unwrap(), "");
}

#[test]
fn feature_toggle_scenario() {
    let mut store = create_db();

    set_cmd(
        &mut store,
        "feature_x".to_string(),
        Some("off".to_string()),
        Some("on".to_string()),
        false,
    )
    .unwrap();
    assert_eq!(
        get_cmd(&store, "feature_x".to_string(), false, false, false).unwrap(),
        "off on"
    );
    assert_eq!(toggle_cmd(&mut store, "feature_x".to_string()).unwrap(), "on");
    assert_eq!(
        get_cmd(&store, "feature_x".to_string(), true, false, false).unwrap(),
        "on"
    );
    assert_eq!(delete_cmd(&mut store, "feature_x".to_string()).unwrap(), "Ok");
    assert_eq!(exists_cmd(&store, "feature_x".to_string()).unwrap(), "false");
}

#[test]
fn get_missing_json_fails_with_no_entry() {
    let store = create_db();

    let r = get_cmd(&store, "missing".to_string(), false, false, true);
    assert!(matches!(r, Err(StoreError::NoEntry)));
}

#[test]
fn toggle_missing_fails_with_no_entry() {
    let mut store = create_db();

    let r = toggle_cmd(&mut store, "missing".to_string());
    assert!(matches!(r, Err(StoreError::NoEntry)));
}

#[test]
fn list_json_single_entry_exact_line() {
    let mut store = create_db();

    set_cmd(
        &mut store,
        "a".to_string(),
        Some("v".to_string()),
        Some("w".to_string()),
        false,
    )
    .unwrap();
    assert_eq!(
        list_cmd(&store, true).unwrap(),
        "{ \"_id\": \"1\", \"name\": \"a\", \"value\": \"v\", \"alternate\": \"w\" }\n"
    );
}

#[test]
fn get_json_matches_entry_json() {
    let mut store = create_db();

    set_cmd(
        &mut store,
        "a".to_string(),
        Some("v".to_string()),
        Some("w".to_string()),
        false,
    )
    .unwrap();
    assert_eq!(
        get_cmd(&store, "a".to_string(), false, false, true).unwrap(),
        "{ \"_id\": \"1\", \"name\": \"a\", \"value\": \"v\", \"alternate\": \"w\" }"
    );
}

#[test]
fn entry_json_renders_negative_id() {
    let e = Entry {
        _id: -57,
        name: "n".to_string(),
        value: "v".to_string(),
        alternate: "a".to_string(),
    };
    assert_eq!(
        e.json(),
        "{ \"_id\": \"-57\", \"name\": \"n\", \"value\": \"v\", \"alternate\": \"a\" }"
    );
}

#[test]
fn entry_display_string_matches_derived_debug() {
    let e = Entry {
        _id: 12,
        name: "with \"quotes\"".to_string(),
        value: "tab\there".to_string(),
        alternate: "plain".to_string(),
    };
    assert_eq!(e.display_string(), format!("{:?}", e));
}

#[test]
fn list_preserves_insertion_order() {
    let mut store = create_db();

    new(
        &mut store,
        "first".to_string(),
        "1".to_string(),
        "one".to_string(),
    )
    .unwrap();
    new(
        &mut store,
        "second".to_string(),
        "2".to_string(),
        "two".to_string(),
    )
    .unwrap();
    let expected = format!(
        "{}\n{}\n",
        "{ \"_id\": \"1\", \"name\": \"first\", \"value\": \"1\", \"alternate\": \"one\" }",
        "{ \"_id\": \"2\", \"name\": \"second\", \"value\": \"2\", \"alternate\": \"two\" }"
    );
    assert_eq!(list_cmd(&store, true).unwrap(), expected);
}

#[test]
fn get_value_only_and_alternate_only() {
    let mut store = create_db();

    set_cmd(
        &mut store,
        "k".to_string(),
        Some("v".to_string()),
        Some("a".to_string()),
        false,
    )
    .unwrap();
    assert_eq!(
        get_cmd(&store, "k".to_string(), true, false, false).unwrap(),
        "v"
    );
    assert_eq!(
        get_cmd(&store, "k".to_string(), false, true, false).unwrap(),
        "a"
    );
}

#[test]
fn delete_then_recreate_gets_fresh_id() {
    let mut store = create_db();

    new(
        &mut store,
        "a".to_string(),
        "v".to_string(),
        "w".to_string(),
    )
    .unwrap();
    delete_cmd(&mut store, "a".to_string()).unwrap();
    assert_eq!(list_cmd(&store, true).unwrap(), "");
    new(
        &mut store,
        "b".to_string(),
        "x".to_string(),
        "y".to_string(),
    )
    .unwrap();
    assert_eq!(exists_cmd(&store, "b".to_string()).unwrap(), "true");
}

#[test]
fn duplicate_names_first_match_wins() {
    let conn = rusqlite::Connection::open_in_memory().unwrap();
    conn.execute(
        "CREATE TABLE data (id INTEGER PRIMARY KEY, name TEXT, value TEXT, alternate TEXT);",
        [],
    )
    .unwrap();
    conn.execute(
        "INSERT INTO data (name, value, alternate) VALUES ('k','v1','a1'),('k','v2','a2')",
        [],
    )
    .unwrap();
    let mut store = Store::attach(conn).unwrap();

    assert_eq!(
        get_cmd(&store, "k".to_string(), false, false, false).unwrap(),
        "v1 a1"
    );
    // toggle reads the first match and rewrites every row with that name
    assert_eq!(toggle_cmd(&mut store, "k".to_string()).unwrap(), "a1");
    let expected = format!(
        "{}\n{}\n",
        "{ \"_id\": \"1\", \"name\": \"k\", \"value\": \"a1\", \"alternate\": \"v1\" }",
        "{ \"_id\": \"2\", \"name\": \"k\", \"value\": \"a1\", \"alternate\": \"v1\" }"
    );
    assert_eq!(list_cmd(&store, true).unwrap(), expected);
}

#[test]
fn empty_name_is_a_key() {
    let mut store = create_db();

    assert_eq!(exists_cmd(&store, String::new()).unwrap(), "false");
    set_cmd(
        &mut store,
        String::new(),
        Some("v".to_string()),
        Some("a".to_string()),
        false,
    )
    .unwrap();
    assert_eq!(exists_cmd(&store, String::new()).unwrap(), "true");
    assert_eq!(
        get_cmd(&store, String::new(), false, false, false).unwrap(),
        "v a"
    );
}

#[test]
fn attach_keeps_existing_rows() {
    let conn = rusqlite::Connection::open_in_memory().unwrap();
    conn.execute(
        "CREATE TABLE data (id INTEGER PRIMARY KEY, name TEXT, value TEXT, alternate TEXT);",
        [],
    )
    .unwrap();
    conn.execute(
        "INSERT INTO data (name, value, alternate) VALUES ('k', 'v', 'a')",
        [],
    )
    .unwrap();
    let store = Store::attach(conn).unwrap();
    assert_eq!(
        get_cmd(&store, "k".to_string(), false, false, false).unwrap(),
        "v a"
    );
}

#[test]
fn broken_table_surfaces_storage_error() {
    // A connection where `data` is a read-only view: writes must surface the
    // underlying storage error rather than `NoEntry`.
    let conn = rusqlite::Connection::open_in_memory().unwrap();
    conn.execute(
        "CREATE VIEW data AS SELECT 1 AS id, 'n' AS name, 'v' AS value, 'a' AS alternate",
        [],
    )
    .unwrap();
    match Store::attach(conn) {
        Ok(mut store) => {
            let r = set_cmd(
                &mut store,
                "n".to_string(),
                Some("v2".to_string()),
                None,
                false,
            );
            assert!(matches!(r, Err(StoreError::RusqliteError(_))));
        }
        Err(_) => {
            // Attaching may itself refuse the clashing object; that is also a
            // surfaced storage error, not a silent success.
        }
    }
}
