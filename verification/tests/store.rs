use std::path::PathBuf;

use keycraft::database::{
    add_key, delete_key_by_id, get_all_keys, init, listing, settle, update_key, DbConnection,
};
use keycraft::rows::StoredRow;
use keycraft::error::CoreError;
use keycraft::models::ApiKey;

fn open_store() -> DbConnection {
    DbConnection(Some(init(&PathBuf::from(":memory:")).unwrap()))
}

fn draft(name: &str, value: &str) -> ApiKey {
    ApiKey {
        id: String::new(),
        name: name.to_string(),
        vendor: "OpenAI".to_string(),
        value: value.to_string(),
        masked_value: String::new(),
        base_url: None,
        doc_url: None,
        code_snippets: None,
        tags: None,
        notes: None,
        created_at: String::new(),
        updated_at: String::new(),
    }
}

fn is_identifier(text: &str) -> bool {
    text.len() == 36
        && text.char_indices().all(|(i, c)| match i {
            8 | 13 | 18 | 23 => c == '-',
            _ => c.is_ascii_digit() || ('a'..='f').contains(&c),
        })
        && text.as_bytes()[14] == b'4'
}

#[test]
fn add_returns_the_populated_record() {
    let store = open_store();
    let record = add_key(&store, draft("OpenAI", "sk-ABCDEFGHIJKL")).unwrap();
    assert_eq!(record.masked_value, "sk-...IJKL");
    assert!(!record.id.is_empty());
    assert_eq!(record.created_at, record.updated_at);
    assert_eq!(record.name, "OpenAI");
    assert_eq!(record.vendor, "OpenAI");
    assert_eq!(record.value, "sk-ABCDEFGHIJKL");
}

#[test]
fn add_masks_a_short_secret() {
    let store = open_store();
    let record = add_key(&store, draft("", "short")).unwrap();
    assert_eq!(record.masked_value, "***");
}

#[test]
fn add_assigns_a_hyphenated_identifier() {
    let store = open_store();
    let first = add_key(&store, draft("a", "secret-one")).unwrap();
    let second = add_key(&store, draft("b", "secret-two")).unwrap();
    assert!(is_identifier(&first.id));
    assert!(is_identifier(&second.id));
    assert_ne!(first.id, second.id);
}

fn is_timestamp(text: &str) -> bool {
    let chars: Vec<char> = text.chars().collect();
    let split = match chars.iter().position(|c| *c == 'T') {
        Some(split) if split >= 10 => split,
        _ => return false,
    };
    if chars.len() < split + 15 || !text.ends_with("+00:00") {
        return false;
    }
    let end = chars.len() - 6;
    let fraction = end - (split + 9);
    let separators = [(split - 6, '-'), (split - 3, '-'), (split + 3, ':'), (split + 6, ':')];
    let laid_out = (split - 10..split + 9).all(|i| {
        match separators.iter().find(|(at, _)| *at == i) {
            Some((_, mark)) => chars[i] == *mark,
            None => i == split || chars[i].is_ascii_digit(),
        }
    });
    let fraction_fits = match fraction {
        0 => true,
        4 | 7 | 10 => chars[split + 9] == '.' && chars[split + 10..end].iter().all(|c| c.is_ascii_digit()),
        _ => false,
    };
    laid_out && fraction_fits
}

#[test]
fn timestamp_shape_is_told_apart() {
    assert!(is_timestamp("2024-01-01T00:00:00+00:00"));
    assert!(is_timestamp("2024-01-01T00:00:00.123456789+00:00"));
    assert!(!is_timestamp("2024-01-01T00:00:00Z"));
    assert!(!is_timestamp("2024-01-01 00:00:00+00:00"));
    assert!(!is_timestamp("2024-01-01T00:00:00.12+00:00"));
    assert!(!is_timestamp(""));
}

#[test]
fn add_stamps_a_timestamp_with_offset() {
    let store = open_store();
    let record = add_key(&store, draft("a", "secret-one")).unwrap();
    assert!(is_timestamp(&record.created_at));
    assert!(record.created_at.starts_with("20"));
}

#[test]
fn update_stamps_a_timestamp_with_offset() {
    let store = open_store();
    let mut edit = draft("a", "secret-one");
    edit.updated_at = "stale".to_string();
    let returned = update_key(&store, edit).unwrap();
    assert!(is_timestamp(&returned.updated_at));
}

#[test]
fn add_overwrites_caller_supplied_derived_fields() {
    let store = open_store();
    let mut key = draft("a", "sk-ABCDEFGHIJKL");
    key.id = "mine".to_string();
    key.masked_value = "visible".to_string();
    key.created_at = "yesterday".to_string();
    key.updated_at = "tomorrow".to_string();
    let record = add_key(&store, key).unwrap();
    assert_ne!(record.id, "mine");
    assert_eq!(record.masked_value, "sk-...IJKL");
    assert_ne!(record.created_at, "yesterday");
    assert_eq!(record.created_at, record.updated_at);
}

#[test]
fn added_record_is_listed_unchanged() {
    let store = open_store();
    let mut key = draft("OpenAI", "sk-ABCDEFGHIJKL");
    key.base_url = Some("https://api.example.com".to_string());
    key.code_snippets = Some("[{\"lang\":\"sh\",\"code\":\"curl\"}]".to_string());
    key.tags = Some("[\"prod\",\"chat\"]".to_string());
    key.notes = Some("rotate monthly".to_string());
    let record = add_key(&store, key).unwrap();
    let listed = get_all_keys(&store).unwrap();
    assert_eq!(listed, vec![record]);
}

#[test]
fn added_record_without_optional_fields_is_listed_unchanged() {
    let store = open_store();
    let record = add_key(&store, draft("bare", "0123456789")).unwrap();
    let listed = get_all_keys(&store).unwrap();
    assert_eq!(listed.len(), 1);
    assert_eq!(listed[0], record);
    assert_eq!(listed[0].tags, None);
    assert_eq!(listed[0].code_snippets, None);
}

#[test]
fn empty_store_lists_nothing() {
    let store = open_store();
    assert_eq!(get_all_keys(&store), Ok(vec![]));
}

#[test]
fn listing_is_newest_first() {
    let store = open_store();
    let first = add_key(&store, draft("R1", "secret-one")).unwrap();
    let second = add_key(&store, draft("R2", "secret-two")).unwrap();
    let third = add_key(&store, draft("R3", "secret-three")).unwrap();
    assert!(first.created_at < second.created_at);
    assert!(second.created_at < third.created_at);
    let listed = get_all_keys(&store).unwrap();
    assert_eq!(listed, vec![third, second, first]);
}

#[test]
fn update_keeps_created_at_and_refreshes_updated_at() {
    let store = open_store();
    let record = add_key(&store, draft("before", "sk-ABCDEFGHIJKL")).unwrap();
    let mut edit = record.clone();
    edit.name = "after".to_string();
    edit.created_at = "forged".to_string();
    let returned = update_key(&store, edit).unwrap();
    assert_eq!(returned.created_at, "forged");
    assert_eq!(returned.id, record.id);
    let listed = get_all_keys(&store).unwrap();
    assert_eq!(listed.len(), 1);
    assert_eq!(listed[0].name, "after");
    assert_eq!(listed[0].id, record.id);
    assert_eq!(listed[0].created_at, record.created_at);
    assert_eq!(listed[0].updated_at, returned.updated_at);
    assert!(listed[0].updated_at >= record.created_at);
}

#[test]
fn update_without_a_new_secret_keeps_the_mask() {
    let store = open_store();
    let record = add_key(&store, draft("a", "sk-ABCDEFGHIJKL")).unwrap();
    let mut edit = record.clone();
    edit.notes = Some("seen".to_string());
    let returned = update_key(&store, edit).unwrap();
    assert_eq!(returned.masked_value, record.masked_value);
    assert_eq!(get_all_keys(&store).unwrap()[0].masked_value, record.masked_value);
}

#[test]
fn update_derives_the_mask_again() {
    let store = open_store();
    let record = add_key(&store, draft("a", "sk-ABCDEFGHIJKL")).unwrap();
    let mut edit = record.clone();
    edit.value = "tiny".to_string();
    edit.masked_value = "sk-...IJKL".to_string();
    let returned = update_key(&store, edit).unwrap();
    assert_eq!(returned.masked_value, "***");
    let listed = get_all_keys(&store).unwrap();
    assert_eq!(listed[0].value, "tiny");
    assert_eq!(listed[0].masked_value, "***");
}

#[test]
fn update_replaces_every_caller_field() {
    let store = open_store();
    let mut key = draft("a", "sk-ABCDEFGHIJKL");
    key.base_url = Some("https://old.example.com".to_string());
    key.tags = Some("[\"old\"]".to_string());
    let record = add_key(&store, key).unwrap();
    let mut edit = record.clone();
    edit.vendor = "Other".to_string();
    edit.base_url = None;
    edit.doc_url = Some("https://docs.example.com".to_string());
    edit.tags = None;
    edit.code_snippets = Some("print(1)".to_string());
    let returned = update_key(&store, edit).unwrap();
    let listed = get_all_keys(&store).unwrap();
    assert_eq!(listed.len(), 1);
    assert_eq!(listed[0].vendor, "Other");
    assert_eq!(listed[0].base_url, None);
    assert_eq!(listed[0].doc_url, Some("https://docs.example.com".to_string()));
    assert_eq!(listed[0].tags, None);
    assert_eq!(listed[0].code_snippets, Some("print(1)".to_string()));
    assert_eq!(listed[0].updated_at, returned.updated_at);
}

#[test]
fn update_of_a_missing_id_succeeds_and_writes_nothing() {
    let store = open_store();
    let kept = add_key(&store, draft("kept", "sk-ABCDEFGHIJKL")).unwrap();
    let mut ghost = draft("ghost", "0123456789");
    ghost.id = "no-such-id".to_string();
    ghost.created_at = "never".to_string();
    let returned = update_key(&store, ghost).unwrap();
    assert_eq!(returned.id, "no-such-id");
    assert_eq!(returned.masked_value, "012...6789");
    assert_eq!(returned.created_at, "never");
    assert!(!returned.updated_at.is_empty());
    assert_eq!(get_all_keys(&store).unwrap(), vec![kept]);
}

#[test]
fn delete_removes_the_row() {
    let store = open_store();
    let first = add_key(&store, draft("first", "secret-one")).unwrap();
    let second = add_key(&store, draft("second", "secret-two")).unwrap();
    assert_eq!(delete_key_by_id(&store, first.id.clone()), Ok(()));
    assert_eq!(get_all_keys(&store).unwrap(), vec![second]);
}

#[test]
fn delete_of_a_missing_id_succeeds_and_touches_nothing() {
    let store = open_store();
    let first = add_key(&store, draft("first", "secret-one")).unwrap();
    let second = add_key(&store, draft("second", "secret-two")).unwrap();
    assert_eq!(delete_key_by_id(&store, "no-such-id".to_string()), Ok(()));
    assert_eq!(get_all_keys(&store).unwrap(), vec![second, first]);
}

#[test]
fn add_before_init_is_refused() {
    let store = DbConnection(None);
    assert_eq!(add_key(&store, draft("a", "b")), Err(CoreError::DatabaseNotInitialized));
}

#[test]
fn list_before_init_is_refused() {
    let store = DbConnection(None);
    assert_eq!(get_all_keys(&store), Err(CoreError::DatabaseNotInitialized));
}

#[test]
fn update_before_init_is_refused() {
    let store = DbConnection(None);
    assert_eq!(update_key(&store, draft("a", "b")), Err(CoreError::DatabaseNotInitialized));
}

#[test]
fn delete_before_init_is_refused() {
    let store = DbConnection(None);
    assert_eq!(
        delete_key_by_id(&store, "x".to_string()),
        Err(CoreError::DatabaseNotInitialized)
    );
}

#[test]
fn init_twice_on_one_database_keeps_its_rows() {
    let path = PathBuf::from("file:keycraft_init_twice?mode=memory&cache=shared");
    let first = DbConnection(Some(init(&path).unwrap()));
    let record = add_key(&first, draft("kept", "sk-ABCDEFGHIJKL")).unwrap();
    let second = DbConnection(Some(init(&path).unwrap()));
    assert_eq!(get_all_keys(&second).unwrap(), vec![record]);
}

#[test]
fn init_fails_where_the_file_cannot_be_opened() {
    let path = PathBuf::from("/no/such/directory/anywhere/keys.db");
    match init(&path) {
        Err(CoreError::DatabaseError(detail)) => assert!(!detail.is_empty()),
        other => panic!("expected a database error, got {:?}", other.map(|_| ())),
    }
}

#[test]
fn damaged_structured_text_lists_as_absent() {
    let store = open_store();
    let live = store.0.as_ref().unwrap();
    live.execute(
        "INSERT INTO api_keys VALUES ('id-1', 'n', 'v', 'secret', '***', NULL, NULL, '{oops', 'nonsense', NULL, '2024-01-01T00:00:00+00:00', '2024-01-01T00:00:00+00:00')",
        [],
    )
    .unwrap();
    let fine = add_key(&store, draft("fine", "sk-ABCDEFGHIJKL")).unwrap();
    let listed = get_all_keys(&store).unwrap();
    assert_eq!(listed.len(), 2);
    assert_eq!(listed[0], fine);
    assert_eq!(listed[1].id, "id-1");
    assert_eq!(listed[1].code_snippets, None);
    assert_eq!(listed[1].tags, None);
}

#[test]
fn missing_structured_text_fails_the_listing() {
    let store = open_store();
    let live = store.0.as_ref().unwrap();
    live.execute(
        "INSERT INTO api_keys VALUES ('id-1', 'n', 'v', 'secret', '***', NULL, NULL, NULL, NULL, NULL, 'then', 'then')",
        [],
    )
    .unwrap();
    match get_all_keys(&store) {
        Err(CoreError::DatabaseError(_)) => {}
        other => panic!("expected a database error, got {:?}", other),
    }
}

#[test]
fn write_failure_is_a_database_error() {
    let store = open_store();
    let live = store.0.as_ref().unwrap();
    live.execute("DROP TABLE api_keys", []).unwrap();
    match add_key(&store, draft("a", "sk-ABCDEFGHIJKL")) {
        Err(CoreError::DatabaseError(detail)) => assert!(detail.contains("api_keys")),
        other => panic!("expected a database error, got {:?}", other),
    }
    match update_key(&store, draft("a", "sk-ABCDEFGHIJKL")) {
        Err(CoreError::DatabaseError(_)) => {}
        other => panic!("expected a database error, got {:?}", other),
    }
    match delete_key_by_id(&store, "x".to_string()) {
        Err(CoreError::DatabaseError(_)) => {}
        other => panic!("expected a database error, got {:?}", other),
    }
    match get_all_keys(&store) {
        Err(CoreError::DatabaseError(_)) => {}
        other => panic!("expected a database error, got {:?}", other),
    }
}

#[test]
fn settle_accepts_a_write_that_changed_no_row() {
    assert_eq!(settle(Ok(0usize), 7u8), Ok(7u8));
    assert_eq!(settle(Ok(3usize), "kept"), Ok("kept"));
    assert_eq!(settle(Ok(()), "ready"), Ok("ready"));
}

#[test]
fn settle_reports_a_failed_write() {
    let failed: Result<usize, rusqlite::Error> = Err(rusqlite::Error::InvalidQuery);
    match settle(failed, 7u8) {
        Err(CoreError::DatabaseError(detail)) => assert!(!detail.is_empty()),
        other => panic!("expected a database error, got {:?}", other),
    }
}

fn stored(id: &str, tags: &str) -> StoredRow {
    StoredRow {
        id: id.to_string(),
        name: "n".to_string(),
        vendor: "v".to_string(),
        value: "sk-ABCDEFGHIJKL".to_string(),
        masked_value: "sk-...IJKL".to_string(),
        base_url: None,
        doc_url: Some("https://docs.example.com".to_string()),
        code_snippets: "null".to_string(),
        tags: tags.to_string(),
        notes: None,
        created_at: "2024-01-01T00:00:00+00:00".to_string(),
        updated_at: "2024-01-02T00:00:00+00:00".to_string(),
    }
}

#[test]
fn listing_of_no_rows_is_an_empty_success() {
    assert_eq!(listing(Ok(vec![])), Ok(vec![]));
}

#[test]
fn listing_decodes_the_rows_in_order() {
    let keys = listing(Ok(vec![stored("b", "\"[1]\""), stored("a", "{oops")])).unwrap();
    assert_eq!(keys.len(), 2);
    assert_eq!(keys[0].id, "b");
    assert_eq!(keys[0].tags, Some("[1]".to_string()));
    assert_eq!(keys[0].doc_url, Some("https://docs.example.com".to_string()));
    assert_eq!(keys[1].id, "a");
    assert_eq!(keys[1].tags, None);
    assert_eq!(keys[1].updated_at, "2024-01-02T00:00:00+00:00");
}

#[test]
fn listing_reports_a_failed_query() {
    match listing(Err(rusqlite::Error::InvalidQuery)) {
        Err(CoreError::DatabaseError(detail)) => assert!(!detail.is_empty()),
        other => panic!("expected a database error, got {:?}", other),
    }
}

#[test]
fn column_holding_bytes_fails_the_listing() {
    let store = open_store();
    let live = store.0.as_ref().unwrap();
    live.execute(
        "INSERT INTO api_keys VALUES ('id-1', 'n', 'v', 'secret', '***', NULL, NULL, 'null', 'null', NULL, x'00ff', 'then')",
        [],
    )
    .unwrap();
    match get_all_keys(&store) {
        Err(CoreError::DatabaseError(_)) => {}
        other => panic!("expected a database error, got {:?}", other),
    }
}
