use rooch_indexer_store::escape::escape_sql_string;
use rooch_indexer_store::records::{
    IndexedEvent, IndexedFieldState, IndexedObjectState, IndexedTableChangeSet, IndexedTransaction,
    StoredObjectState,
};
use rooch_indexer_store::statements::{
    field_states_delete_statement, object_states_delete_statement, object_states_upsert_statement,
};
use rooch_indexer_store::store::{
    events_insert_query, field_states_delete_by_object_id_query, field_states_delete_query,
    field_states_upsert_query, object_states_delete_query, object_states_upsert_query,
    table_change_sets_insert_query, transactions_insert_query, write_result, Entity, IndexerError,
    SqliteIndexerStore,
};

const OBJECT_HEAD: &str = "INSERT INTO object_states (object_id, owner, flag, value, object_type, state_root, size, tx_order, state_index, created_at, updated_at) VALUES ";
const OBJECT_TAIL: &str = " ON CONFLICT (object_id) DO UPDATE SET owner = excluded.owner, flag = excluded.flag, value = excluded.value, state_root = excluded.state_root, size = excluded.size, tx_order = excluded.tx_order, state_index = excluded.state_index, updated_at = excluded.updated_at";

fn object(id: &str, owner: &str, value: &str, object_type: &str, created_at: u64) -> IndexedObjectState {
    IndexedObjectState {
        object_id: id.to_string(),
        owner: owner.to_string(),
        flag: 0,
        value: value.to_string(),
        object_type: object_type.to_string(),
        state_root: "0x0".to_string(),
        size: 0,
        tx_order: 1,
        state_index: 2,
        created_at,
        updated_at: created_at,
    }
}

fn field(object_id: &str, key_hex: &str, value: &str) -> IndexedFieldState {
    IndexedFieldState {
        object_id: object_id.to_string(),
        key_hex: key_hex.to_string(),
        key_str: "k".to_string(),
        value: value.to_string(),
        key_type: "u8".to_string(),
        value_type: "u64".to_string(),
        tx_order: 3,
        state_index: 4,
        created_at: 5,
        updated_at: 6,
    }
}

fn transaction(tx_order: u64) -> IndexedTransaction {
    IndexedTransaction {
        tx_hash: "0xaa".to_string(),
        tx_order,
        sequence_number: 0,
        sender: "0x1".to_string(),
        action_type: 1,
        action: "call".to_string(),
        action_raw: "0x00".to_string(),
        auth_validator_id: 0,
        authenticator: "auth".to_string(),
        gas_used: 10,
        status: "executed".to_string(),
        event_root: "0xe".to_string(),
        state_root: "0xs".to_string(),
        tx_accumulator_root: "0xt".to_string(),
        created_at: 100,
    }
}

#[test]
fn escape_doubles_quotes() {
    assert_eq!(escape_sql_string("it's"), "it''s");
    assert_eq!(escape_sql_string("''"), "''''");
}

#[test]
fn escape_keeps_backslash_and_delimiters() {
    assert_eq!(escape_sql_string("a\\b,c)(d;"), "a\\b,c)(d;");
    assert_eq!(escape_sql_string(""), "");
    assert_eq!(escape_sql_string("é'ü"), "é''ü");
}

#[test]
fn object_upsert_statement_text() {
    let q = object_states_upsert_query(vec![object("0x1", "0xA", "v1", "T", 7)]).unwrap();
    let expected = format!(
        "{}('0x1', '0xA', 0, 'v1', 'T', '0x0', 0, 1, 2, 7, 7){}",
        OBJECT_HEAD, OBJECT_TAIL
    );
    assert_eq!(q, expected);
}

#[test]
fn object_upsert_keeps_submission_order() {
    let q = object_states_upsert_query(vec![
        object("0x1", "0xA", "first", "T", 1),
        object("0x1", "0xA", "second", "T", 1),
    ])
    .unwrap();
    let first = q.find("'first'").unwrap();
    let second = q.find("'second'").unwrap();
    assert!(first < second);
    assert!(q.contains("1, 1),('0x1'"));
}

#[test]
fn object_upsert_never_updates_immutable_columns() {
    let q = object_states_upsert_query(vec![object("0x1", "0xA", "v1", "T", 7)]).unwrap();
    let update = &q[q.find("DO UPDATE SET").unwrap()..];
    assert!(!update.contains("object_type"));
    assert!(!update.contains("created_at"));
    assert!(update.contains("owner = excluded.owner"));
}

#[test]
fn value_with_quote_is_escaped_in_statement() {
    let q = object_states_upsert_query(vec![object("0x1", "0xA", "x', 'y'); DROP TABLE t; --", "T", 0)]).unwrap();
    assert!(q.contains("'x'', ''y''); DROP TABLE t; --'"));
}

#[test]
fn large_values_map_to_signed_columns() {
    let mut s = object("0x1", "0xA", "v", "T", 0);
    s.size = u64::MAX;
    s.flag = 255;
    let stored = StoredObjectState::from(s);
    assert_eq!(stored.size, -1);
    assert_eq!(stored.flag, 255);
    let q = object_states_upsert_statement(&[stored]);
    assert!(q.contains("'v', 'T', '0x0', -1, 1, 2, 0, 0)"));
    assert!(q.contains("'0xA', 255, 'v'"));
}

#[test]
fn field_upsert_statement_text() {
    let q = field_states_upsert_query(vec![field("0x1", "0xk1", "a'b")]).unwrap();
    assert_eq!(
        q,
        "INSERT INTO field_states (object_id, key_hex, key_str, value, key_type, value_type, tx_order, state_index, created_at, updated_at) VALUES ('0x1', '0xk1', 'k', 'a''b', 'u8', 'u64', 3, 4, 5, 6) ON CONFLICT (object_id, key_hex) DO UPDATE SET value = excluded.value, value_type = excluded.value_type, tx_order = excluded.tx_order, state_index = excluded.state_index, updated_at = excluded.updated_at"
    );
}

#[test]
fn field_delete_names_each_composite_key() {
    let q = field_states_delete_query(&vec![
        ("0xA".to_string(), "k1".to_string()),
        ("0xB".to_string(), "k'2".to_string()),
    ])
    .unwrap();
    assert_eq!(
        q,
        "DELETE FROM field_states WHERE (object_id, key_hex) IN (('0xA', 'k1'),('0xB', 'k''2'))"
    );
    assert_eq!(field_states_delete_statement(&[]), "DELETE FROM field_states WHERE (object_id, key_hex) IN ()");
}

#[test]
fn field_delete_by_object_id_text() {
    let q = field_states_delete_by_object_id_query(&vec!["0xA".to_string(), "0xB".to_string()]).unwrap();
    assert_eq!(q, "DELETE FROM field_states WHERE object_id IN ('0xA','0xB')");
}

#[test]
fn object_delete_text() {
    let q = object_states_delete_query(&vec!["0x1".to_string()]).unwrap();
    assert_eq!(q, "DELETE FROM object_states WHERE object_id IN ('0x1')");
    assert_eq!(object_states_delete_statement(&["a'".to_string()]), "DELETE FROM object_states WHERE object_id IN ('a''')");
}

#[test]
fn empty_batches_need_no_statement() {
    assert!(object_states_upsert_query(vec![]).is_none());
    assert!(field_states_upsert_query(vec![]).is_none());
    assert!(table_change_sets_insert_query(vec![]).is_none());
    assert!(transactions_insert_query(vec![]).is_none());
    assert!(events_insert_query(vec![]).is_none());
    assert!(object_states_delete_query(&vec![]).is_none());
    assert!(field_states_delete_query(&vec![]).is_none());
    assert!(field_states_delete_by_object_id_query(&vec![]).is_none());
}

#[test]
fn transactions_insert_has_no_conflict_clause() {
    let q = transactions_insert_query(vec![transaction(9), transaction(10)]).unwrap();
    assert_eq!(
        q,
        "INSERT INTO transactions (tx_hash, tx_order, sequence_number, sender, action_type, action, action_raw, auth_validator_id, authenticator, gas_used, status, event_root, state_root, tx_accumulator_root, created_at) VALUES ('0xaa', 9, 0, '0x1', 1, 'call', '0x00', 0, 'auth', 10, 'executed', '0xe', '0xs', '0xt', 100),('0xaa', 10, 0, '0x1', 1, 'call', '0x00', 0, 'auth', 10, 'executed', '0xe', '0xs', '0xt', 100)"
    );
    assert!(!q.contains("ON CONFLICT"));
}

#[test]
fn events_insert_text() {
    let e = IndexedEvent {
        event_handle_id: "0xh".to_string(),
        event_key: "0xk".to_string(),
        event_type: "0x1::m::E".to_string(),
        event_data: "0x0102".to_string(),
        event_index: 3,
        tx_hash: "0xaa".to_string(),
        tx_order: 9,
        sender: "0x1".to_string(),
        created_at: 100,
    };
    let q = events_insert_query(vec![e]).unwrap();
    assert_eq!(
        q,
        "INSERT INTO events (event_handle_id, event_key, event_type, event_data, event_index, tx_hash, tx_order, sender, created_at) VALUES ('0xh', '0xk', '0x1::m::E', '0x0102', 3, '0xaa', 9, '0x1', 100)"
    );
}

#[test]
fn table_change_sets_insert_text() {
    let c = IndexedTableChangeSet {
        tx_order: 1,
        state_index: 0,
        table_handle: "0xt".to_string(),
        table_change_set: "{\"a\":'b'}".to_string(),
        created_at: 5,
    };
    let q = table_change_sets_insert_query(vec![c]).unwrap();
    assert_eq!(
        q,
        "INSERT INTO table_change_sets (tx_order, state_index, table_handle, table_change_set, created_at) VALUES (1, 0, '0xt', '{\"a\":''b''}', 5)"
    );
}

#[test]
fn scenario_update_then_delete_statements() {
    let first = object_states_upsert_query(vec![object("0x1", "0xA", "v1", "T", 7)]).unwrap();
    let second = object_states_upsert_query(vec![object("0x1", "0xB", "v2", "U", 9)]).unwrap();
    assert!(first.contains("('0x1', '0xA', 0, 'v1', 'T'"));
    assert!(second.contains("('0x1', '0xB', 0, 'v2', 'U'"));
    assert!(second.ends_with(OBJECT_TAIL));
    let d1 = object_states_delete_query(&vec!["0x1".to_string()]);
    let d2 = object_states_delete_query(&vec!["0x1".to_string()]);
    assert_eq!(d1, d2);
}

#[test]
fn write_result_success() {
    assert!(write_result(Entity::Transactions, "q".to_string(), Ok(0)).is_ok());
    assert!(write_result(Entity::Events, "q".to_string(), Ok(3)).is_ok());
}

#[test]
fn write_result_failure_carries_statement() {
    match write_result(Entity::Transactions, "INSERT x".to_string(), Err("UNIQUE constraint failed".to_string())) {
        Err(IndexerError::SQLiteWriteError { entity, statement, message }) => {
            assert_eq!(entity, Entity::Transactions);
            assert_eq!(statement, "INSERT x");
            assert_eq!(message, "UNIQUE constraint failed");
        }
        _ => panic!("expected a write error"),
    }
}

#[test]
fn store_keeps_its_pool() {
    let store = SqliteIndexerStore::new(42u32);
    assert_eq!(store.connection_pool, 42);
}

/// Reads a quoted SQL literal at the start of `text`: its value and the rest.
fn read_literal(text: &str) -> Option<(String, &str)> {
    let mut chars = text.char_indices();
    if chars.next()?.1 != '\'' {
        return None;
    }
    let mut value = String::new();
    let mut pending_quote: Option<usize> = None;
    for (i, c) in chars {
        match (pending_quote, c) {
            (Some(_), '\'') => {
                value.push('\'');
                pending_quote = None;
            }
            (Some(q), _) => return Some((value, &text[q + 1..])),
            (None, '\'') => pending_quote = Some(i),
            (None, c) => value.push(c),
        }
    }
    pending_quote.map(|q| (value, &text[q + 1..]))
}

#[test]
fn quoted_literal_reads_back_unchanged() {
    for v in ["plain", "it's", "''", "back\\slash", "a, b), ('c", "", "\'\'\'", "é'ü"] {
        let literal = format!("'{}', next", escape_sql_string(v));
        let (read, rest) = read_literal(&literal).unwrap();
        assert_eq!(read, v);
        assert_eq!(rest, ", next");
    }
}

#[test]
fn negative_integers_are_rendered_with_sign() {
    let mut s = object("0x1", "0xA", "v", "T", 0);
    s.tx_order = u64::MAX - 1;
    let q = object_states_upsert_query(vec![s]).unwrap();
    assert!(q.contains("'0x0', 0, -2, 2, 0, 0)"));
}
