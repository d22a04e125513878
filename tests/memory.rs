use rooch_indexer_store::memory::{MemoryFieldStates, MemoryObjectStates, MemoryTransactions};
use rooch_indexer_store::records::{IndexedFieldState, IndexedObjectState, IndexedTransaction};
use rooch_indexer_store::store::{Entity, IndexerError};

fn object(id: &str, owner: &str, value: &str, object_type: &str, created_at: u64) -> IndexedObjectState {
    IndexedObjectState {
        object_id: id.to_string(),
        owner: owner.to_string(),
        flag: 1,
        value: value.to_string(),
        object_type: object_type.to_string(),
        state_root: "0x0".to_string(),
        size: 8,
        tx_order: created_at,
        state_index: 0,
        created_at,
        updated_at: created_at,
    }
}

#[test]
fn update_then_delete_scenario() {
    let mut table = MemoryObjectStates::new();
    table.persist_or_update_object_states(vec![object("0x1", "0xA", "v1", "0x2::m::T", 10)]);
    table.persist_or_update_object_states(vec![object("0x1", "0xB", "v2", "0x2::m::U", 20)]);
    let row = table.get(&"0x1".to_string()).unwrap();
    assert_eq!(row.owner, "0xB");
    assert_eq!(row.value, "v2");
    assert_eq!(row.object_type, "0x2::m::T");
    assert_eq!(row.created_at, 10);
    assert_eq!(row.updated_at, 20);
    table.delete_object_states(vec!["0x1".to_string()]);
    assert!(table.get(&"0x1".to_string()).is_none());
    table.delete_object_states(vec!["0x1".to_string()]);
    assert!(table.get(&"0x1".to_string()).is_none());
    assert_eq!(table.len(), 0);
}

#[test]
fn repeated_upsert_is_idempotent() {
    let mut once = MemoryObjectStates::new();
    once.persist_or_update_object_states(vec![object("0x1", "0xA", "v", "T", 5)]);
    let mut twice = MemoryObjectStates::new();
    twice.persist_or_update_object_states(vec![object("0x1", "0xA", "v", "T", 5)]);
    twice.persist_or_update_object_states(vec![object("0x1", "0xA", "v", "T", 5)]);
    let a = once.get(&"0x1".to_string()).unwrap();
    let b = twice.get(&"0x1".to_string()).unwrap();
    assert_eq!(a.owner, b.owner);
    assert_eq!(a.value, b.value);
    assert_eq!(a.object_type, b.object_type);
    assert_eq!(a.created_at, b.created_at);
    assert_eq!(a.updated_at, b.updated_at);
    assert_eq!(twice.len(), 1);
}

#[test]
fn resubmission_keeps_first_type_and_creation_time() {
    let mut table = MemoryObjectStates::new();
    table.persist_or_update_object_states(vec![object("0x1", "0xA", "v", "T", 5)]);
    table.persist_or_update_object_states(vec![object("0x1", "0xA", "v", "Other", 99)]);
    let row = table.get(&"0x1".to_string()).unwrap();
    assert_eq!(row.object_type, "T");
    assert_eq!(row.created_at, 5);
    assert_eq!(row.updated_at, 99);
}

#[test]
fn later_record_in_batch_wins() {
    let mut table = MemoryObjectStates::new();
    table.persist_or_update_object_states(vec![
        object("0x1", "0xA", "first", "T", 1),
        object("0x1", "0xB", "second", "T", 2),
        object("0x2", "0xC", "other", "T", 3),
    ]);
    let row = table.get(&"0x1".to_string()).unwrap();
    assert_eq!(row.owner, "0xB");
    assert_eq!(row.value, "second");
    assert_eq!(row.created_at, 1);
    assert_eq!(table.len(), 2);
}

#[test]
fn empty_batches_change_nothing() {
    let mut table = MemoryObjectStates::new();
    table.persist_or_update_object_states(vec![object("0x1", "0xA", "v", "T", 1)]);
    table.persist_or_update_object_states(vec![]);
    table.delete_object_states(vec![]);
    assert_eq!(table.len(), 1);
    assert_eq!(table.get(&"0x1".to_string()).unwrap().value, "v");
}

#[test]
fn delete_ignores_absent_and_keeps_others() {
    let mut table = MemoryObjectStates::new();
    table.persist_or_update_object_states(vec![
        object("0x1", "0xA", "a", "T", 1),
        object("0x2", "0xA", "b", "T", 1),
    ]);
    table.delete_object_states(vec!["0x1".to_string(), "0x9".to_string()]);
    assert!(table.get(&"0x1".to_string()).is_none());
    assert_eq!(table.get(&"0x2".to_string()).unwrap().value, "b");
    assert_eq!(table.len(), 1);
}

#[test]
fn quoted_value_is_stored_unchanged() {
    let mut table = MemoryObjectStates::new();
    let tricky = "it's a \\ test, ('x'); --";
    table.persist_or_update_object_states(vec![object("0x'1", "0xA", tricky, "T", 1)]);
    assert_eq!(table.get(&"0x'1".to_string()).unwrap().value, tricky);
}

fn transaction(tx_order: u64) -> IndexedTransaction {
    IndexedTransaction {
        tx_hash: format!("0x{}", tx_order),
        tx_order,
        sequence_number: 0,
        sender: "0x1".to_string(),
        action_type: 0,
        action: "a".to_string(),
        action_raw: "0x".to_string(),
        auth_validator_id: 0,
        authenticator: "x".to_string(),
        gas_used: 1,
        status: "executed".to_string(),
        event_root: "0x0".to_string(),
        state_root: "0x0".to_string(),
        tx_accumulator_root: "0x0".to_string(),
        created_at: 0,
    }
}

#[test]
fn second_append_of_same_transaction_fails() {
    let mut table = MemoryTransactions::new();
    assert!(table.persist_transactions(vec![transaction(9)]).is_ok());
    assert!(table.contains(9));
    match table.persist_transactions(vec![transaction(9)]) {
        Err(IndexerError::SQLiteWriteError { entity, statement, .. }) => {
            assert_eq!(entity, Entity::Transactions);
            assert!(statement.starts_with("INSERT INTO transactions"));
        }
        _ => panic!("expected a write error"),
    }
    assert!(table.contains(9));
}

#[test]
fn failed_append_inserts_nothing() {
    let mut table = MemoryTransactions::new();
    assert!(table.persist_transactions(vec![transaction(1), transaction(2), transaction(1)]).is_err());
    assert!(!table.contains(1));
    assert!(!table.contains(2));
    assert!(table.persist_transactions(vec![transaction(1), transaction(2)]).is_ok());
    assert!(table.persist_transactions(vec![transaction(3), transaction(2)]).is_err());
    assert!(!table.contains(3));
    assert!(table.persist_transactions(vec![]).is_ok());
}

fn field(object_id: &str, key_hex: &str, value: &str, key_str: &str, created_at: u64) -> IndexedFieldState {
    IndexedFieldState {
        object_id: object_id.to_string(),
        key_hex: key_hex.to_string(),
        key_str: key_str.to_string(),
        value: value.to_string(),
        key_type: "u64".to_string(),
        value_type: "u64".to_string(),
        tx_order: created_at,
        state_index: 0,
        created_at,
        updated_at: created_at,
    }
}

fn s(v: &str) -> String {
    v.to_string()
}

#[test]
fn composite_key_delete_is_isolated() {
    let mut table = MemoryFieldStates::new();
    table.persist_or_update_field_states(vec![
        field("A", "K1", "a1", "k1", 1),
        field("A", "K2", "a2", "k2", 1),
        field("B", "K1", "b1", "k1", 1),
    ]);
    table.delete_field_states(vec![(s("A"), s("K1"))]);
    assert!(table.get(&s("A"), &s("K1")).is_none());
    assert_eq!(table.get(&s("A"), &s("K2")).unwrap().value, "a2");
    assert_eq!(table.get(&s("B"), &s("K1")).unwrap().value, "b1");
    table.delete_field_states(vec![(s("A"), s("K1")), (s("C"), s("K9"))]);
    assert!(table.get(&s("A"), &s("K2")).is_some());
}

#[test]
fn delete_by_object_id_removes_only_that_object() {
    let mut table = MemoryFieldStates::new();
    table.persist_or_update_field_states(vec![
        field("A", "K1", "a1", "k1", 1),
        field("A", "K2", "a2", "k2", 1),
        field("B", "K1", "b1", "k1", 1),
    ]);
    table.delete_field_states_by_object_id(vec![s("A")]);
    assert!(table.get(&s("A"), &s("K1")).is_none());
    assert!(table.get(&s("A"), &s("K2")).is_none());
    assert_eq!(table.get(&s("B"), &s("K1")).unwrap().value, "b1");
    table.delete_field_states_by_object_id(vec![]);
    assert!(table.get(&s("B"), &s("K1")).is_some());
}

#[test]
fn field_upsert_keeps_immutable_columns_and_last_wins() {
    let mut table = MemoryFieldStates::new();
    table.persist_or_update_field_states(vec![field("A", "K1", "v1", "first", 1)]);
    table.persist_or_update_field_states(vec![
        field("A", "K1", "v2", "second", 2),
        field("A", "K1", "v3", "third", 3),
    ]);
    let row = table.get(&s("A"), &s("K1")).unwrap();
    assert_eq!(row.value, "v3");
    assert_eq!(row.updated_at, 3);
    assert_eq!(row.key_str, "first");
    assert_eq!(row.created_at, 1);
}
