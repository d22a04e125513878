//! Records as the execution pipeline hands them over ("indexed") and as the
//! tables store them ("stored"), with the mapping from the one to the other.
use vstd::prelude::*;

verus! {

/// An object state as the execution pipeline produces it.
pub struct IndexedObjectState {
    pub object_id: String,
    pub owner: String,
    pub flag: u8,
    pub value: String,
    pub object_type: String,
    pub state_root: String,
    pub size: u64,
    pub tx_order: u64,
    pub state_index: u64,
    pub created_at: u64,
    pub updated_at: u64,
}

/// A row of the `object_states` table, keyed by `object_id`.
pub struct StoredObjectState {
    pub object_id: String,
    pub owner: String,
    pub flag: i16,
    pub value: String,
    pub object_type: String,
    pub state_root: String,
    pub size: i64,
    pub tx_order: i64,
    pub state_index: i64,
    pub created_at: i64,
    pub updated_at: i64,
}

impl From<IndexedObjectState> for StoredObjectState {
    fn from(s: IndexedObjectState) -> StoredObjectState {
        StoredObjectState {
            object_id: s.object_id,
            owner: s.owner,
            flag: s.flag as i16,
            value: s.value,
            object_type: s.object_type,
            state_root: s.state_root,
            size: s.size as i64,
            tx_order: s.tx_order as i64,
            state_index: s.state_index as i64,
            created_at: s.created_at as i64,
            updated_at: s.updated_at as i64,
        }
    }
}

impl vstd::std_specs::convert::FromSpecImpl<IndexedObjectState> for StoredObjectState {
    open spec fn obeys_from_spec() -> bool {
        true
    }

    /// Every field is carried over; integers become the signed column type.
    open spec fn from_spec(s: IndexedObjectState) -> StoredObjectState {
        StoredObjectState {
            object_id: s.object_id,
            owner: s.owner,
            flag: s.flag as i16,
            value: s.value,
            object_type: s.object_type,
            state_root: s.state_root,
            size: s.size as i64,
            tx_order: s.tx_order as i64,
            state_index: s.state_index as i64,
            created_at: s.created_at as i64,
            updated_at: s.updated_at as i64,
        }
    }
}

/// A field state (one keyed entry of an object) as the execution pipeline produces it.
pub struct IndexedFieldState {
    pub object_id: String,
    pub key_hex: String,
    pub key_str: String,
    pub value: String,
    pub key_type: String,
    pub value_type: String,
    pub tx_order: u64,
    pub state_index: u64,
    pub created_at: u64,
    pub updated_at: u64,
}

/// A row of the `field_states` table, keyed by `(object_id, key_hex)`.
pub struct StoredFieldState {
    pub object_id: String,
    pub key_hex: String,
    pub key_str: String,
    pub value: String,
    pub key_type: String,
    pub value_type: String,
    pub tx_order: i64,
    pub state_index: i64,
    pub created_at: i64,
    pub updated_at: i64,
}

impl From<IndexedFieldState> for StoredFieldState {
    fn from(s: IndexedFieldState) -> StoredFieldState {
        StoredFieldState {
            object_id: s.object_id,
            key_hex: s.key_hex,
            key_str: s.key_str,
            value: s.value,
            key_type: s.key_type,
            value_type: s.value_type,
            tx_order: s.tx_order as i64,
            state_index: s.state_index as i64,
            created_at: s.created_at as i64,
            updated_at: s.updated_at as i64,
        }
    }
}

impl vstd::std_specs::convert::FromSpecImpl<IndexedFieldState> for StoredFieldState {
    open spec fn obeys_from_spec() -> bool {
        true
    }

    /// Every field is carried over; integers become the signed column type.
    open spec fn from_spec(s: IndexedFieldState) -> StoredFieldState {
        StoredFieldState {
            object_id: s.object_id,
            key_hex: s.key_hex,
            key_str: s.key_str,
            value: s.value,
            key_type: s.key_type,
            value_type: s.value_type,
            tx_order: s.tx_order as i64,
            state_index: s.state_index as i64,
            created_at: s.created_at as i64,
            updated_at: s.updated_at as i64,
        }
    }
}

/// A table change set as the execution pipeline produces it.
pub struct IndexedTableChangeSet {
    pub tx_order: u64,
    pub state_index: u64,
    pub table_handle: String,
    pub table_change_set: String,
    pub created_at: u64,
}

/// A row of the append-only `table_change_sets` table, keyed by `(tx_order, state_index)`.
pub struct StoredTableChangeSet {
    pub tx_order: i64,
    pub state_index: i64,
    pub table_handle: String,
    pub table_change_set: String,
    pub created_at: i64,
}

impl From<IndexedTableChangeSet> for StoredTableChangeSet {
    fn from(s: IndexedTableChangeSet) -> StoredTableChangeSet {
        StoredTableChangeSet {
            tx_order: s.tx_order as i64,
            state_index: s.state_index as i64,
            table_handle: s.table_handle,
            table_change_set: s.table_change_set,
            created_at: s.created_at as i64,
        }
    }
}

impl vstd::std_specs::convert::FromSpecImpl<IndexedTableChangeSet> for StoredTableChangeSet {
    open spec fn obeys_from_spec() -> bool {
        true
    }

    /// Every field is carried over; integers become the signed column type.
    open spec fn from_spec(s: IndexedTableChangeSet) -> StoredTableChangeSet {
        StoredTableChangeSet {
            tx_order: s.tx_order as i64,
            state_index: s.state_index as i64,
            table_handle: s.table_handle,
            table_change_set: s.table_change_set,
            created_at: s.created_at as i64,
        }
    }
}

/// An executed transaction as the execution pipeline produces it.
pub struct IndexedTransaction {
    pub tx_hash: String,
    pub tx_order: u64,
    pub sequence_number: u64,
    pub sender: String,
    pub action_type: u8,
    pub action: String,
    pub action_raw: String,
    pub auth_validator_id: u64,
    pub authenticator: String,
    pub gas_used: u64,
    pub status: String,
    pub event_root: String,
    pub state_root: String,
    pub tx_accumulator_root: String,
    pub created_at: u64,
}

/// A row of the append-only `transactions` table, keyed by `tx_order`.
pub struct StoredTransaction {
    pub tx_hash: String,
    pub tx_order: i64,
    pub sequence_number: i64,
    pub sender: String,
    pub action_type: i16,
    pub action: String,
    pub action_raw: String,
    pub auth_validator_id: i64,
    pub authenticator: String,
    pub gas_used: i64,
    pub status: String,
    pub event_root: String,
    pub state_root: String,
    pub tx_accumulator_root: String,
    pub created_at: i64,
}

impl From<IndexedTransaction> for StoredTransaction {
    fn from(s: IndexedTransaction) -> StoredTransaction {
        StoredTransaction {
            tx_hash: s.tx_hash,
            tx_order: s.tx_order as i64,
            sequence_number: s.sequence_number as i64,
            sender: s.sender,
            action_type: s.action_type as i16,
            action: s.action,
            action_raw: s.action_raw,
            auth_validator_id: s.auth_validator_id as i64,
            authenticator: s.authenticator,
            gas_used: s.gas_used as i64,
            status: s.status,
            event_root: s.event_root,
            state_root: s.state_root,
            tx_accumulator_root: s.tx_accumulator_root,
            created_at: s.created_at as i64,
        }
    }
}

impl vstd::std_specs::convert::FromSpecImpl<IndexedTransaction> for StoredTransaction {
    open spec fn obeys_from_spec() -> bool {
        true
    }

    /// Every field is carried over; integers become the signed column type.
    open spec fn from_spec(s: IndexedTransaction) -> StoredTransaction {
        StoredTransaction {
            tx_hash: s.tx_hash,
            tx_order: s.tx_order as i64,
            sequence_number: s.sequence_number as i64,
            sender: s.sender,
            action_type: s.action_type as i16,
            action: s.action,
            action_raw: s.action_raw,
            auth_validator_id: s.auth_validator_id as i64,
            authenticator: s.authenticator,
            gas_used: s.gas_used as i64,
            status: s.status,
            event_root: s.event_root,
            state_root: s.state_root,
            tx_accumulator_root: s.tx_accumulator_root,
            created_at: s.created_at as i64,
        }
    }
}

/// An emitted event as the execution pipeline produces it.
pub struct IndexedEvent {
    pub event_handle_id: String,
    pub event_key: String,
    pub event_type: String,
    pub event_data: String,
    pub event_index: u64,
    pub tx_hash: String,
    pub tx_order: u64,
    pub sender: String,
    pub created_at: u64,
}

/// A row of the append-only `events` table, keyed by `(tx_order, event_index)`.
pub struct StoredEvent {
    pub event_handle_id: String,
    pub event_key: String,
    pub event_type: String,
    pub event_data: String,
    pub event_index: i64,
    pub tx_hash: String,
    pub tx_order: i64,
    pub sender: String,
    pub created_at: i64,
}

impl From<IndexedEvent> for StoredEvent {
    fn from(s: IndexedEvent) -> StoredEvent {
        StoredEvent {
            event_handle_id: s.event_handle_id,
            event_key: s.event_key,
            event_type: s.event_type,
            event_data: s.event_data,
            event_index: s.event_index as i64,
            tx_hash: s.tx_hash,
            tx_order: s.tx_order as i64,
            sender: s.sender,
            created_at: s.created_at as i64,
        }
    }
}

impl vstd::std_specs::convert::FromSpecImpl<IndexedEvent> for StoredEvent {
    open spec fn obeys_from_spec() -> bool {
        true
    }

    /// Every field is carried over; integers become the signed column type.
    open spec fn from_spec(s: IndexedEvent) -> StoredEvent {
        StoredEvent {
            event_handle_id: s.event_handle_id,
            event_key: s.event_key,
            event_type: s.event_type,
            event_data: s.event_data,
            event_index: s.event_index as i64,
            tx_hash: s.tx_hash,
            tx_order: s.tx_order as i64,
            sender: s.sender,
            created_at: s.created_at as i64,
        }
    }
}

} // verus!
