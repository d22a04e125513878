//! The batch statements of the store: multi-row upserts for object and field
//! states, multi-row inserts for the append-only entities, and deletions by
//! single or composite key.
use vstd::prelude::*;
use crate::escape::{push_char, quoted};
use crate::records::{
    StoredEvent, StoredFieldState, StoredObjectState, StoredTableChangeSet, StoredTransaction,
};
use crate::sql::{decimal_text, push_integer, push_literal, push_values_list, values_list, SqlValue};

verus! {

pub const OBJECT_STATES_UPSERT_HEAD: &'static str = "INSERT INTO object_states (object_id, owner, flag, value, object_type, state_root, size, tx_order, state_index, created_at, updated_at) VALUES ";

pub const OBJECT_STATES_UPSERT_TAIL: &'static str = " ON CONFLICT (object_id) DO UPDATE SET owner = excluded.owner, flag = excluded.flag, value = excluded.value, state_root = excluded.state_root, size = excluded.size, tx_order = excluded.tx_order, state_index = excluded.state_index, updated_at = excluded.updated_at";

pub const FIELD_STATES_UPSERT_HEAD: &'static str = "INSERT INTO field_states (object_id, key_hex, key_str, value, key_type, value_type, tx_order, state_index, created_at, updated_at) VALUES ";

pub const FIELD_STATES_UPSERT_TAIL: &'static str = " ON CONFLICT (object_id, key_hex) DO UPDATE SET value = excluded.value, value_type = excluded.value_type, tx_order = excluded.tx_order, state_index = excluded.state_index, updated_at = excluded.updated_at";

pub const TABLE_CHANGE_SETS_INSERT_HEAD: &'static str = "INSERT INTO table_change_sets (tx_order, state_index, table_handle, table_change_set, created_at) VALUES ";

pub const TRANSACTIONS_INSERT_HEAD: &'static str = "INSERT INTO transactions (tx_hash, tx_order, sequence_number, sender, action_type, action, action_raw, auth_validator_id, authenticator, gas_used, status, event_root, state_root, tx_accumulator_root, created_at) VALUES ";

pub const EVENTS_INSERT_HEAD: &'static str = "INSERT INTO events (event_handle_id, event_key, event_type, event_data, event_index, tx_hash, tx_order, sender, created_at) VALUES ";

pub const OBJECT_STATES_DELETE_HEAD: &'static str = "DELETE FROM object_states WHERE object_id IN (";

pub const FIELD_STATES_DELETE_HEAD: &'static str = "DELETE FROM field_states WHERE (object_id, key_hex) IN (";

pub const FIELD_STATES_DELETE_BY_OBJECT_HEAD: &'static str = "DELETE FROM field_states WHERE object_id IN (";

/// The text between two values of a tuple.
pub open spec fn separator() -> Seq<char> {
    seq![',', ' ']
}

fn push_separator(q: &mut String)
    ensures
        final(q)@ == old(q)@ + separator(),
{
    push_char(q, ',');
    push_char(q, ' ');
    assert(final(q)@ =~= old(q)@ + separator());
}

impl SqlValue for StoredObjectState {
    /// The row as a parenthesised tuple, in the table's column order.
    open spec fn sql(&self) -> Seq<char> {
        seq!['('] + quoted(self.object_id@)
            + separator() + quoted(self.owner@)
            + separator() + decimal_text(self.flag as int)
            + separator() + quoted(self.value@)
            + separator() + quoted(self.object_type@)
            + separator() + quoted(self.state_root@)
            + separator() + decimal_text(self.size as int)
            + separator() + decimal_text(self.tx_order as int)
            + separator() + decimal_text(self.state_index as int)
            + separator() + decimal_text(self.created_at as int)
            + separator() + decimal_text(self.updated_at as int) + seq![')']
    }

    fn push_sql(&self, q: &mut String) {
        push_char(q, '(');
        push_literal(q, self.object_id.as_str());
        push_separator(q);
        push_literal(q, self.owner.as_str());
        push_separator(q);
        push_integer(q, self.flag as i64);
        push_separator(q);
        push_literal(q, self.value.as_str());
        push_separator(q);
        push_literal(q, self.object_type.as_str());
        push_separator(q);
        push_literal(q, self.state_root.as_str());
        push_separator(q);
        push_integer(q, self.size as i64);
        push_separator(q);
        push_integer(q, self.tx_order as i64);
        push_separator(q);
        push_integer(q, self.state_index as i64);
        push_separator(q);
        push_integer(q, self.created_at as i64);
        push_separator(q);
        push_integer(q, self.updated_at as i64);
        push_char(q, ')');
        assert(final(q)@ =~= old(q)@ + self.sql());
    }
}

impl SqlValue for StoredFieldState {
    /// The row as a parenthesised tuple, in the table's column order.
    open spec fn sql(&self) -> Seq<char> {
        seq!['('] + quoted(self.object_id@)
            + separator() + quoted(self.key_hex@)
            + separator() + quoted(self.key_str@)
            + separator() + quoted(self.value@)
            + separator() + quoted(self.key_type@)
            + separator() + quoted(self.value_type@)
            + separator() + decimal_text(self.tx_order as int)
            + separator() + decimal_text(self.state_index as int)
            + separator() + decimal_text(self.created_at as int)
            + separator() + decimal_text(self.updated_at as int) + seq![')']
    }

    fn push_sql(&self, q: &mut String) {
        push_char(q, '(');
        push_literal(q, self.object_id.as_str());
        push_separator(q);
        push_literal(q, self.key_hex.as_str());
        push_separator(q);
        push_literal(q, self.key_str.as_str());
        push_separator(q);
        push_literal(q, self.value.as_str());
        push_separator(q);
        push_literal(q, self.key_type.as_str());
        push_separator(q);
        push_literal(q, self.value_type.as_str());
        push_separator(q);
        push_integer(q, self.tx_order as i64);
        push_separator(q);
        push_integer(q, self.state_index as i64);
        push_separator(q);
        push_integer(q, self.created_at as i64);
        push_separator(q);
        push_integer(q, self.updated_at as i64);
        push_char(q, ')');
        assert(final(q)@ =~= old(q)@ + self.sql());
    }
}

impl SqlValue for StoredTableChangeSet {
    /// The row as a parenthesised tuple, in the table's column order.
    open spec fn sql(&self) -> Seq<char> {
        seq!['('] + decimal_text(self.tx_order as int)
            + separator() + decimal_text(self.state_index as int)
            + separator() + quoted(self.table_handle@)
            + separator() + quoted(self.table_change_set@)
            + separator() + decimal_text(self.created_at as int) + seq![')']
    }

    fn push_sql(&self, q: &mut String) {
        push_char(q, '(');
        push_integer(q, self.tx_order as i64);
        push_separator(q);
        push_integer(q, self.state_index as i64);
        push_separator(q);
        push_literal(q, self.table_handle.as_str());
        push_separator(q);
        push_literal(q, self.table_change_set.as_str());
        push_separator(q);
        push_integer(q, self.created_at as i64);
        push_char(q, ')');
        assert(final(q)@ =~= old(q)@ + self.sql());
    }
}

impl SqlValue for StoredTransaction {
    /// The row as a parenthesised tuple, in the table's column order.
    open spec fn sql(&self) -> Seq<char> {
        seq!['('] + quoted(self.tx_hash@)
            + separator() + decimal_text(self.tx_order as int)
            + separator() + decimal_text(self.sequence_number as int)
            + separator() + quoted(self.sender@)
            + separator() + decimal_text(self.action_type as int)
            + separator() + quoted(self.action@)
            + separator() + quoted(self.action_raw@)
            + separator() + decimal_text(self.auth_validator_id as int)
            + separator() + quoted(self.authenticator@)
            + separator() + decimal_text(self.gas_used as int)
            + separator() + quoted(self.status@)
            + separator() + quoted(self.event_root@)
            + separator() + quoted(self.state_root@)
            + separator() + quoted(self.tx_accumulator_root@)
            + separator() + decimal_text(self.created_at as int) + seq![')']
    }

    #[verifier::rlimit(60)]
    fn push_sql(&self, q: &mut String) {
        push_char(q, '(');
        push_literal(q, self.tx_hash.as_str());
        push_separator(q);
        push_integer(q, self.tx_order as i64);
        push_separator(q);
        push_integer(q, self.sequence_number as i64);
        push_separator(q);
        push_literal(q, self.sender.as_str());
        push_separator(q);
        push_integer(q, self.action_type as i64);
        push_separator(q);
        push_literal(q, self.action.as_str());
        push_separator(q);
        push_literal(q, self.action_raw.as_str());
        push_separator(q);
        push_integer(q, self.auth_validator_id as i64);
        push_separator(q);
        push_literal(q, self.authenticator.as_str());
        push_separator(q);
        push_integer(q, self.gas_used as i64);
        push_separator(q);
        push_literal(q, self.status.as_str());
        push_separator(q);
        push_literal(q, self.event_root.as_str());
        push_separator(q);
        push_literal(q, self.state_root.as_str());
        push_separator(q);
        push_literal(q, self.tx_accumulator_root.as_str());
        push_separator(q);
        push_integer(q, self.created_at as i64);
        push_char(q, ')');
        assert(final(q)@ =~= old(q)@ + self.sql());
    }
}

impl SqlValue for StoredEvent {
    /// The row as a parenthesised tuple, in the table's column order.
    open spec fn sql(&self) -> Seq<char> {
        seq!['('] + quoted(self.event_handle_id@)
            + separator() + quoted(self.event_key@)
            + separator() + quoted(self.event_type@)
            + separator() + quoted(self.event_data@)
            + separator() + decimal_text(self.event_index as int)
            + separator() + quoted(self.tx_hash@)
            + separator() + decimal_text(self.tx_order as int)
            + separator() + quoted(self.sender@)
            + separator() + decimal_text(self.created_at as int) + seq![')']
    }

    fn push_sql(&self, q: &mut String) {
        push_char(q, '(');
        push_literal(q, self.event_handle_id.as_str());
        push_separator(q);
        push_literal(q, self.event_key.as_str());
        push_separator(q);
        push_literal(q, self.event_type.as_str());
        push_separator(q);
        push_literal(q, self.event_data.as_str());
        push_separator(q);
        push_integer(q, self.event_index as i64);
        push_separator(q);
        push_literal(q, self.tx_hash.as_str());
        push_separator(q);
        push_integer(q, self.tx_order as i64);
        push_separator(q);
        push_literal(q, self.sender.as_str());
        push_separator(q);
        push_integer(q, self.created_at as i64);
        push_char(q, ')');
        assert(final(q)@ =~= old(q)@ + self.sql());
    }
}

impl SqlValue for String {
    /// A single-column key as one quoted literal.
    open spec fn sql(&self) -> Seq<char> {
        quoted(self@)
    }

    fn push_sql(&self, q: &mut String) {
        push_literal(q, self.as_str());
    }
}

impl SqlValue for (String, String) {
    /// A composite key as a tuple of two quoted literals.
    open spec fn sql(&self) -> Seq<char> {
        seq!['('] + quoted(self.0@) + separator() + quoted(self.1@) + seq![')']
    }

    fn push_sql(&self, q: &mut String) {
        push_char(q, '(');
        push_literal(q, self.0.as_str());
        push_separator(q);
        push_literal(q, self.1.as_str());
        push_char(q, ')');
        assert(final(q)@ =~= old(q)@ + self.sql());
    }
}

/// The upsert of object states: one row per record, and on a conflict on
/// `object_id` every column but `object_type` and `created_at` is overwritten.
/// Its effect on the table is `model::upsert_objects`.
pub open spec fn object_states_upsert_sql(rows: Seq<StoredObjectState>) -> Seq<char> {
    OBJECT_STATES_UPSERT_HEAD@ + values_list(rows) + OBJECT_STATES_UPSERT_TAIL@
}

/// Builds the text of [`object_states_upsert_sql`].
pub fn object_states_upsert_statement(rows: &[StoredObjectState]) -> (r: String)
    ensures
        r@ == object_states_upsert_sql(rows@),
{
    let mut q = String::new();
    q.append(OBJECT_STATES_UPSERT_HEAD);
    push_values_list(&mut q, rows);
    q.append(OBJECT_STATES_UPSERT_TAIL);
    assert(q@ =~= object_states_upsert_sql(rows@));
    q
}

/// The upsert of field states: one row per record, and on a conflict on
/// `(object_id, key_hex)` only `value`, `value_type`, `tx_order`,
/// `state_index` and `updated_at` are overwritten. Its effect on the table is
/// `model::upsert_fields`.
pub open spec fn field_states_upsert_sql(rows: Seq<StoredFieldState>) -> Seq<char> {
    FIELD_STATES_UPSERT_HEAD@ + values_list(rows) + FIELD_STATES_UPSERT_TAIL@
}

/// Builds the text of [`field_states_upsert_sql`].
pub fn field_states_upsert_statement(rows: &[StoredFieldState]) -> (r: String)
    ensures
        r@ == field_states_upsert_sql(rows@),
{
    let mut q = String::new();
    q.append(FIELD_STATES_UPSERT_HEAD);
    push_values_list(&mut q, rows);
    q.append(FIELD_STATES_UPSERT_TAIL);
    assert(q@ =~= field_states_upsert_sql(rows@));
    q
}

/// The insert of table change sets, with no conflict clause.
pub open spec fn table_change_sets_insert_sql(rows: Seq<StoredTableChangeSet>) -> Seq<char> {
    TABLE_CHANGE_SETS_INSERT_HEAD@ + values_list(rows)
}

/// Builds the text of [`table_change_sets_insert_sql`].
pub fn table_change_sets_insert_statement(rows: &[StoredTableChangeSet]) -> (r: String)
    ensures
        r@ == table_change_sets_insert_sql(rows@),
{
    let mut q = String::new();
    q.append(TABLE_CHANGE_SETS_INSERT_HEAD);
    push_values_list(&mut q, rows);
    assert(q@ =~= table_change_sets_insert_sql(rows@));
    q
}

/// The insert of transactions, with no conflict clause. Its effect on the
/// table is `model::append_transactions`.
pub open spec fn transactions_insert_sql(rows: Seq<StoredTransaction>) -> Seq<char> {
    TRANSACTIONS_INSERT_HEAD@ + values_list(rows)
}

/// Builds the text of [`transactions_insert_sql`].
pub fn transactions_insert_statement(rows: &[StoredTransaction]) -> (r: String)
    ensures
        r@ == transactions_insert_sql(rows@),
{
    let mut q = String::new();
    q.append(TRANSACTIONS_INSERT_HEAD);
    push_values_list(&mut q, rows);
    assert(q@ =~= transactions_insert_sql(rows@));
    q
}

/// The insert of events, with no conflict clause.
pub open spec fn events_insert_sql(rows: Seq<StoredEvent>) -> Seq<char> {
    EVENTS_INSERT_HEAD@ + values_list(rows)
}

/// Builds the text of [`events_insert_sql`].
pub fn events_insert_statement(rows: &[StoredEvent]) -> (r: String)
    ensures
        r@ == events_insert_sql(rows@),
{
    let mut q = String::new();
    q.append(EVENTS_INSERT_HEAD);
    push_values_list(&mut q, rows);
    assert(q@ =~= events_insert_sql(rows@));
    q
}

/// The deletion of the object states whose `object_id` is one of `ids`. Its
/// effect on the table is `model::delete_objects`.
pub open spec fn object_states_delete_sql(ids: Seq<String>) -> Seq<char> {
    OBJECT_STATES_DELETE_HEAD@ + values_list(ids) + seq![')']
}

/// Builds the text of [`object_states_delete_sql`].
pub fn object_states_delete_statement(ids: &[String]) -> (r: String)
    ensures
        r@ == object_states_delete_sql(ids@),
{
    let mut q = String::new();
    q.append(OBJECT_STATES_DELETE_HEAD);
    push_values_list(&mut q, ids);
    push_char(&mut q, ')');
    assert(q@ =~= object_states_delete_sql(ids@));
    q
}

/// The deletion of the field states whose `(object_id, key_hex)` is one of
/// `keys`. Its effect on the table is `model::delete_fields`.
pub open spec fn field_states_delete_sql(keys: Seq<(String, String)>) -> Seq<char> {
    FIELD_STATES_DELETE_HEAD@ + values_list(keys) + seq![')']
}

/// Builds the text of [`field_states_delete_sql`].
pub fn field_states_delete_statement(keys: &[(String, String)]) -> (r: String)
    ensures
        r@ == field_states_delete_sql(keys@),
{
    let mut q = String::new();
    q.append(FIELD_STATES_DELETE_HEAD);
    push_values_list(&mut q, keys);
    push_char(&mut q, ')');
    assert(q@ =~= field_states_delete_sql(keys@));
    q
}

/// The deletion of the field states whose `object_id` is one of `ids`. Its
/// effect on the table is `model::delete_fields_of_objects`.
pub open spec fn field_states_delete_by_object_sql(ids: Seq<String>) -> Seq<char> {
    FIELD_STATES_DELETE_BY_OBJECT_HEAD@ + values_list(ids) + seq![')']
}

/// Builds the text of [`field_states_delete_by_object_sql`].
pub fn field_states_delete_by_object_statement(ids: &[String]) -> (r: String)
    ensures
        r@ == field_states_delete_by_object_sql(ids@),
{
    let mut q = String::new();
    q.append(FIELD_STATES_DELETE_BY_OBJECT_HEAD);
    push_values_list(&mut q, ids);
    push_char(&mut q, ')');
    assert(q@ =~= field_states_delete_by_object_sql(ids@));
    q
}

} // verus!
