//! What the batch statements do to the stored tables, as SQLite runs them:
//! rows are written in statement order, a conflict on the key overwrites the
//! mutable columns of the row already there, a plain insert fails on a key that
//! is taken, and a deletion removes exactly the rows whose key it lists.
use vstd::prelude::*;
use crate::records::{StoredFieldState, StoredObjectState, StoredTransaction};

verus! {

/// The key of a field state: `(object_id, key_hex)`.
pub type FieldKey = (Seq<char>, Seq<char>);

/// The `object_states` table, by `object_id`.
pub type ObjectTable = Map<Seq<char>, StoredObjectState>;

/// The `field_states` table, by `(object_id, key_hex)`.
pub type FieldTable = Map<FieldKey, StoredFieldState>;

/// The key of an object-state row.
pub open spec fn object_key(r: StoredObjectState) -> Seq<char> {
    r.object_id@
}

/// The key of a field-state row.
pub open spec fn field_key(r: StoredFieldState) -> FieldKey {
    (r.object_id@, r.key_hex@)
}

/// The row `old` after `r` was written over it: the key, `object_type` and
/// `created_at` stay, every other column comes from `r`.
pub open spec fn object_overwritten(old: StoredObjectState, r: StoredObjectState) -> StoredObjectState {
    StoredObjectState {
        object_id: old.object_id,
        owner: r.owner,
        flag: r.flag,
        value: r.value,
        object_type: old.object_type,
        state_root: r.state_root,
        size: r.size,
        tx_order: r.tx_order,
        state_index: r.state_index,
        created_at: old.created_at,
        updated_at: r.updated_at,
    }
}

/// The row `old` after `r` was written over it: the key, `key_str`,
/// `key_type` and `created_at` stay, every other column comes from `r`.
pub open spec fn field_overwritten(old: StoredFieldState, r: StoredFieldState) -> StoredFieldState {
    StoredFieldState {
        object_id: old.object_id,
        key_hex: old.key_hex,
        key_str: old.key_str,
        value: r.value,
        key_type: old.key_type,
        value_type: r.value_type,
        tx_order: r.tx_order,
        state_index: r.state_index,
        created_at: old.created_at,
        updated_at: r.updated_at,
    }
}

/// `row` holds the mutable columns of `r`.
pub open spec fn object_has_columns_of(row: StoredObjectState, r: StoredObjectState) -> bool {
    &&& row.owner == r.owner
    &&& row.flag == r.flag
    &&& row.value == r.value
    &&& row.state_root == r.state_root
    &&& row.size == r.size
    &&& row.tx_order == r.tx_order
    &&& row.state_index == r.state_index
    &&& row.updated_at == r.updated_at
}

/// `row` holds the mutable columns of `r`.
pub open spec fn field_has_columns_of(row: StoredFieldState, r: StoredFieldState) -> bool {
    &&& row.value == r.value
    &&& row.value_type == r.value_type
    &&& row.tx_order == r.tx_order
    &&& row.state_index == r.state_index
    &&& row.updated_at == r.updated_at
}

/// One row of an object-state upsert.
pub open spec fn upsert_object(t: ObjectTable, r: StoredObjectState) -> ObjectTable {
    let k = object_key(r);
    if t.contains_key(k) {
        t.insert(k, object_overwritten(t[k], r))
    } else {
        t.insert(k, r)
    }
}

/// An object-state upsert of `rows`, written in order.
pub open spec fn upsert_objects(t: ObjectTable, rows: Seq<StoredObjectState>) -> ObjectTable
    decreases rows.len(),
{
    if rows.len() == 0 {
        t
    } else {
        upsert_object(upsert_objects(t, rows.drop_last()), rows.last())
    }
}

/// One row of a field-state upsert.
pub open spec fn upsert_field(t: FieldTable, r: StoredFieldState) -> FieldTable {
    let k = field_key(r);
    if t.contains_key(k) {
        t.insert(k, field_overwritten(t[k], r))
    } else {
        t.insert(k, r)
    }
}

/// A field-state upsert of `rows`, written in order.
pub open spec fn upsert_fields(t: FieldTable, rows: Seq<StoredFieldState>) -> FieldTable
    decreases rows.len(),
{
    if rows.len() == 0 {
        t
    } else {
        upsert_field(upsert_fields(t, rows.drop_last()), rows.last())
    }
}

/// The keys that a list of single-column keys names.
pub open spec fn key_set(ids: Seq<String>) -> Set<Seq<char>> {
    Set::new(|k: Seq<char>| exists|i: int| 0 <= i < ids.len() && (#[trigger] ids[i])@ == k)
}

/// The keys that a list of composite keys names.
pub open spec fn field_key_set(keys: Seq<(String, String)>) -> Set<FieldKey> {
    Set::new(
        |k: FieldKey|
            exists|i: int| 0 <= i < keys.len() && (#[trigger] keys[i]).0@ == k.0 && keys[i].1@ == k.1,
    )
}

/// The deletion of the object states whose id is listed.
pub open spec fn delete_objects(t: ObjectTable, ids: Seq<String>) -> ObjectTable {
    t.remove_keys(key_set(ids))
}

/// The deletion of the field states whose composite key is listed.
pub open spec fn delete_fields(t: FieldTable, keys: Seq<(String, String)>) -> FieldTable {
    t.remove_keys(field_key_set(keys))
}

/// The deletion of the field states whose object id is listed.
pub open spec fn delete_fields_of_objects(t: FieldTable, ids: Seq<String>) -> FieldTable {
    t.remove_keys(Set::new(|k: FieldKey| key_set(ids).contains(k.0)))
}

/// The key of a transaction row.
pub open spec fn transaction_key(r: StoredTransaction) -> int {
    r.tx_order as int
}

/// A plain insert of transaction rows in order: `None`, the statement
/// failing, where a row's `tx_order` is already in the table or was taken by
/// an earlier row of the batch.
pub open spec fn append_transactions(t: Map<int, StoredTransaction>, rows: Seq<StoredTransaction>) -> Option<
    Map<int, StoredTransaction>,
>
    decreases rows.len(),
{
    if rows.len() == 0 {
        Some(t)
    } else {
        match append_transactions(t, rows.drop_last()) {
            Some(t1) => if t1.contains_key(transaction_key(rows.last())) {
                None
            } else {
                Some(t1.insert(transaction_key(rows.last()), rows.last()))
            },
            None => None,
        }
    }
}

/// Deleting object states removes every listed id and keeps every other row
/// as it was; deleting the same ids again changes nothing.
pub proof fn lemma_object_delete(t: ObjectTable, ids: Seq<String>)
    ensures
        forall|i: int|
            0 <= i < ids.len() ==> !delete_objects(t, ids).contains_key(#[trigger] ids[i]@),
        forall|k: Seq<char>|
            !key_set(ids).contains(k) && t.contains_key(k) ==> delete_objects(t, ids).contains_key(k)
                && #[trigger] delete_objects(t, ids)[k] == t[k],
        delete_objects(delete_objects(t, ids), ids) == delete_objects(t, ids),
{
    assert forall|i: int| 0 <= i < ids.len() implies !delete_objects(t, ids).contains_key(
        #[trigger] ids[i]@,
    ) by {
        assert(key_set(ids).contains(ids[i]@));
    }
    assert(delete_objects(delete_objects(t, ids), ids) =~= delete_objects(t, ids));
}

/// Resubmitting the same object state changes nothing: two upserts of `[r]`
/// leave the table as one does.
pub proof fn lemma_object_upsert_idempotent(t: ObjectTable, r: StoredObjectState)
    ensures
        upsert_objects(upsert_objects(t, seq![r]), seq![r]) == upsert_objects(t, seq![r]),
{
    reveal_with_fuel(upsert_objects, 2);
    assert(seq![r].drop_last() =~= Seq::<StoredObjectState>::empty());
    let t1 = upsert_objects(t, seq![r]);
    assert(t1 == upsert_object(t, r));
    assert(upsert_objects(t1, seq![r]) == upsert_object(t1, r));
    assert(upsert_object(t1, r) =~= t1);
}

/// `object_type` and `created_at` keep their first-written values when a
/// record with the same id is upserted later, whatever values it carries for
/// them; the other columns take the later record's values.
pub proof fn lemma_object_immutable_columns_kept(
    t: ObjectTable,
    r: StoredObjectState,
    later: StoredObjectState,
)
    requires
        object_key(later) == object_key(r),
    ensures
        ({
            let k = object_key(r);
            let first = upsert_objects(t, seq![r]);
            let row = upsert_objects(first, seq![later])[k];
            &&& first.contains_key(k)
            &&& row.object_type == first[k].object_type
            &&& row.created_at == first[k].created_at
            &&& !t.contains_key(k) ==> row.object_type == r.object_type && row.created_at
                == r.created_at
            &&& object_has_columns_of(row, later)
        }),
{
    reveal_with_fuel(upsert_objects, 2);
    assert(seq![r].drop_last() =~= Seq::<StoredObjectState>::empty());
    assert(seq![later].drop_last() =~= Seq::<StoredObjectState>::empty());
}

/// Of two records with the same id in one object-state upsert, the later one
/// decides the row's mutable columns.
pub proof fn lemma_object_batch_last_wins(t: ObjectTable, a: StoredObjectState, b: StoredObjectState)
    requires
        object_key(a) == object_key(b),
    ensures
        upsert_objects(t, seq![a, b]).contains_key(object_key(b)),
        object_has_columns_of(upsert_objects(t, seq![a, b])[object_key(b)], b),
{
    reveal_with_fuel(upsert_objects, 3);
    assert(seq![a, b].drop_last() =~= seq![a]);
    assert(seq![a].drop_last() =~= Seq::<StoredObjectState>::empty());
}

/// Resubmitting the same field state changes nothing, and a later record
/// with the same key leaves `key_str`, `key_type` and `created_at` as first
/// written.
pub proof fn lemma_field_upsert_idempotent(t: FieldTable, r: StoredFieldState, later: StoredFieldState)
    requires
        field_key(later) == field_key(r),
    ensures
        upsert_fields(upsert_fields(t, seq![r]), seq![r]) == upsert_fields(t, seq![r]),
        ({
            let k = field_key(r);
            let first = upsert_fields(t, seq![r]);
            let row = upsert_fields(first, seq![later])[k];
            &&& row.key_str == first[k].key_str
            &&& row.key_type == first[k].key_type
            &&& row.created_at == first[k].created_at
            &&& field_has_columns_of(row, later)
        }),
{
    reveal_with_fuel(upsert_fields, 2);
    assert(seq![r].drop_last() =~= Seq::<StoredFieldState>::empty());
    assert(seq![later].drop_last() =~= Seq::<StoredFieldState>::empty());
    let t1 = upsert_fields(t, seq![r]);
    assert(upsert_field(t1, r) =~= t1);
}

/// Of two records with the same key in one field-state upsert, the later one
/// decides the row's mutable columns.
pub proof fn lemma_field_batch_last_wins(t: FieldTable, a: StoredFieldState, b: StoredFieldState)
    requires
        field_key(a) == field_key(b),
    ensures
        upsert_fields(t, seq![a, b]).contains_key(field_key(b)),
        field_has_columns_of(upsert_fields(t, seq![a, b])[field_key(b)], b),
{
    reveal_with_fuel(upsert_fields, 3);
    assert(seq![a, b].drop_last() =~= seq![a]);
    assert(seq![a].drop_last() =~= Seq::<StoredFieldState>::empty());
}

/// Deleting field states by composite key leaves every row whose key is not
/// listed as it was, in particular those that share only the object id or
/// only the field key with a listed one.
pub proof fn lemma_field_delete_isolated(t: FieldTable, keys: Seq<(String, String)>, other: FieldKey)
    requires
        !field_key_set(keys).contains(other),
    ensures
        delete_fields(t, keys).contains_key(other) == t.contains_key(other),
        t.contains_key(other) ==> delete_fields(t, keys)[other] == t[other],
{
}

/// Deleting field states by composite key removes every listed key.
pub proof fn lemma_field_delete_removes(t: FieldTable, keys: Seq<(String, String)>, i: int)
    requires
        0 <= i < keys.len(),
    ensures
        !delete_fields(t, keys).contains_key((keys[i].0@, keys[i].1@)),
{
    assert(field_key_set(keys).contains((keys[i].0@, keys[i].1@)));
}

/// A batch with no rows changes no table, and an insert of no rows succeeds.
pub proof fn lemma_empty_batches(o: ObjectTable, f: FieldTable, x: Map<int, StoredTransaction>)
    ensures
        upsert_objects(o, Seq::empty()) == o,
        upsert_fields(f, Seq::empty()) == f,
        delete_objects(o, Seq::empty()) == o,
        delete_fields(f, Seq::empty()) == f,
        delete_fields_of_objects(f, Seq::empty()) == f,
        append_transactions(x, Seq::empty()) == Some(x),
{
    assert(key_set(Seq::empty()) =~= Set::empty());
    assert(field_key_set(Seq::empty()) =~= Set::empty());
    assert(delete_objects(o, Seq::empty()) =~= o);
    assert(delete_fields(f, Seq::empty()) =~= f);
    assert(delete_fields_of_objects(f, Seq::empty()) =~= f);
}

proof fn lemma_append_grows(t: Map<int, StoredTransaction>, rows: Seq<StoredTransaction>)
    requires
        append_transactions(t, rows) is Some,
    ensures
        t.dom().subset_of(append_transactions(t, rows)->0.dom()),
        forall|i: int|
            0 <= i < rows.len() ==> append_transactions(t, rows)->0.contains_key(
                transaction_key(#[trigger] rows[i]),
            ),
    decreases rows.len(),
{
    if rows.len() > 0 {
        lemma_append_grows(t, rows.drop_last());
        assert forall|i: int| 0 <= i < rows.len() - 1 implies rows.drop_last()[i] == rows[i] by {}
    }
}

proof fn lemma_append_taken_fails(t: Map<int, StoredTransaction>, rows: Seq<StoredTransaction>, i: int)
    requires
        0 <= i < rows.len(),
        t.contains_key(transaction_key(rows[i])),
    ensures
        append_transactions(t, rows) is None,
    decreases rows.len(),
{
    if i < rows.len() - 1 {
        assert(rows.drop_last()[i] == rows[i]);
        lemma_append_taken_fails(t, rows.drop_last(), i);
    } else if append_transactions(t, rows.drop_last()) is Some {
        lemma_append_grows(t, rows.drop_last());
    }
}

/// A batch that fails on some prefix fails as a whole: an insert is all or
/// nothing.
pub proof fn lemma_append_prefix_fails(t: Map<int, StoredTransaction>, rows: Seq<StoredTransaction>, m: int)
    requires
        0 <= m <= rows.len(),
        append_transactions(t, rows.take(m)) is None,
    ensures
        append_transactions(t, rows) is None,
    decreases rows.len() - m,
{
    if m < rows.len() {
        assert(rows.take(m + 1).drop_last() =~= rows.take(m));
        lemma_append_prefix_fails(t, rows, m + 1);
    } else {
        assert(rows.take(m) =~= rows);
    }
}

/// Persisting the same transactions twice through the insert path fails the
/// second time: an append-only table never absorbs a duplicate.
pub proof fn lemma_transactions_twice_rejected(t: Map<int, StoredTransaction>, rows: Seq<StoredTransaction>)
    requires
        rows.len() > 0,
        append_transactions(t, rows) is Some,
    ensures
        append_transactions(append_transactions(t, rows)->0, rows) is None,
{
    lemma_append_grows(t, rows);
    lemma_append_taken_fails(append_transactions(t, rows)->0, rows, 0);
}

} // verus!
