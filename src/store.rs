//! The store: turns a batch of indexed records into the one statement that
//! persists it, and a statement's outcome into the store's result.
use vstd::prelude::*;
use vstd::std_specs::convert::FromSpec;
use crate::records::{
    IndexedEvent, IndexedFieldState, IndexedObjectState, IndexedTableChangeSet, IndexedTransaction,
    StoredEvent, StoredFieldState, StoredObjectState, StoredTableChangeSet, StoredTransaction,
};
use crate::statements::{
    events_insert_sql, events_insert_statement, field_states_delete_by_object_sql,
    field_states_delete_by_object_statement, field_states_delete_sql, field_states_delete_statement,
    field_states_upsert_sql, field_states_upsert_statement, object_states_delete_sql,
    object_states_delete_statement, object_states_upsert_sql, object_states_upsert_statement,
    table_change_sets_insert_sql, table_change_sets_insert_statement, transactions_insert_sql,
    transactions_insert_statement,
};

verus! {

/// The kind of rows a statement writes.
#[derive(Clone, Copy, Debug, PartialEq, Eq, Structural)]
pub enum Entity {
    ObjectStates,
    FieldStates,
    TableChangeSets,
    Transactions,
    Events,
}

/// What a failed call of the store reports.
#[derive(Debug)]
pub enum IndexerError {
    /// No connection could be taken from the pool.
    SQLitePoolConnectionError(String),
    /// The statement for a batch of `entity` rows failed; `statement` is its
    /// text and `message` what the database said.
    SQLiteWriteError { entity: Entity, statement: String, message: String },
}

/// The indexer's store, over a pool of database connections of type `P`.
/// Each call takes one connection from the pool for its own statement.
pub struct SqliteIndexerStore<P> {
    pub connection_pool: P,
}

impl<P> SqliteIndexerStore<P> {
    pub fn new(connection_pool: P) -> (r: Self)
        ensures
            r.connection_pool == connection_pool,
    {
        Self { connection_pool }
    }
}

/// Each record mapped to its stored row.
pub open spec fn stored_rows<I, S: From<I>>(records: Seq<I>) -> Seq<S> {
    records.map_values(|x: I| S::from_spec(x))
}

/// Maps every record to its stored row, in order.
pub fn to_stored<I, S: From<I>>(records: Vec<I>) -> (r: Vec<S>)
    requires
        S::obeys_from_spec(),
    ensures
        r@ == stored_rows::<I, S>(records@),
{
    let ghost all = records@;
    let mut r: Vec<S> = Vec::new();
    for x in it: records
        invariant
            S::obeys_from_spec(),
            it.seq() == all,
            r@ == stored_rows::<I, S>(all.take(it.index() as int)),
    {
        r.push(S::from(x));
        assert(stored_rows::<I, S>(all.take(it.index() + 1)) =~= stored_rows::<I, S>(
            all.take(it.index() as int),
        ).push(S::from_spec(x)));
    }
    assert(all.take(all.len() as int) =~= all);
    r
}

/// The statement that upserts `states`, or `None` for an empty batch, which
/// needs no statement.
pub fn object_states_upsert_query(states: Vec<IndexedObjectState>) -> (r: Option<String>)
    ensures
        r is None <==> states@.len() == 0,
        r matches Some(q) ==> q@ == object_states_upsert_sql(stored_rows(states@)),
{
    if states.len() == 0 {
        return None;
    }
    let rows: Vec<StoredObjectState> = to_stored(states);
    Some(object_states_upsert_statement(rows.as_slice()))
}

/// The statement that upserts `states`, or `None` for an empty batch.
pub fn field_states_upsert_query(states: Vec<IndexedFieldState>) -> (r: Option<String>)
    ensures
        r is None <==> states@.len() == 0,
        r matches Some(q) ==> q@ == field_states_upsert_sql(stored_rows(states@)),
{
    if states.len() == 0 {
        return None;
    }
    let rows: Vec<StoredFieldState> = to_stored(states);
    Some(field_states_upsert_statement(rows.as_slice()))
}

/// The statement that inserts `sets`, or `None` for an empty batch.
pub fn table_change_sets_insert_query(sets: Vec<IndexedTableChangeSet>) -> (r: Option<String>)
    ensures
        r is None <==> sets@.len() == 0,
        r matches Some(q) ==> q@ == table_change_sets_insert_sql(stored_rows(sets@)),
{
    if sets.len() == 0 {
        return None;
    }
    let rows: Vec<StoredTableChangeSet> = to_stored(sets);
    Some(table_change_sets_insert_statement(rows.as_slice()))
}

/// The statement that inserts `transactions`, or `None` for an empty batch.
pub fn transactions_insert_query(transactions: Vec<IndexedTransaction>) -> (r: Option<String>)
    ensures
        r is None <==> transactions@.len() == 0,
        r matches Some(q) ==> q@ == transactions_insert_sql(stored_rows(transactions@)),
{
    if transactions.len() == 0 {
        return None;
    }
    let rows: Vec<StoredTransaction> = to_stored(transactions);
    Some(transactions_insert_statement(rows.as_slice()))
}

/// The statement that inserts `events`, or `None` for an empty batch.
pub fn events_insert_query(events: Vec<IndexedEvent>) -> (r: Option<String>)
    ensures
        r is None <==> events@.len() == 0,
        r matches Some(q) ==> q@ == events_insert_sql(stored_rows(events@)),
{
    if events.len() == 0 {
        return None;
    }
    let rows: Vec<StoredEvent> = to_stored(events);
    Some(events_insert_statement(rows.as_slice()))
}

/// The statement that deletes the object states with these ids, or `None`
/// for an empty list.
pub fn object_states_delete_query(state_pks: &Vec<String>) -> (r: Option<String>)
    ensures
        r is None <==> state_pks@.len() == 0,
        r matches Some(q) ==> q@ == object_states_delete_sql(state_pks@),
{
    if state_pks.len() == 0 {
        return None;
    }
    Some(object_states_delete_statement(state_pks.as_slice()))
}

/// The statement that deletes the field states with these composite keys, or
/// `None` for an empty list.
pub fn field_states_delete_query(state_pks: &Vec<(String, String)>) -> (r: Option<String>)
    ensures
        r is None <==> state_pks@.len() == 0,
        r matches Some(q) ==> q@ == field_states_delete_sql(state_pks@),
{
    if state_pks.len() == 0 {
        return None;
    }
    Some(field_states_delete_statement(state_pks.as_slice()))
}

/// The statement that deletes the field states of these objects, or `None`
/// for an empty list.
pub fn field_states_delete_by_object_id_query(object_ids: &Vec<String>) -> (r: Option<String>)
    ensures
        r is None <==> object_ids@.len() == 0,
        r matches Some(q) ==> q@ == field_states_delete_by_object_sql(object_ids@),
{
    if object_ids.len() == 0 {
        return None;
    }
    Some(field_states_delete_by_object_statement(object_ids.as_slice()))
}

/// The store's result for a statement on `entity` rows, from what executing
/// it gave: the number of rows it changed, or the database's message.
pub fn write_result(entity: Entity, statement: String, executed: Result<usize, String>) -> (r: Result<
    (),
    IndexerError,
>)
    ensures
        executed is Ok <==> r is Ok,
        executed matches Err(m) ==> r == (Err::<(), IndexerError>(
            IndexerError::SQLiteWriteError { entity, statement, message: m },
        )),
{
    match executed {
        Ok(_) => Ok(()),
        Err(message) => Err(IndexerError::SQLiteWriteError { entity, statement, message }),
    }
}

} // verus!
