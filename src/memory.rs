//! Isolated in-memory `object_states`, `field_states` and `transactions` tables that apply
//! the store's batches as the database does, for callers that run without a
//! database.
use vstd::prelude::*;
use crate::model::{
    append_transactions, delete_fields, delete_fields_of_objects, delete_objects, field_key,
    field_key_set, field_overwritten, upsert_field, upsert_fields, FieldKey, FieldTable, lemma_append_prefix_fails, key_set, object_key, object_overwritten, transaction_key,
    upsert_object, upsert_objects, ObjectTable,
};
use crate::records::{
    IndexedFieldState, IndexedObjectState, IndexedTransaction, StoredFieldState, StoredObjectState,
    StoredTransaction,
};
use crate::statements::transactions_insert_statement;
use crate::store::{stored_rows, to_stored, Entity, IndexerError};

verus! {

/// The table that holds `rows`, later rows taking precedence.
pub open spec fn table_of(rows: Seq<StoredObjectState>) -> ObjectTable
    decreases rows.len(),
{
    if rows.len() == 0 {
        Map::empty()
    } else {
        table_of(rows.drop_last()).insert(object_key(rows.last()), rows.last())
    }
}

/// No two rows share an id.
pub open spec fn keys_unique(rows: Seq<StoredObjectState>) -> bool {
    forall|i: int, j: int|
        0 <= i < rows.len() && 0 <= j < rows.len() && i != j ==> object_key(rows[i]) != object_key(
            rows[j],
        )
}

proof fn lemma_table_of_lookup(rows: Seq<StoredObjectState>, i: int)
    requires
        keys_unique(rows),
        0 <= i < rows.len(),
    ensures
        table_of(rows).contains_key(object_key(rows[i])),
        table_of(rows)[object_key(rows[i])] == rows[i],
    decreases rows.len(),
{
    if i < rows.len() - 1 {
        lemma_table_of_lookup(rows.drop_last(), i);
    }
}

proof fn lemma_table_of_absent(rows: Seq<StoredObjectState>, k: Seq<char>)
    requires
        forall|i: int| 0 <= i < rows.len() ==> object_key(#[trigger] rows[i]) != k,
    ensures
        !table_of(rows).contains_key(k),
    decreases rows.len(),
{
    if rows.len() > 0 {
        lemma_table_of_absent(rows.drop_last(), k);
    }
}

proof fn lemma_table_of_update(rows: Seq<StoredObjectState>, j: int, x: StoredObjectState)
    requires
        keys_unique(rows),
        0 <= j < rows.len(),
        object_key(x) == object_key(rows[j]),
    ensures
        table_of(rows.update(j, x)) == table_of(rows).insert(object_key(x), x),
    decreases rows.len(),
{
    let u = rows.update(j, x);
    if j == rows.len() - 1 {
        assert(u.drop_last() =~= rows.drop_last());
        assert(table_of(u) =~= table_of(rows).insert(object_key(x), x));
    } else {
        assert(u.drop_last() =~= rows.drop_last().update(j, x));
        lemma_table_of_update(rows.drop_last(), j, x);
        assert(object_key(rows.last()) != object_key(x));
        assert(table_of(u) =~= table_of(rows).insert(object_key(x), x));
    }
}

/// An in-memory `object_states` table.
pub struct MemoryObjectStates {
    rows: Vec<StoredObjectState>,
}

impl View for MemoryObjectStates {
    type V = ObjectTable;

    closed spec fn view(&self) -> ObjectTable {
        table_of(self.rows@)
    }
}

impl MemoryObjectStates {
    /// The table is well formed: no two rows share an id.
    pub closed spec fn wf(&self) -> bool {
        keys_unique(self.rows@)
    }

    /// An empty table.
    pub fn new() -> (r: Self)
        ensures
            r.wf(),
            r@ == Map::<Seq<char>, StoredObjectState>::empty(),
    {
        MemoryObjectStates { rows: Vec::new() }
    }

    fn position(&self, object_id: &String) -> (r: Option<usize>)
        requires
            self.wf(),
        ensures
            r matches Some(j) ==> j < self.rows@.len() && object_key(self.rows@[j as int])
                == object_id@,
            r is None ==> !self@.contains_key(object_id@),
    {
        let n = self.rows.len();
        let mut i: usize = 0;
        while i < n
            invariant
                n == self.rows@.len(),
                i <= n,
                forall|m: int| 0 <= m < i ==> object_key(#[trigger] self.rows@[m]) != object_id@,
            decreases n - i,
        {
            if self.rows[i].object_id == *object_id {
                return Some(i);
            }
            i = i + 1;
        }
        proof {
            lemma_table_of_absent(self.rows@, object_id@);
        }
        None
    }

    /// The row with this id, if there is one.
    pub fn get(&self, object_id: &String) -> (r: Option<&StoredObjectState>)
        requires
            self.wf(),
        ensures
            r is None <==> !self@.contains_key(object_id@),
            r matches Some(row) ==> *row == self@[object_id@],
    {
        match self.position(object_id) {
            Some(j) => {
                proof {
                    lemma_table_of_lookup(self.rows@, j as int);
                }
                Some(&self.rows[j])
            },
            None => None,
        }
    }

    /// The number of rows.
    pub fn len(&self) -> (r: usize)
        requires
            self.wf(),
        ensures
            r == self@.len(),
    {
        proof {
            lemma_table_of_len(self.rows@);
        }
        self.rows.len()
    }

    fn upsert_row(&mut self, r: StoredObjectState)
        requires
            old(self).wf(),
        ensures
            final(self).wf(),
            final(self)@ == upsert_object(old(self)@, r),
    {
        match self.position(&r.object_id) {
            Some(j) => {
                let old_row = self.rows.remove(j);
                proof {
                    lemma_table_of_lookup(old(self).rows@, j as int);
                }
                let merged = StoredObjectState {
                    object_id: old_row.object_id,
                    owner: r.owner,
                    flag: r.flag,
                    value: r.value,
                    object_type: old_row.object_type,
                    state_root: r.state_root,
                    size: r.size,
                    tx_order: r.tx_order,
                    state_index: r.state_index,
                    created_at: old_row.created_at,
                    updated_at: r.updated_at,
                };
                assert(merged == object_overwritten(old(self).rows@[j as int], r));
                self.rows.insert(j, merged);
                assert(self.rows@ =~= old(self).rows@.update(j as int, merged));
                proof {
                    lemma_table_of_update(old(self).rows@, j as int, merged);
                }
            },
            None => {
                let ghost k = object_key(r);
                self.rows.push(r);
                assert(self.rows@.drop_last() =~= old(self).rows@);
                assert forall|i: int| 0 <= i < old(self).rows@.len() implies object_key(
                    #[trigger] old(self).rows@[i],
                ) != k by {
                    lemma_table_of_lookup(old(self).rows@, i);
                }
            },
        }
    }

    /// Applies the upsert of `states`, as the database applies the statement
    /// that the store builds for them.
    pub fn persist_or_update_object_states(&mut self, states: Vec<IndexedObjectState>)
        requires
            old(self).wf(),
        ensures
            final(self).wf(),
            final(self)@ == upsert_objects(old(self)@, stored_rows(states@)),
    {
        let rows: Vec<StoredObjectState> = to_stored(states);
        let ghost all = rows@;
        let ghost start = self@;
        for r in it: rows
            invariant
                self.wf(),
                it.seq() == all,
                self@ == upsert_objects(start, all.take(it.index() as int)),
        {
            self.upsert_row(r);
            assert(all.take(it.index() + 1).drop_last() =~= all.take(it.index() as int));
        }
        assert(all.take(all.len() as int) =~= all);
    }

    /// Removes the rows whose id is listed; ids with no row are ignored.
    pub fn delete_object_states(&mut self, state_pks: Vec<String>)
        requires
            old(self).wf(),
        ensures
            final(self).wf(),
            final(self)@ == delete_objects(old(self)@, state_pks@),
    {
        let ghost ids = key_set(state_pks@);
        let mut old_rows: Vec<StoredObjectState> = Vec::new();
        std::mem::swap(&mut old_rows, &mut self.rows);
        let ghost all = old_rows@;
        for r in it: old_rows
            invariant
                ids == key_set(state_pks@),
                keys_unique(all),
                it.seq() == all,
                keys_unique(self.rows@),
                self@ == table_of(all.take(it.index() as int)).remove_keys(ids),
                forall|m: int|
                    0 <= m < self.rows@.len() ==> table_of(all.take(it.index() as int)).contains_key(
                        object_key(#[trigger] self.rows@[m]),
                    ),
        {
            let ghost i = it.index() as int;
            let ghost prefix = all.take(i);
            assert(all.take(i + 1) =~= prefix.push(r));
            assert(prefix.push(r).drop_last() =~= prefix);
            assert forall|m: int| 0 <= m < prefix.len() implies object_key(#[trigger] prefix[m])
                != object_key(r) by {
                assert(prefix[m] == all[m]);
            }
            proof {
                lemma_table_of_absent(prefix, object_key(r));
            }
            if !listed(&state_pks, &r.object_id) {
                let ghost before = self.rows@;
                self.rows.push(r);
                assert(self.rows@.drop_last() =~= before);
                assert forall|m: int| 0 <= m < before.len() implies object_key(#[trigger] before[m])
                    != object_key(r) by {}
                assert(self@ =~= table_of(all.take(i + 1)).remove_keys(ids));
            } else {
                assert(self@ =~= table_of(all.take(i + 1)).remove_keys(ids));
            }
        }
        assert(all.take(all.len() as int) =~= all);
    }
}

proof fn lemma_table_of_len(rows: Seq<StoredObjectState>)
    requires
        keys_unique(rows),
    ensures
        table_of(rows).len() == rows.len(),
        table_of(rows).dom().finite(),
    decreases rows.len(),
{
    if rows.len() > 0 {
        lemma_table_of_len(rows.drop_last());
        assert forall|m: int| 0 <= m < rows.drop_last().len() implies object_key(
            #[trigger] rows.drop_last()[m],
        ) != object_key(rows.last()) by {
            assert(rows.drop_last()[m] == rows[m]);
        }
        lemma_table_of_absent(rows.drop_last(), object_key(rows.last()));
    }
}

/// Whether `id` is one of `ids`.
fn listed(ids: &Vec<String>, id: &String) -> (r: bool)
    ensures
        r == key_set(ids@).contains(id@),
{
    let n = ids.len();
    let mut i: usize = 0;
    while i < n
        invariant
            n == ids@.len(),
            i <= n,
            forall|m: int| 0 <= m < i ==> (#[trigger] ids@[m])@ != id@,
        decreases n - i,
    {
        if ids[i] == *id {
            assert(key_set(ids@).contains(id@));
            return true;
        }
        i = i + 1;
    }
    false
}

/// The field-state table that holds `rows`, later rows taking precedence.
pub open spec fn field_table_of(rows: Seq<StoredFieldState>) -> FieldTable
    decreases rows.len(),
{
    if rows.len() == 0 {
        Map::empty()
    } else {
        field_table_of(rows.drop_last()).insert(field_key(rows.last()), rows.last())
    }
}

/// No two field-state rows share a composite key.
pub open spec fn field_keys_unique(rows: Seq<StoredFieldState>) -> bool {
    forall|i: int, j: int|
        0 <= i < rows.len() && 0 <= j < rows.len() && i != j ==> field_key(rows[i]) != field_key(
            rows[j],
        )
}

proof fn lemma_field_table_lookup(rows: Seq<StoredFieldState>, i: int)
    requires
        field_keys_unique(rows),
        0 <= i < rows.len(),
    ensures
        field_table_of(rows).contains_key(field_key(rows[i])),
        field_table_of(rows)[field_key(rows[i])] == rows[i],
    decreases rows.len(),
{
    if i < rows.len() - 1 {
        lemma_field_table_lookup(rows.drop_last(), i);
    }
}

proof fn lemma_field_table_absent(rows: Seq<StoredFieldState>, k: FieldKey)
    requires
        forall|i: int| 0 <= i < rows.len() ==> field_key(#[trigger] rows[i]) != k,
    ensures
        !field_table_of(rows).contains_key(k),
    decreases rows.len(),
{
    if rows.len() > 0 {
        lemma_field_table_absent(rows.drop_last(), k);
    }
}

proof fn lemma_field_table_update(rows: Seq<StoredFieldState>, j: int, x: StoredFieldState)
    requires
        field_keys_unique(rows),
        0 <= j < rows.len(),
        field_key(x) == field_key(rows[j]),
    ensures
        field_table_of(rows.update(j, x)) == field_table_of(rows).insert(field_key(x), x),
    decreases rows.len(),
{
    let u = rows.update(j, x);
    if j == rows.len() - 1 {
        assert(u.drop_last() =~= rows.drop_last());
        assert(field_table_of(u) =~= field_table_of(rows).insert(field_key(x), x));
    } else {
        assert(u.drop_last() =~= rows.drop_last().update(j, x));
        lemma_field_table_update(rows.drop_last(), j, x);
        assert(field_key(rows.last()) != field_key(x));
        assert(field_table_of(u) =~= field_table_of(rows).insert(field_key(x), x));
    }
}

/// Whether `(object_id, key_hex)` is one of `keys`.
fn listed_pair(keys: &Vec<(String, String)>, object_id: &String, key_hex: &String) -> (r: bool)
    ensures
        r == field_key_set(keys@).contains((object_id@, key_hex@)),
{
    let n = keys.len();
    let mut i: usize = 0;
    while i < n
        invariant
            n == keys@.len(),
            i <= n,
            forall|m: int|
                0 <= m < i ==> !((#[trigger] keys@[m]).0@ == object_id@ && keys@[m].1@ == key_hex@),
        decreases n - i,
    {
        if keys[i].0 == *object_id && keys[i].1 == *key_hex {
            assert(field_key_set(keys@).contains((object_id@, key_hex@)));
            return true;
        }
        i = i + 1;
    }
    false
}

/// An in-memory `field_states` table.
pub struct MemoryFieldStates {
    rows: Vec<StoredFieldState>,
}

impl View for MemoryFieldStates {
    type V = FieldTable;

    closed spec fn view(&self) -> FieldTable {
        field_table_of(self.rows@)
    }
}

impl MemoryFieldStates {
    /// The table is well formed: no two rows share a composite key.
    pub closed spec fn wf(&self) -> bool {
        field_keys_unique(self.rows@)
    }

    /// An empty table.
    pub fn new() -> (r: Self)
        ensures
            r.wf(),
            r@ == Map::<FieldKey, StoredFieldState>::empty(),
    {
        MemoryFieldStates { rows: Vec::new() }
    }

    fn position(&self, object_id: &String, key_hex: &String) -> (r: Option<usize>)
        requires
            self.wf(),
        ensures
            r matches Some(j) ==> j < self.rows@.len() && field_key(self.rows@[j as int]) == (
                object_id@,
                key_hex@,
            ),
            r is None ==> !self@.contains_key((object_id@, key_hex@)),
    {
        let n = self.rows.len();
        let mut i: usize = 0;
        while i < n
            invariant
                n == self.rows@.len(),
                i <= n,
                forall|m: int|
                    0 <= m < i ==> field_key(#[trigger] self.rows@[m]) != (object_id@, key_hex@),
            decreases n - i,
        {
            if self.rows[i].object_id == *object_id && self.rows[i].key_hex == *key_hex {
                return Some(i);
            }
            i = i + 1;
        }
        proof {
            lemma_field_table_absent(self.rows@, (object_id@, key_hex@));
        }
        None
    }

    /// The row with this composite key, if there is one.
    pub fn get(&self, object_id: &String, key_hex: &String) -> (r: Option<&StoredFieldState>)
        requires
            self.wf(),
        ensures
            r is None <==> !self@.contains_key((object_id@, key_hex@)),
            r matches Some(row) ==> *row == self@[(object_id@, key_hex@)],
    {
        match self.position(object_id, key_hex) {
            Some(j) => {
                proof {
                    lemma_field_table_lookup(self.rows@, j as int);
                }
                Some(&self.rows[j])
            },
            None => None,
        }
    }

    fn upsert_row(&mut self, r: StoredFieldState)
        requires
            old(self).wf(),
        ensures
            final(self).wf(),
            final(self)@ == upsert_field(old(self)@, r),
    {
        match self.position(&r.object_id, &r.key_hex) {
            Some(j) => {
                let old_row = self.rows.remove(j);
                proof {
                    lemma_field_table_lookup(old(self).rows@, j as int);
                }
                let merged = StoredFieldState {
                    object_id: old_row.object_id,
                    key_hex: old_row.key_hex,
                    key_str: old_row.key_str,
                    value: r.value,
                    key_type: old_row.key_type,
                    value_type: r.value_type,
                    tx_order: r.tx_order,
                    state_index: r.state_index,
                    created_at: old_row.created_at,
                    updated_at: r.updated_at,
                };
                assert(merged == field_overwritten(old(self).rows@[j as int], r));
                self.rows.insert(j, merged);
                assert(self.rows@ =~= old(self).rows@.update(j as int, merged));
                proof {
                    lemma_field_table_update(old(self).rows@, j as int, merged);
                }
            },
            None => {
                let ghost k = field_key(r);
                self.rows.push(r);
                assert(self.rows@.drop_last() =~= old(self).rows@);
                assert forall|i: int| 0 <= i < old(self).rows@.len() implies field_key(
                    #[trigger] old(self).rows@[i],
                ) != k by {
                    lemma_field_table_lookup(old(self).rows@, i);
                }
            },
        }
    }

    /// Applies the upsert of `states`, as the database applies the statement
    /// that the store builds for them.
    pub fn persist_or_update_field_states(&mut self, states: Vec<IndexedFieldState>)
        requires
            old(self).wf(),
        ensures
            final(self).wf(),
            final(self)@ == upsert_fields(old(self)@, stored_rows(states@)),
    {
        let rows: Vec<StoredFieldState> = to_stored(states);
        let ghost all = rows@;
        let ghost start = self@;
        for r in it: rows
            invariant
                self.wf(),
                it.seq() == all,
                self@ == upsert_fields(start, all.take(it.index() as int)),
        {
            self.upsert_row(r);
            assert(all.take(it.index() + 1).drop_last() =~= all.take(it.index() as int));
        }
        assert(all.take(all.len() as int) =~= all);
    }

    /// Removes the rows whose composite key is in `keys` or whose object id is
    /// in `ids`.
    fn remove_listed(&mut self, keys: &Vec<(String, String)>, ids: &Vec<String>)
        requires
            old(self).wf(),
        ensures
            final(self).wf(),
            final(self)@ == old(self)@.remove_keys(
                field_key_set(keys@).union(Set::new(|k: FieldKey| key_set(ids@).contains(k.0))),
            ),
    {
        let ghost gone = field_key_set(keys@).union(
            Set::new(|k: FieldKey| key_set(ids@).contains(k.0)),
        );
        let mut old_rows: Vec<StoredFieldState> = Vec::new();
        std::mem::swap(&mut old_rows, &mut self.rows);
        let ghost all = old_rows@;
        for r in it: old_rows
            invariant
                gone == field_key_set(keys@).union(
                    Set::new(|k: FieldKey| key_set(ids@).contains(k.0)),
                ),
                field_keys_unique(all),
                it.seq() == all,
                field_keys_unique(self.rows@),
                self@ == field_table_of(all.take(it.index() as int)).remove_keys(gone),
                forall|m: int|
                    0 <= m < self.rows@.len() ==> field_table_of(
                        all.take(it.index() as int),
                    ).contains_key(field_key(#[trigger] self.rows@[m])),
        {
            let ghost i = it.index() as int;
            let ghost prefix = all.take(i);
            assert(all.take(i + 1) =~= prefix.push(r));
            assert(prefix.push(r).drop_last() =~= prefix);
            assert forall|m: int| 0 <= m < prefix.len() implies field_key(#[trigger] prefix[m])
                != field_key(r) by {
                assert(prefix[m] == all[m]);
            }
            proof {
                lemma_field_table_absent(prefix, field_key(r));
            }
            let drop = listed_pair(keys, &r.object_id, &r.key_hex) || listed(ids, &r.object_id);
            if !drop {
                let ghost before = self.rows@;
                self.rows.push(r);
                assert(self.rows@.drop_last() =~= before);
                assert forall|m: int| 0 <= m < before.len() implies field_key(#[trigger] before[m])
                    != field_key(r) by {}
                assert(self@ =~= field_table_of(all.take(i + 1)).remove_keys(gone));
            } else {
                assert(self@ =~= field_table_of(all.take(i + 1)).remove_keys(gone));
            }
        }
        assert(all.take(all.len() as int) =~= all);
    }

    /// Removes the rows whose `(object_id, key_hex)` is listed; keys with no
    /// row are ignored.
    pub fn delete_field_states(&mut self, state_pks: Vec<(String, String)>)
        requires
            old(self).wf(),
        ensures
            final(self).wf(),
            final(self)@ == delete_fields(old(self)@, state_pks@),
    {
        let none: Vec<String> = Vec::new();
        self.remove_listed(&state_pks, &none);
        assert(key_set(none@) =~= Set::empty());
        assert(field_key_set(state_pks@).union(Set::new(|k: FieldKey| key_set(none@).contains(k.0)))
            =~= field_key_set(state_pks@));
    }

    /// Removes the rows of the listed objects; ids with no row are ignored.
    pub fn delete_field_states_by_object_id(&mut self, object_ids: Vec<String>)
        requires
            old(self).wf(),
        ensures
            final(self).wf(),
            final(self)@ == delete_fields_of_objects(old(self)@, object_ids@),
    {
        let none: Vec<(String, String)> = Vec::new();
        self.remove_listed(&none, &object_ids);
        assert(field_key_set(none@) =~= Set::empty());
        assert(field_key_set(none@).union(Set::new(|k: FieldKey| key_set(object_ids@).contains(k.0)))
            =~= Set::new(|k: FieldKey| key_set(object_ids@).contains(k.0)));
    }
}

/// The transactions table that holds `rows`.
pub open spec fn transaction_table_of(rows: Seq<StoredTransaction>) -> Map<int, StoredTransaction>
    decreases rows.len(),
{
    if rows.len() == 0 {
        Map::empty()
    } else {
        transaction_table_of(rows.drop_last()).insert(transaction_key(rows.last()), rows.last())
    }
}

/// No two transactions share a `tx_order`.
pub open spec fn transaction_keys_unique(rows: Seq<StoredTransaction>) -> bool {
    forall|i: int, j: int|
        0 <= i < rows.len() && 0 <= j < rows.len() && i != j ==> transaction_key(rows[i])
            != transaction_key(rows[j])
}

proof fn lemma_transaction_table_absent(rows: Seq<StoredTransaction>, k: int)
    requires
        forall|i: int| 0 <= i < rows.len() ==> transaction_key(#[trigger] rows[i]) != k,
    ensures
        !transaction_table_of(rows).contains_key(k),
    decreases rows.len(),
{
    if rows.len() > 0 {
        lemma_transaction_table_absent(rows.drop_last(), k);
    }
}

proof fn lemma_transaction_table_has(rows: Seq<StoredTransaction>, i: int)
    requires
        0 <= i < rows.len(),
    ensures
        transaction_table_of(rows).contains_key(transaction_key(rows[i])),
    decreases rows.len(),
{
    if i < rows.len() - 1 {
        lemma_transaction_table_has(rows.drop_last(), i);
    }
}

/// An in-memory `transactions` table: insert only, keyed by `tx_order`.
pub struct MemoryTransactions {
    rows: Vec<StoredTransaction>,
}

impl View for MemoryTransactions {
    type V = Map<int, StoredTransaction>;

    closed spec fn view(&self) -> Map<int, StoredTransaction> {
        transaction_table_of(self.rows@)
    }
}

impl MemoryTransactions {
    /// The table is well formed: no two rows share a `tx_order`.
    pub closed spec fn wf(&self) -> bool {
        transaction_keys_unique(self.rows@)
    }

    /// An empty table.
    pub fn new() -> (r: Self)
        ensures
            r.wf(),
            r@ == Map::<int, StoredTransaction>::empty(),
    {
        MemoryTransactions { rows: Vec::new() }
    }

    /// Whether a transaction with this `tx_order` is stored.
    pub fn contains(&self, tx_order: i64) -> (r: bool)
        ensures
            r == self@.contains_key(tx_order as int),
    {
        let n = self.rows.len();
        let mut j: usize = 0;
        while j < n
            invariant
                n == self.rows@.len(),
                j <= n,
                forall|m: int| 0 <= m < j ==> transaction_key(#[trigger] self.rows@[m]) != tx_order,
            decreases n - j,
        {
            if self.rows[j].tx_order == tx_order {
                proof {
                    lemma_transaction_table_has(self.rows@, j as int);
                }
                return true;
            }
            j = j + 1;
        }
        proof {
            lemma_transaction_table_absent(self.rows@, tx_order as int);
        }
        false
    }

    /// Inserts `transactions` as one statement: all of them, or, where a
    /// `tx_order` is already stored or repeats within the batch, none, with a
    /// write error that carries the statement.
    pub fn persist_transactions(&mut self, transactions: Vec<IndexedTransaction>) -> (r: Result<
        (),
        IndexerError,
    >)
        requires
            old(self).wf(),
        ensures
            final(self).wf(),
            ({
                let applied = append_transactions(old(self)@, stored_rows(transactions@));
                &&& r is Ok <==> applied is Some
                &&& applied matches Some(t) ==> final(self)@ == t
                &&& applied is None ==> final(self)@ == old(self)@
            }),
            r matches Err(e) ==> e matches IndexerError::SQLiteWriteError { entity, .. } && entity
                == Entity::Transactions,
    {
        let mut rows: Vec<StoredTransaction> = to_stored(transactions);
        let ghost start = self.rows@;
        let n = rows.len();
        let mut i: usize = 0;
        while i < n
            invariant
                n == rows@.len(),
                i <= n,
                rows@ == stored_rows::<IndexedTransaction, StoredTransaction>(transactions@),
                old(self).rows@ == start,
                self.rows@ == start,
                transaction_keys_unique(start),
                transaction_keys_unique(start + rows@.take(i as int)),
                append_transactions(transaction_table_of(start), rows@.take(i as int)) == Some(
                    transaction_table_of(start + rows@.take(i as int)),
                ),
            decreases n - i,
        {
            let ghost done = start + rows@.take(i as int);
            let k = rows[i].tx_order;
            let in_table = self.contains(k);
            let mut dup = false;
            let mut m: usize = 0;
            while m < i && !dup
                invariant
                    i < n == rows@.len(),
                    m <= i,
                    !dup ==> forall|p: int| 0 <= p < m ==> transaction_key(#[trigger] rows@[p]) != k,
                    dup ==> exists|p: int| 0 <= p < i && transaction_key(#[trigger] rows@[p]) == k,
                decreases i - m,
            {
                if rows[m].tx_order == k {
                    dup = true;
                }
                m = m + 1;
            }
            assert(rows@.take(i + 1).drop_last() =~= rows@.take(i as int));
            assert(rows@.take(i + 1).last() == rows@[i as int]);
            assert((start + rows@.take(i + 1)).drop_last() =~= done);
            assert((start + rows@.take(i + 1)).last() == rows@[i as int]);
            if in_table || dup {
                proof {
                    if dup {
                        let p = choose|p: int| 0 <= p < i && transaction_key(#[trigger] rows@[p]) == k;
                        assert(done[start.len() + p] == rows@[p]);
                        lemma_transaction_table_has(done, start.len() + p);
                    } else {
                        if forall|p: int|
                            0 <= p < start.len() ==> transaction_key(#[trigger] start[p]) != k {
                            lemma_transaction_table_absent(start, k as int);
                        }
                        let p = choose|p: int|
                            0 <= p < start.len() && transaction_key(#[trigger] start[p]) == k;
                        assert(done[p] == start[p]);
                        lemma_transaction_table_has(done, p);
                    }
                    lemma_append_prefix_fails(transaction_table_of(start), rows@, i + 1);
                }
                let statement = transactions_insert_statement(rows.as_slice());
                return Err(
                    IndexerError::SQLiteWriteError {
                        entity: Entity::Transactions,
                        statement,
                        message: String::from_str("UNIQUE constraint failed: transactions.tx_order"),
                    },
                );
            }
            proof {
                assert forall|p: int| 0 <= p < done.len() implies transaction_key(#[trigger] done[p]) != k by {
                    if p < start.len() {
                        assert(done[p] == start[p]);
                        if transaction_key(start[p]) == k {
                            lemma_transaction_table_has(start, p);
                        }
                    } else {
                        assert(done[p] == rows@[p - start.len()]);
                    }
                }
                lemma_transaction_table_absent(done, k as int);
                let next = start + rows@.take(i + 1);
                assert forall|a: int, b: int|
                    0 <= a < next.len() && 0 <= b < next.len() && a != b implies transaction_key(next[a])
                        != transaction_key(next[b]) by {
                    if a < done.len() {
                        assert(next[a] == done[a]);
                    }
                    if b < done.len() {
                        assert(next[b] == done[b]);
                    }
                }
            }
            i = i + 1;
        }
        assert(rows@.take(n as int) =~= rows@);
        self.rows.append(&mut rows);
        Ok(())
    }
}

} // verus!
