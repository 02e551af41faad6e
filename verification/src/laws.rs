//! The table model and the laws of the three operations.
//!
//! The backing store is a key-value table with per-key atomic lookups,
//! upserts and deletes: a lookup returns the record under the key (or none),
//! an upsert replaces it wholesale, a delete removes it unconditionally.
//! These spec functions model that documented behaviour, and the proof
//! functions state the laws that the store's operations enjoy over the
//! model.

use vstd::prelude::*;
use crate::store::{
    Record, field_value, meta_reset, put_record_shape, state_of_items, state_of_record,
};

verus! {

/// The table: at most one record per chat id.
pub type TableModel = Map<int, Record>;

/// What a key lookup returns: a one-item list when the key holds a record,
/// an empty list otherwise.
pub open spec fn query_items(table: TableModel, chat_id: int) -> Seq<Record> {
    if table.contains_key(chat_id) {
        seq![table[chat_id]]
    } else {
        Seq::empty()
    }
}

/// What an upsert leaves behind: the new record under the key, wholesale,
/// every other key untouched.
pub open spec fn table_after_put(table: TableModel, chat_id: int, record: Record) -> TableModel {
    table.insert(chat_id, record)
}

/// What a delete leaves behind: no record under the key, every other key
/// untouched.
pub open spec fn table_after_reset(table: TableModel, chat_id: int) -> TableModel {
    table.remove(chat_id)
}

/// The record a state write stores carries exactly the written name as its
/// state, and its metadata is the freshly reset blob.
pub proof fn lemma_put_record_read_back(record: Record, chat_id: int, state_name: Seq<char>)
    requires
        put_record_shape(record@, chat_id, state_name),
    ensures
        state_of_record(record) == Some(state_name),
        meta_reset(record),
{
    reveal_strlit("chat_id");
    reveal_strlit("state");
    reveal_strlit("meta");
    let fields = record@;
    assert("chat_id"@.len() == 7);
    assert("state"@.len() == 5);
    assert("meta"@.len() == 4);
    assert(fields.drop_first()[0] == fields[1]);
    assert(fields.drop_first().drop_first()[0] == fields[2]);
    assert(field_value(fields, "state"@) == field_value(fields.drop_first(), "state"@));
    assert(field_value(fields.drop_first(), "state"@) == Some(fields[1].1));
    assert(field_value(fields, "meta"@) == field_value(fields.drop_first(), "meta"@));
    assert(field_value(fields.drop_first(), "meta"@) == field_value(
        fields.drop_first().drop_first(),
        "meta"@,
    ));
    assert(field_value(fields.drop_first().drop_first(), "meta"@) == Some(fields[2].1));
}

/// A chat id with no record yields no state: its lookup returns an empty
/// item list, and an empty list carries no state name.
pub proof fn lemma_get_state_absent(table: TableModel, chat_id: int)
    requires
        !table.contains_key(chat_id),
    ensures
        state_of_items(query_items(table, chat_id)) is None,
{
}

/// After a state write, a lookup of the same chat id yields exactly the
/// state name written, whatever the table held before.
pub proof fn lemma_set_then_get(
    table: TableModel,
    chat_id: int,
    state_name: Seq<char>,
    record: Record,
)
    requires
        put_record_shape(record@, chat_id, state_name),
    ensures
        state_of_items(query_items(table_after_put(table, chat_id, record), chat_id)) == Some(
            state_name,
        ),
{
    let stored = table_after_put(table, chat_id, record);
    assert(stored[chat_id] == record);
    lemma_put_record_read_back(record, chat_id, state_name);
}

/// Two successive writes to one chat id leave exactly the table with only
/// the second record written: only the second name is retrievable, and the
/// stored metadata is again the single empty "scores" map. A write is a full
/// overwrite; nothing of the first record survives.
pub proof fn lemma_set_twice(
    table: TableModel,
    chat_id: int,
    first_name: Seq<char>,
    first_record: Record,
    second_name: Seq<char>,
    second_record: Record,
)
    requires
        put_record_shape(first_record@, chat_id, first_name),
        put_record_shape(second_record@, chat_id, second_name),
    ensures
        table_after_put(table_after_put(table, chat_id, first_record), chat_id, second_record)
            == table_after_put(table, chat_id, second_record),
        state_of_items(
            query_items(
                table_after_put(
                    table_after_put(table, chat_id, first_record),
                    chat_id,
                    second_record,
                ),
                chat_id,
            ),
        ) == Some(second_name),
        meta_reset(
            table_after_put(
                table_after_put(table, chat_id, first_record),
                chat_id,
                second_record,
            )[chat_id],
        ),
{
    let once = table_after_put(table, chat_id, second_record);
    let twice = table_after_put(
        table_after_put(table, chat_id, first_record),
        chat_id,
        second_record,
    );
    assert(twice =~= once);
    lemma_set_then_get(table_after_put(table, chat_id, first_record), chat_id, second_name, second_record);
    lemma_put_record_read_back(second_record, chat_id, second_name);
}

/// After a delete, a lookup of the same chat id yields no state, whether or
/// not a record existed before.
pub proof fn lemma_reset_then_get(table: TableModel, chat_id: int)
    ensures
        state_of_items(query_items(table_after_reset(table, chat_id), chat_id)) is None,
{
}

/// A delete of a chat id with no record changes nothing: the delete is
/// idempotent at the table level, and the operation itself reports success
/// on any completed request (`reset_outcome`).
pub proof fn lemma_reset_absent(table: TableModel, chat_id: int)
    requires
        !table.contains_key(chat_id),
    ensures
        table_after_reset(table, chat_id) == table,
{
    assert(table_after_reset(table, chat_id) =~= table);
}

} // verus!
