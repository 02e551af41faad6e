//! Request construction and response interpretation for the state store.
//!
//! Every operation is described by a plain-value request (what to send) and a
//! plain-value outcome interpreter (what the transport handed back). The
//! transport itself lives outside this crate: it takes a request description,
//! performs the remote call, and reports either the response data or a
//! transport failure.

use vstd::prelude::*;
use crate::decimal::{dec_int, decimal_of_i64};
use crate::error::StoreError;

verus! {

/// A store-native attribute value: decimal-text numbers, strings, and nested
/// maps of further attribute values.
#[derive(Debug, PartialEq, Eq)]
pub enum AttrValue {
    /// A numeric attribute, carried as decimal text.
    Num(String),
    /// A string attribute.
    Str(String),
    /// A map attribute: named attribute values, names unique.
    Mapping(Vec<(String, AttrValue)>),
}

/// One stored record: named attribute values, names unique.
pub type Record = Vec<(String, AttrValue)>;

/// The value of the first field with the given name, scanning left to right.
pub open spec fn field_value(fields: Seq<(String, AttrValue)>, name: Seq<char>) -> Option<
    AttrValue,
>
    decreases fields.len(),
{
    if fields.len() == 0 {
        None
    } else if fields[0].0@ == name {
        Some(fields[0].1)
    } else {
        field_value(fields.drop_first(), name)
    }
}

/// The state name a record yields: the value of its "state" field, if that
/// field is present and holds a string; `None` otherwise.
pub open spec fn state_of_record(record: Record) -> Option<Seq<char>> {
    match field_value(record@, "state"@) {
        Some(v) => match v {
            AttrValue::Str(s) => Some(s@),
            _ => None,
        },
        None => None,
    }
}

/// The state name a query's item list yields: that of the first item, or
/// `None` when the list is empty.
pub open spec fn state_of_items(items: Seq<Record>) -> Option<Seq<char>> {
    if items.len() == 0 {
        None
    } else {
        state_of_record(items[0])
    }
}

/// The exact record a state write stores: the chat id as a decimal-text
/// number, the state name, and a metadata map holding one empty "scores" map.
pub open spec fn put_record_shape(record: Seq<(String, AttrValue)>, chat_id: int, state_name: Seq<char>) -> bool {
    &&& record.len() == 3
    &&& record[0].0@ == "chat_id"@
    &&& record[0].1 matches AttrValue::Num(s) && s@ == dec_int(chat_id)
    &&& record[1].0@ == "state"@
    &&& record[1].1 matches AttrValue::Str(s) && s@ == state_name
    &&& record[2].0@ == "meta"@
    &&& record[2].1 matches AttrValue::Mapping(entries) && entries@.len() == 1
        && entries@[0].0@ == "scores"@
        && (entries@[0].1 matches AttrValue::Mapping(inner) && inner@.len() == 0)
}

/// Whether a record's metadata is the freshly reset blob: a "meta" map
/// holding exactly one entry, "scores", itself an empty map.
pub open spec fn meta_reset(record: Record) -> bool {
    field_value(record@, "meta"@) matches Some(v) && (v matches AttrValue::Mapping(entries)
        && entries@.len() == 1 && entries@[0].0@ == "scores"@ && (entries@[0].1 matches
    AttrValue::Mapping(inner) && inner@.len() == 0))
}

/// A key lookup against the table: an equality condition on the key
/// attribute, requesting all attributes of the matching records.
pub struct QueryRequest {
    /// The table to query.
    pub table_name: String,
    /// The key condition, with a name and a value placeholder.
    pub key_condition_expression: String,
    /// The placeholder-to-name binding for the key attribute.
    pub attribute_name: (String, String),
    /// The placeholder-to-value binding for the key.
    pub attribute_value: (String, AttrValue),
    /// Whether the query requests every attribute of the matching records.
    pub select_all_attributes: bool,
}

/// An unconditional upsert of one full record.
pub struct PutRequest {
    /// The table to write to.
    pub table_name: String,
    /// The record stored, replacing any record under the same key.
    pub record: Record,
}

/// An unconditional delete of the record under one key.
pub struct DeleteRequest {
    /// The table to delete from.
    pub table_name: String,
    /// The key attribute's name and value.
    pub key: (String, AttrValue),
}

/// The state store: builds the requests of the three operations against one
/// table and interprets what the transport hands back. It holds no cache and
/// no connection; the ready-to-use store client stays with the transport
/// layer that sends the requests.
pub struct StateStore {
    /// The name of the backing table.
    pub table_name: String,
}

impl StateStore {
    /// A store over the given table.
    pub fn new(table_name: String) -> (s: Self)
        ensures
            s.table_name == table_name,
    {
        StateStore { table_name }
    }

    /// The lookup request of `get_state`: an equality query on the key
    /// attribute `chat_id`, requesting all attributes.
    pub fn get_state_request(&self, chat_id: i64) -> (r: QueryRequest)
        ensures
            r.table_name == self.table_name,
            r.key_condition_expression@ == "#key = :value"@,
            r.attribute_name.0@ == "#key"@,
            r.attribute_name.1@ == "chat_id"@,
            r.attribute_value.0@ == ":value"@,
            r.attribute_value.1 matches AttrValue::Num(s) && s@ == dec_int(chat_id as int),
            r.select_all_attributes,
    {
        QueryRequest {
            table_name: self.table_name.clone(),
            key_condition_expression: String::from_str("#key = :value"),
            attribute_name: (String::from_str("#key"), String::from_str("chat_id")),
            attribute_value: (
                String::from_str(":value"),
                AttrValue::Num(decimal_of_i64(chat_id)),
            ),
            select_all_attributes: true,
        }
    }

    /// The upsert request of `set_state`: a full replacement record holding
    /// the chat id, the state name, and a fresh metadata map whose only
    /// entry is an empty `scores` map. Any record under the same key is
    /// overwritten wholesale; prior metadata is discarded.
    pub fn set_state_request(&self, chat_id: i64, state_name: String) -> (r: PutRequest)
        ensures
            r.table_name == self.table_name,
            put_record_shape(r.record@, chat_id as int, state_name@),
    {
        let mut meta_entries: Vec<(String, AttrValue)> = Vec::new();
        meta_entries.push((String::from_str("scores"), AttrValue::Mapping(Vec::new())));
        let mut record: Record = Vec::new();
        record.push((String::from_str("chat_id"), AttrValue::Num(decimal_of_i64(chat_id))));
        record.push((String::from_str("state"), AttrValue::Str(state_name)));
        record.push((String::from_str("meta"), AttrValue::Mapping(meta_entries)));
        PutRequest { table_name: self.table_name.clone(), record }
    }

    /// The delete request of `reset`: an unconditional delete keyed by the
    /// chat id. The store's delete is idempotent, so no existence check is
    /// sent.
    pub fn reset_request(&self, chat_id: i64) -> (r: DeleteRequest)
        ensures
            r.table_name == self.table_name,
            r.key.0@ == "chat_id"@,
            r.key.1 matches AttrValue::Num(s) && s@ == dec_int(chat_id as int),
    {
        DeleteRequest {
            table_name: self.table_name.clone(),
            key: (String::from_str("chat_id"), AttrValue::Num(decimal_of_i64(chat_id))),
        }
    }
}

/// The state name held by a record, as `get_state` extracts it: the value of
/// the record's "state" field if it is present and holds a string, `None`
/// otherwise.
pub fn state_field_of(record: &Record) -> (r: Option<String>)
    ensures
        r.deep_view() == state_of_record(*record),
{
    let key = String::from_str("state");
    let n = record.len();
    let mut i: usize = 0;
    proof {
        assert(record@.skip(0) =~= record@);
    }
    while i < n
        invariant
            n == record@.len(),
            i <= n,
            key@ == "state"@,
            field_value(record@, "state"@) == field_value(record@.skip(i as int), "state"@),
        decreases n - i,
    {
        proof {
            assert(record@.skip(i as int)[0] == record@[i as int]);
        }
        if record[i].0 == key {
            match &record[i].1 {
                AttrValue::Str(s) => {
                    return Some(s.clone());
                },
                _ => {
                    return None;
                },
            }
        }
        proof {
            assert(record@.skip(i as int).drop_first() =~= record@.skip(i as int + 1));
        }
        i = i + 1;
    }
    proof {
        assert(record@.skip(n as int).len() == 0);
    }
    None
}

/// The result of `get_state`, from what the transport handed back.
///
/// A transport failure surfaces as `StoreUnavailable`; a success whose item
/// list is absent (distinct from present-but-empty) surfaces as
/// `ParsingError`; a present item list yields the state name of its first
/// item, or `None` when there is no matching record or no string-valued
/// "state" field.
pub fn get_state_outcome(response: Result<Option<Vec<Record>>, String>) -> (r: Result<
    Option<String>,
    StoreError,
>)
    ensures
        response matches Err(_) ==> (r matches Err(e) && (e matches StoreError::StoreUnavailable(
            m,
        ) && m@ == "FSM store is not available"@)),
        response matches Ok(Some(items)) ==> (r matches Ok(st) && st.deep_view()
            == state_of_items(items@)),
        (response matches Ok(opt) && opt is None) ==> (r matches Err(e) && (e matches
            StoreError::ParsingError(m) && m@ == "Given state is not recorded in FSM store"@)),
{
    match response {
        Result::Err(_) => Result::Err(
            StoreError::StoreUnavailable(String::from_str("FSM store is not available")),
        ),
        Result::Ok(Option::None) => Result::Err(
            StoreError::ParsingError(String::from_str("Given state is not recorded in FSM store")),
        ),
        Result::Ok(Option::Some(items)) => {
            if items.len() == 0 {
                Result::Ok(Option::None)
            } else {
                Result::Ok(state_field_of(&items[0]))
            }
        },
    }
}

/// The result of `set_state`, from what the transport handed back: a
/// transport failure surfaces as `StoreUnavailable`, a completed write as
/// plain success.
pub fn set_state_outcome(response: Result<(), String>) -> (r: Result<(), StoreError>)
    ensures
        response matches Ok(_) ==> r matches Ok(_),
        response matches Err(_) ==> (r matches Err(e) && (e matches StoreError::StoreUnavailable(
            m,
        ) && m@ == "FSM store is not available"@)),
{
    match response {
        Result::Ok(_) => Result::Ok(()),
        Result::Err(_) => Result::Err(
            StoreError::StoreUnavailable(String::from_str("FSM store is not available")),
        ),
    }
}

/// The result of `reset`, from what the transport handed back: a transport
/// failure surfaces as `StoreUnavailable`; a completed delete is plain
/// success, whether or not a record existed.
pub fn reset_outcome(response: Result<(), String>) -> (r: Result<(), StoreError>)
    ensures
        response matches Ok(_) ==> r matches Ok(_),
        response matches Err(_) ==> (r matches Err(e) && (e matches StoreError::StoreUnavailable(
            m,
        ) && m@ == "FSM store is not available"@)),
{
    match response {
        Result::Ok(_) => Result::Ok(()),
        Result::Err(_) => Result::Err(
            StoreError::StoreUnavailable(String::from_str("FSM store is not available")),
        ),
    }
}

} // verus!
