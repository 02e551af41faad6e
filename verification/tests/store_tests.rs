use fsm_store::error::StoreError;
use fsm_store::store::{
    get_state_outcome, reset_outcome, set_state_outcome, state_field_of, AttrValue, Record,
    StateStore,
};

#[test]
fn get_state_request_fields() {
    let store = StateStore::new("fsm_table".to_string());
    let q = store.get_state_request(42);
    assert_eq!(q.table_name, "fsm_table");
    assert_eq!(q.key_condition_expression, "#key = :value");
    assert_eq!(q.attribute_name.0, "#key");
    assert_eq!(q.attribute_name.1, "chat_id");
    assert_eq!(q.attribute_value.0, ":value");
    assert!(matches!(&q.attribute_value.1, AttrValue::Num(s) if s == "42"));
    assert!(q.select_all_attributes);
}

#[test]
fn set_state_request_record_shape() {
    let store = StateStore::new("fsm_table".to_string());
    let put = store.set_state_request(-5, "S1".to_string());
    assert_eq!(put.table_name, "fsm_table");
    assert_eq!(put.record.len(), 3);
    assert_eq!(put.record[0].0, "chat_id");
    assert!(matches!(&put.record[0].1, AttrValue::Num(s) if s == "-5"));
    assert_eq!(put.record[1].0, "state");
    assert!(matches!(&put.record[1].1, AttrValue::Str(s) if s == "S1"));
    assert_eq!(put.record[2].0, "meta");
    match &put.record[2].1 {
        AttrValue::Mapping(entries) => {
            assert_eq!(entries.len(), 1);
            assert_eq!(entries[0].0, "scores");
            assert!(matches!(&entries[0].1, AttrValue::Mapping(inner) if inner.is_empty()));
        }
        other => panic!("meta is not a map: {:?}", other),
    }
}

#[test]
fn reset_request_key() {
    let store = StateStore::new("fsm_table".to_string());
    let del = store.reset_request(7);
    assert_eq!(del.table_name, "fsm_table");
    assert_eq!(del.key.0, "chat_id");
    assert!(matches!(&del.key.1, AttrValue::Num(s) if s == "7"));
}

#[test]
fn absent_record_yields_none() {
    // A chat id with no record: the store reports an empty item list.
    let got = get_state_outcome(Ok(Some(Vec::new())));
    assert_eq!(got, Ok(None));
}

#[test]
fn set_then_get_yields_written_state() {
    let store = StateStore::new("fsm".to_string());
    let put = store.set_state_request(11, "CONFIRMING".to_string());
    let got = get_state_outcome(Ok(Some(vec![put.record])));
    assert_eq!(got, Ok(Some("CONFIRMING".to_string())));
}

#[test]
fn second_write_overwrites_first() {
    let store = StateStore::new("fsm".to_string());
    let _first = store.set_state_request(9, "FIRST".to_string());
    let second = store.set_state_request(9, "SECOND".to_string());
    // The table keeps one record per key, so after the second upsert only
    // its record remains; its metadata is again the single empty scores map.
    match &second.record[2].1 {
        AttrValue::Mapping(entries) => {
            assert!(matches!(&entries[0].1, AttrValue::Mapping(inner) if inner.is_empty()));
        }
        other => panic!("meta is not a map: {:?}", other),
    }
    let got = get_state_outcome(Ok(Some(vec![second.record])));
    assert_eq!(got, Ok(Some("SECOND".to_string())));
}

#[test]
fn reset_then_get_yields_none() {
    // After the unconditional delete, the lookup returns an empty item list.
    let got = get_state_outcome(Ok(Some(Vec::new())));
    assert_eq!(got, Ok(None));
}

#[test]
fn reset_without_record_succeeds() {
    // The store's delete is idempotent: a completed delete is success,
    // whether or not a record existed.
    assert_eq!(reset_outcome(Ok(())), Ok(()));
}

#[test]
fn scenario_round_trip() {
    let store = StateStore::new("fsm".to_string());
    let put = store.set_state_request(42, "AWAITING_ANSWER".to_string());
    let got = get_state_outcome(Ok(Some(vec![put.record])));
    assert_eq!(got, Ok(Some("AWAITING_ANSWER".to_string())));
    let del = store.reset_request(42);
    assert!(matches!(&del.key.1, AttrValue::Num(s) if s == "42"));
    assert_eq!(reset_outcome(Ok(())), Ok(()));
    let after = get_state_outcome(Ok(Some(Vec::new())));
    assert_eq!(after, Ok(None));
}

#[test]
fn transport_failure_surfaces_store_unavailable() {
    let store = StateStore::new("fsm".to_string());
    let _q = store.get_state_request(7);
    let got = get_state_outcome(Err("connection refused".to_string()));
    match got {
        Err(StoreError::StoreUnavailable(m)) => assert_eq!(m, "FSM store is not available"),
        other => panic!("unexpected outcome: {:?}", other),
    }
    let _p = store.set_state_request(7, "S".to_string());
    let set = set_state_outcome(Err("connection refused".to_string()));
    match set {
        Err(StoreError::StoreUnavailable(m)) => assert_eq!(m, "FSM store is not available"),
        other => panic!("unexpected outcome: {:?}", other),
    }
    let _d = store.reset_request(7);
    let del = reset_outcome(Err("connection refused".to_string()));
    match del {
        Err(StoreError::StoreUnavailable(m)) => assert_eq!(m, "FSM store is not available"),
        other => panic!("unexpected outcome: {:?}", other),
    }
}

#[test]
fn absent_item_list_is_parsing_error() {
    let store = StateStore::new("fsm".to_string());
    let _q = store.get_state_request(99);
    let got = get_state_outcome(Ok(None));
    match got {
        Err(StoreError::ParsingError(m)) => {
            assert_eq!(m, "Given state is not recorded in FSM store")
        }
        other => panic!("unexpected outcome: {:?}", other),
    }
}

#[test]
fn record_without_state_field_yields_none() {
    let record: Record = vec![("other".to_string(), AttrValue::Str("x".to_string()))];
    assert_eq!(state_field_of(&record), None);
}

#[test]
fn non_string_state_field_yields_none() {
    let record: Record = vec![("state".to_string(), AttrValue::Num("3".to_string()))];
    assert_eq!(state_field_of(&record), None);
}

#[test]
fn state_field_found_after_other_fields() {
    let record: Record = vec![
        ("chat_id".to_string(), AttrValue::Num("1".to_string())),
        ("state".to_string(), AttrValue::Str("READY".to_string())),
    ];
    assert_eq!(state_field_of(&record), Some("READY".to_string()));
}

#[test]
fn only_first_item_is_read() {
    let first: Record = vec![("state".to_string(), AttrValue::Str("A".to_string()))];
    let second: Record = vec![("state".to_string(), AttrValue::Str("B".to_string()))];
    let got = get_state_outcome(Ok(Some(vec![first, second])));
    assert_eq!(got, Ok(Some("A".to_string())));
}

#[test]
fn error_message_accessor() {
    let e = StoreError::StoreUnavailable("down".to_string());
    assert_eq!(e.message().as_str(), "down");
    let p = StoreError::ParsingError("bad shape".to_string());
    assert_eq!(p.message().as_str(), "bad shape");
}
