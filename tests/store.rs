use ydcv::{
    get_saved_answer, insert_value, step_forward_with_local_only, step_forward_with_web_result,
    Answer, AnswerStore,
};

#[test]
fn missing_query_is_a_cache_miss() {
    let store = AnswerStore::new();
    assert!(get_saved_answer(&store, "hello").is_none());
}

#[test]
fn first_web_result_counts_one() {
    let mut store = AnswerStore::new();
    let a = step_forward_with_web_result(&mut store, "hello", "greeting".to_string());
    assert_eq!(a.explain, "greeting");
    assert_eq!(a.query_count, 1);
    let saved = get_saved_answer(&store, "hello").unwrap();
    assert_eq!(saved.explain, "greeting");
    assert_eq!(saved.query_count, 1);
}

#[test]
fn web_result_overwrites_explanation() {
    let mut store = AnswerStore::new();
    step_forward_with_web_result(&mut store, "q", "E1".to_string());
    let a = step_forward_with_web_result(&mut store, "q", "E2".to_string());
    assert_eq!(a.explain, "E2");
    assert_eq!(a.query_count, 2);
    let saved = get_saved_answer(&store, "q").unwrap();
    assert_eq!(saved.explain, "E2");
    assert_eq!(saved.query_count, 2);
}

#[test]
fn local_refresh_without_record_writes_nothing() {
    let mut store = AnswerStore::new();
    assert!(step_forward_with_local_only(&mut store, "q").is_none());
    assert!(get_saved_answer(&store, "q").is_none());
}

#[test]
fn local_refresh_keeps_explanation() {
    let mut store = AnswerStore::new();
    step_forward_with_web_result(&mut store, "q", "E".to_string());
    let a = step_forward_with_local_only(&mut store, "q").unwrap();
    assert_eq!(a.explain, "E");
    assert_eq!(a.query_count, 2);
    let saved = get_saved_answer(&store, "q").unwrap();
    assert_eq!(saved.explain, "E");
    assert_eq!(saved.query_count, 2);
}

#[test]
fn keys_match_exactly() {
    let mut store = AnswerStore::new();
    step_forward_with_web_result(&mut store, "Hello", "upper".to_string());
    step_forward_with_web_result(&mut store, "hello", "lower".to_string());
    step_forward_with_web_result(&mut store, "hello ", "trailing".to_string());
    assert_eq!(get_saved_answer(&store, "Hello").unwrap().explain, "upper");
    assert_eq!(get_saved_answer(&store, "hello").unwrap().explain, "lower");
    assert_eq!(get_saved_answer(&store, "hello ").unwrap().explain, "trailing");
    assert_eq!(get_saved_answer(&store, "hello").unwrap().query_count, 1);
}

#[test]
fn insert_value_replaces_in_full() {
    let mut store = AnswerStore::new();
    insert_value(&mut store, "k", Answer { explain: "a".to_string(), query_count: 7 });
    insert_value(&mut store, "k", Answer { explain: "b".to_string(), query_count: 3 });
    let saved = get_saved_answer(&store, "k").unwrap();
    assert_eq!(saved.explain, "b");
    assert_eq!(saved.query_count, 3);
}

#[test]
fn count_continues_from_inserted_record() {
    let mut store = AnswerStore::new();
    insert_value(&mut store, "k", Answer { explain: "a".to_string(), query_count: 41 });
    let a = step_forward_with_web_result(&mut store, "k", "b".to_string());
    assert_eq!(a.query_count, 42);
    let b = step_forward_with_local_only(&mut store, "k").unwrap();
    assert_eq!(b.explain, "b");
    assert_eq!(b.query_count, 43);
}

#[test]
fn largest_advancable_count() {
    let mut store = AnswerStore::new();
    insert_value(&mut store, "k", Answer { explain: "a".to_string(), query_count: u64::MAX - 1 });
    let a = step_forward_with_local_only(&mut store, "k").unwrap();
    assert_eq!(a.query_count, u64::MAX);
}

#[test]
fn duplicate_keeps_fields() {
    let a = Answer { explain: "x".to_string(), query_count: 5 };
    let b = a.duplicate();
    assert_eq!(b.explain, "x");
    assert_eq!(b.query_count, 5);
}
