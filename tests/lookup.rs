use ydcv::{get_saved_answer, resolve, AnswerStore, LookupError, Origin};

#[test]
fn end_to_end_web_then_local() {
    let mut store = AnswerStore::new();
    let first = resolve(&mut store, "hello", Ok("greeting".to_string())).ok().unwrap();
    assert!(first.origin == Origin::Web);
    assert_eq!(first.answer.explain, "greeting");
    assert_eq!(first.answer.query_count, 1);
    let second = resolve(&mut store, "hello", Err("timed out".to_string())).ok().unwrap();
    assert!(second.origin == Origin::Local);
    assert_eq!(second.answer.explain, "greeting");
    assert_eq!(second.answer.query_count, 2);
}

#[test]
fn unseen_query_with_network_down_fails() {
    let mut store = AnswerStore::new();
    match resolve(&mut store, "hello", Err("connection refused".to_string())) {
        Err(LookupError::NotFound { query, cause }) => {
            assert_eq!(query, "hello");
            assert_eq!(cause, "connection refused");
        }
        Ok(_) => panic!("a lookup with no record and no network succeeded"),
    }
    assert!(get_saved_answer(&store, "hello").is_none());
}

#[test]
fn count_equals_successful_lookups() {
    let mut store = AnswerStore::new();
    let fetches = vec![
        Err("down".to_string()),
        Err("down".to_string()),
        Ok("one".to_string()),
        Err("down".to_string()),
        Ok("two".to_string()),
        Err("down".to_string()),
    ];
    let mut successes: u64 = 0;
    for f in fetches {
        if resolve(&mut store, "w", f).is_ok() {
            successes += 1;
        }
    }
    assert_eq!(successes, 4);
    let saved = get_saved_answer(&store, "w").unwrap();
    assert_eq!(saved.query_count, 4);
    assert_eq!(saved.explain, "two");
}

#[test]
fn fallback_keeps_explanation() {
    let mut store = AnswerStore::new();
    resolve(&mut store, "q", Ok("E".to_string())).ok().unwrap();
    resolve(&mut store, "q", Ok("E".to_string())).ok().unwrap();
    let r = resolve(&mut store, "q", Err("bad payload".to_string())).ok().unwrap();
    assert!(r.origin == Origin::Local);
    assert_eq!(r.answer.explain, "E");
    assert_eq!(r.answer.query_count, 3);
}

#[test]
fn lookups_of_other_queries_do_not_interfere() {
    let mut store = AnswerStore::new();
    resolve(&mut store, "a", Ok("A".to_string())).ok().unwrap();
    resolve(&mut store, "b", Ok("B".to_string())).ok().unwrap();
    resolve(&mut store, "a", Err("down".to_string())).ok().unwrap();
    assert_eq!(get_saved_answer(&store, "a").unwrap().query_count, 2);
    assert_eq!(get_saved_answer(&store, "b").unwrap().query_count, 1);
    assert_eq!(get_saved_answer(&store, "b").unwrap().explain, "B");
}
