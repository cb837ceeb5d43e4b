use spin_apps::wasi_kv::{
    bad_request, batch_entries, batch_get, batch_get_pairs, compare_and_swap, done, err, err_str,
    get_keys, get_value, help, increment, increment_delta, key_exists, keys, require_param,
    start_key_listing, CasRequest, CasStep, KeyResponse, KvPair,
};

fn text(body: &Option<Vec<u8>>) -> String {
    String::from_utf8(body.clone().expect("a body")).expect("utf-8")
}

#[test]
fn wasi_help_lists_endpoints() {
    let r = help();
    assert_eq!(r.status, 200);
    let t = text(&r.body);
    assert!(t.starts_with("Available endpoints:\nGET / - displays this help message\n"));
    assert!(t.ends_with("POST /atomic/cas/:key - compare-and-swap: {\"current_value\": \"val1\", \"new_value\": \"val2\"}"));
    assert_eq!(t.lines().count(), 12);
}

#[test]
fn wasi_error_helpers() {
    assert_eq!((bad_request().status, bad_request().body), (400, Some(vec![])));
    assert_eq!((err().status, err().body), (500, Some(vec![])));
    let r = err_str("nope".to_string());
    assert_eq!((r.status, text(&r.body)), (500, "nope".to_string()));
    assert_eq!(require_param(None).err().expect("400").body, Some(vec![]));
    assert_eq!(require_param(Some("k".into())).ok(), Some("k".to_string()));
}

#[test]
fn wasi_reads_writes_and_exists() {
    assert_eq!(get_value(Ok(Some(b"v".to_vec()))).body, Some(b"v".to_vec()));
    let r = get_value(Ok(None));
    assert_eq!((r.status, r.body), (200, None));
    assert_eq!(get_value(Err("e".into())).status, 500);
    assert_eq!(done(Ok(())).body, Some(vec![]));
    assert_eq!(done(Ok(())).status, 200);
    assert_eq!(text(&done(Err("full".into())).body), "full");
    let r = key_exists(Ok(true));
    assert_eq!((r.status, text(&r.body)), (200, "true".to_string()));
    let r = key_exists(Ok(false));
    assert_eq!((r.status, text(&r.body)), (404, "false".to_string()));
    assert_eq!(key_exists(Err("e".into())).status, 500);
}

#[test]
fn wasi_key_listing_is_json() {
    let r = get_keys(Ok(vec!["a".into(), "b\"c".into()]));
    assert_eq!(r.status, 200);
    assert_eq!(text(&r.body), r#"["a","b\"c"]"#);
    assert_eq!(text(&get_keys(Ok(vec![])).body), "[]");
    assert_eq!(get_keys(Err("e".into())).status, 500);
}

#[test]
fn wasi_batch_set_entries() {
    let pairs = vec![
        KvPair { key: "k1".into(), value: "v1".into() },
        KvPair { key: "k2".into(), value: "é".into() },
    ];
    let entries = batch_entries(pairs);
    assert_eq!(entries, vec![("k1".to_string(), b"v1".to_vec()), ("k2".to_string(), "é".as_bytes().to_vec())]);
    assert!(batch_entries(vec![]).is_empty());
}

#[test]
fn wasi_batch_get_reports_text() {
    let results = vec![
        ("k".to_string(), Some(b"v".to_vec())),
        ("m".to_string(), None),
        ("x".to_string(), Some(vec![0x66, 0xff])),
    ];
    let pairs = batch_get_pairs(results.clone());
    assert_eq!(pairs[0], ("k".to_string(), Some("v".to_string())));
    assert_eq!(pairs[1], ("m".to_string(), None));
    assert_eq!(pairs[2], ("x".to_string(), Some("f\u{FFFD}".to_string())));
    let r = batch_get(Ok(results));
    assert_eq!(r.status, 200);
    assert_eq!(text(&r.body), "[[\"k\",\"v\"],[\"m\",null],[\"x\",\"f\u{FFFD}\"]]");
    assert_eq!(batch_get(Err("e".into())).status, 500);
}

#[test]
fn wasi_increment() {
    assert_eq!(increment_delta(b"2"), Ok(2));
    assert_eq!(increment_delta(b" -5 "), Ok(-5));
    assert!(increment_delta(b"x").is_err());
    assert!(increment_delta(b"1.5").is_err());
    assert!(increment_delta(b"").is_err());
    let r = increment(Ok(-12));
    assert_eq!((r.status, text(&r.body)), (200, "-12".to_string()));
    assert_eq!(text(&increment(Ok(i64::MAX)).body), "9223372036854775807");
    assert_eq!(increment(Err("e".into())).status, 500);
}

#[test]
fn wasi_compare_and_swap() {
    let req = CasRequest { current_value: "val1".into(), new_value: "val2".into() };
    match compare_and_swap(None, &req) {
        CasStep::Reply(r) => assert_eq!((r.status, text(&r.body)), (404, "key not found".to_string())),
        CasStep::Swap(_) => panic!("no key, no swap"),
    }
    match compare_and_swap(Some(b"other".to_vec()), &req) {
        CasStep::Reply(r) => {
            assert_eq!((r.status, text(&r.body)), (409, "current value does not match".to_string()))
        }
        CasStep::Swap(_) => panic!("mismatch, no swap"),
    }
    match compare_and_swap(Some(b"val".to_vec()), &req) {
        CasStep::Reply(r) => assert_eq!(r.status, 409),
        CasStep::Swap(_) => panic!("prefix is no match"),
    }
    match compare_and_swap(Some(b"val1".to_vec()), &req) {
        CasStep::Swap(v) => assert_eq!(v, b"val2".to_vec()),
        CasStep::Reply(_) => panic!("match swaps"),
    }
}

#[test]
fn wasi_keys_of_listing() {
    let ok: Result<KeyResponse, String> =
        Ok(KeyResponse { keys: vec!["a".into(), "b".into()], cursor: None });
    assert_eq!(keys(&ok).ok().map(|k| k.to_vec()), Some(vec!["a".to_string(), "b".to_string()]));
    let failed: Result<KeyResponse, String> = Err("e".into());
    assert_eq!(keys(&failed).err(), Some(&"e".to_string()));
}

#[test]
fn wasi_key_listing_reads_every_page() {
    let mut listing = start_key_listing();
    assert_eq!(listing.next_page(), Some(None));
    let page1 = KeyResponse { keys: vec!["a".into(), "b".into()], cursor: Some("c1".into()) };
    assert!(listing.record_page(Ok(page1)).is_none());
    assert_eq!(listing.next_page(), Some(Some("c1")));
    let page2 = KeyResponse { keys: vec!["c".into()], cursor: None };
    assert!(listing.record_page(Ok(page2)).is_none());
    assert_eq!(listing.next_page(), None);
    let r = listing.respond();
    assert_eq!((r.status, text(&r.body)), (200, r#"["a","b","c"]"#.to_string()));
}

#[test]
fn wasi_key_listing_stops_on_error() {
    let mut listing = start_key_listing();
    let stop = listing.record_page(Err("denied".into())).expect("a stop");
    assert_eq!((stop.status, text(&stop.body)), (500, "denied".to_string()));
    let mut empty = start_key_listing();
    assert!(empty.record_page(Ok(KeyResponse { keys: vec![], cursor: None })).is_none());
    assert_eq!(text(&empty.respond().body), "[]");
}
