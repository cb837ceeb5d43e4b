use spin_apps::kv_showcase::{
    bad_request, err, err_str, exists_response, get_all_response, get_value_five_times,
    get_value_json_response, get_value_times, hello_world, help, kbs_string, require_param,
    set_value_with_size_kbs, set_value_with_size_kbs_done, stored_response, value_response,
};

fn body_text(body: &Option<Vec<u8>>) -> String {
    String::from_utf8(body.clone().expect("a body")).expect("utf-8 body")
}

#[test]
fn help_lists_endpoints() {
    let r = help();
    assert_eq!(r.status, 200);
    assert!(r.content_type.is_none());
    let text = body_text(&r.body);
    let expected = [
        "Available endpoints:",
        "GET /hello - returns a hello world message",
        "GET /all - returns all keys",
        "POST /get - retrieves a value by key in JSON format '{\"key\": \"mykey\"}'",
        "POST /set - sets a key-value pair in JSON format '{\"key\": \"mykey\", \"value\": \"myvalue\"}'",
        "GET /exists/:key - checks if a key exists in the store. Found: 200; Not Found: 404 ",
        "POST /:key - sets the value for the key to be the http body: curl localhost:3000/foo -d \"bar\"",
        "GET /:key - retrieves a value for the key in the URL path",
        "GET /5/:key - retrieves a value by key (5 times)",
        "POST /kbs/:size - sets a key-value pair with a specific size in KBs in the key 'kbs'",
        "DELETE /:key - deletes a key-value pair",
        "GET /help - displays this help message",
    ]
    .join("\n");
    assert_eq!(text, expected);
    assert_eq!(text.lines().count(), 12);
}

#[test]
fn hello_world_greets() {
    let r = hello_world();
    assert_eq!(r.status, 200);
    assert_eq!(body_text(&r.body), "Hello, World!");
}

#[test]
fn error_helpers() {
    let r = bad_request();
    assert_eq!((r.status, r.body), (400, None));
    let r = err();
    assert_eq!((r.status, r.body), (500, None));
    let r = err_str("store is down".to_string());
    assert_eq!(r.status, 500);
    assert_eq!(body_text(&r.body), "store is down");
}

#[test]
fn kbs_string_sizes() {
    assert_eq!(kbs_string(0), "");
    let one = kbs_string(1);
    assert_eq!(one.len(), 1024);
    assert!(one.chars().all(|c| c == 'A'));
    assert_eq!(kbs_string(3).len(), 3 * 1024);
}

#[test]
fn kbs_write_rejects_missing_zero_and_unreadable_sizes() {
    for size in [None, Some("0"), Some("abc"), Some(""), Some("-2"), Some(" 2")] {
        let r = set_value_with_size_kbs(size).err().expect("a 400");
        assert_eq!(r.status, 400);
        assert!(r.body.is_none());
    }
}

#[test]
fn kbs_write_plans_the_value() {
    let w = set_value_with_size_kbs(Some("2")).ok().expect("a write");
    assert_eq!(w.key, "kbs");
    assert_eq!(w.size_kbs, 2);
    assert_eq!(w.value.len(), 2048);
    let w = set_value_with_size_kbs(Some("+3")).ok().expect("a write");
    assert_eq!(w.size_kbs, 3);
    assert_eq!(w.value.as_bytes().len(), 3072);
}

#[test]
fn kbs_write_confirmation() {
    let r = set_value_with_size_kbs_done(2, Ok(()));
    assert_eq!(r.status, 200);
    assert_eq!(body_text(&r.body), "set key kbs with size 2 KBs");
    let r = set_value_with_size_kbs_done(1024, Ok(()));
    assert_eq!(body_text(&r.body), "set key kbs with size 1024 KBs");
    let r = set_value_with_size_kbs_done(2, Err("quota exceeded".to_string()));
    assert_eq!(r.status, 500);
    assert_eq!(body_text(&r.body), "quota exceeded");
}

#[test]
fn missing_param_is_bad_request() {
    assert_eq!(require_param(Some("k".to_string())).ok(), Some("k".to_string()));
    let r = require_param(None).err().expect("a 400");
    assert_eq!(r.status, 400);
}

#[test]
fn write_outcomes() {
    let r = stored_response(Ok(()));
    assert_eq!((r.status, r.body), (200, None));
    let r = stored_response(Err("denied".to_string()));
    assert_eq!(r.status, 500);
    assert_eq!(body_text(&r.body), "denied");
}

#[test]
fn read_outcomes() {
    let r = value_response(Ok(Some(b"bar".to_vec())));
    assert_eq!((r.status, r.body), (200, Some(b"bar".to_vec())));
    let r = value_response(Ok(None));
    assert_eq!((r.status, r.body), (404, None));
    let r = value_response(Err("io".to_string()));
    assert_eq!(r.status, 500);
    assert_eq!(body_text(&r.body), "io");
}

#[test]
fn json_read_outcomes() {
    let r = get_value_json_response(Ok(Some(b"bar".to_vec())));
    assert_eq!((r.status, r.body), (200, Some(b"bar".to_vec())));
    let r = get_value_json_response(Ok(None));
    assert_eq!(r.status, 500);
    assert_eq!(body_text(&r.body), "no such key");
    let r = get_value_json_response(Err("io".to_string()));
    assert_eq!((r.status, body_text(&r.body)), (500, "io".to_string()));
}

#[test]
fn five_reads_of_a_key() {
    assert_eq!(get_value_five_times(None).err().expect("a 400").status, 400);
    let mut rr = get_value_five_times(Some("foo".to_string())).ok().expect("reads");
    assert_eq!(rr.key(), "foo");
    assert_eq!(rr.seed_value(), None);
    let mut reads = 0;
    while rr.wants_read() {
        assert!(rr.record(Ok(Some(b"ab".to_vec()))).is_none());
        reads += 1;
    }
    assert_eq!(reads, 5);
    assert_eq!(body_text(&rr.respond().body), "ababababab");
}

#[test]
fn exists_outcomes() {
    assert_eq!(exists_response(Ok(true)).status, 200);
    assert_eq!(exists_response(Ok(false)).status, 404);
    let r = exists_response(Err("io".to_string()));
    assert_eq!(r.status, 500);
    assert_eq!(body_text(&r.body), "io");
}

#[test]
fn all_keys_are_comma_separated() {
    let keys = vec!["a".to_string(), "bb".to_string(), "c".to_string()];
    let r = get_all_response(Ok(keys));
    assert_eq!(r.status, 200);
    assert_eq!(body_text(&r.body), "a,bb,c");
    assert_eq!(body_text(&get_all_response(Ok(vec![])).body), "");
    assert_eq!(body_text(&get_all_response(Ok(vec!["only".to_string()])).body), "only");
    assert_eq!(get_all_response(Err("x".to_string())).status, 500);
}

#[test]
fn repeat_reads_count_times() {
    let mut rr = get_value_times(Some("3")).ok().expect("reads");
    assert_eq!(rr.key(), "key");
    assert_eq!(rr.seed_value(), Some("value"));
    let mut reads = 0;
    while rr.wants_read() {
        assert!(rr.record(Ok(Some(b"value".to_vec()))).is_none());
        reads += 1;
    }
    assert_eq!(reads, 3);
    let r = rr.respond();
    assert_eq!(r.status, 200);
    assert_eq!(body_text(&r.body), "valuevaluevalue");
}

#[test]
fn repeat_defaults_to_one_read() {
    let mut rr = get_value_times(Some("many")).ok().expect("reads");
    assert!(rr.wants_read());
    assert!(rr.record(Ok(Some(b"v".to_vec()))).is_none());
    assert!(!rr.wants_read());
    assert_eq!(body_text(&rr.respond().body), "v");
    let rr = get_value_times(Some("0")).ok().expect("reads");
    assert!(!rr.wants_read());
    assert_eq!(rr.respond().body, Some(vec![]));
}

#[test]
fn repeat_stops_on_failed_read() {
    assert_eq!(get_value_times(None).err().expect("a 400").status, 400);
    let mut rr = get_value_times(Some("2")).ok().expect("reads");
    let stop = rr.record(Err("gone".to_string())).expect("a stop");
    assert_eq!((stop.status, stop.body), (500, None));
    let mut rr2 = get_value_times(Some("2")).ok().expect("reads");
    let stop = rr2.record(Ok(None)).expect("a stop");
    assert_eq!(stop.status, 500);
    assert!(rr.wants_read());
}
