use spin_apps::screen_mode::{ab_test_with_kv, get_result, layout_response, variant_key};

#[test]
fn layout_by_variant() {
    assert_eq!(get_result("A"), "single");
    assert_eq!(get_result("B"), "split");
    assert_eq!(get_result(""), "split");
    assert_eq!(get_result("AA"), "split");
    assert_eq!(get_result("a"), "split");
}

#[test]
fn ab_switch_from_store() {
    let sw = ab_test_with_kv(None).ok().expect("a switch");
    assert_eq!((sw.layout.as_str(), sw.next_variant.as_slice()), ("single", &b"B"[..]));
    let sw = ab_test_with_kv(Some(b"A".to_vec())).ok().expect("a switch");
    assert_eq!((sw.layout.as_str(), sw.next_variant.as_slice()), ("single", &b"B"[..]));
    let sw = ab_test_with_kv(Some(b"B".to_vec())).ok().expect("a switch");
    assert_eq!((sw.layout.as_str(), sw.next_variant.as_slice()), ("split", &b"A"[..]));
    let sw = ab_test_with_kv(Some("é".as_bytes().to_vec())).ok().expect("a switch");
    assert_eq!(sw.layout, "split");
}

#[test]
fn ab_switch_rejects_invalid_utf8() {
    assert!(ab_test_with_kv(Some(vec![0xff, 0x41])).is_err());
    assert!(ab_test_with_kv(Some(vec![0x41, 0xc3])).is_err());
}

#[test]
fn ab_switch_alternates() {
    let mut stored: Option<Vec<u8>> = None;
    let mut layouts = vec![];
    for _ in 0..5 {
        let sw = ab_test_with_kv(stored.take()).ok().expect("a switch");
        layouts.push(sw.layout.clone());
        stored = Some(sw.next_variant);
    }
    assert_eq!(layouts, ["single", "split", "single", "split", "single"]);
    let first = ab_test_with_kv(Some(b"C".to_vec())).ok().expect("a switch");
    let second = ab_test_with_kv(Some(first.next_variant)).ok().expect("a switch");
    assert_ne!(first.layout, second.layout);
}

#[test]
fn layout_page() {
    let r = layout_response("split".to_string());
    assert_eq!(r.status, 200);
    assert_eq!(r.content_type.as_deref(), Some("text/plain"));
    assert_eq!(r.body, Some(b"split".to_vec()));
}

#[test]
fn variant_is_kept_under_its_key() {
    assert_eq!(variant_key(), "variant");
}
