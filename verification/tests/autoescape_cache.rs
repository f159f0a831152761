use minijinja_bridge::autoescape::AutoEscapeCache;

#[test]
fn same_name_twice_returns_equal_tokens() {
    let mut cache = AutoEscapeCache::new();
    let t1 = cache.get_custom_autoescape("mako");
    let t2 = cache.get_custom_autoescape("mako");
    assert_eq!(t1, t2);
}

#[test]
fn distinct_names_return_distinct_tokens() {
    let mut cache = AutoEscapeCache::new();
    let t1 = cache.get_custom_autoescape("mako");
    let t2 = cache.get_custom_autoescape("rst");
    assert_ne!(t1, t2);
}

#[test]
fn cache_grows_once_per_distinct_name() {
    let mut cache = AutoEscapeCache::new();
    cache.get_custom_autoescape("a");
    cache.get_custom_autoescape("b");
    cache.get_custom_autoescape("a");
    cache.get_custom_autoescape("b");
    cache.get_custom_autoescape("c");
    assert_eq!(cache.names.len(), 3);
    assert_eq!(cache.names, vec![
        String::from("a"),
        String::from("b"),
        String::from("c"),
    ]);
}

#[test]
fn tokens_index_their_names() {
    let mut cache = AutoEscapeCache::new();
    let t1 = cache.get_custom_autoescape("first");
    let t2 = cache.get_custom_autoescape("second");
    assert_eq!(cache.names[t1.id], "first");
    assert_eq!(cache.names[t2.id], "second");
}
