use powhttp_sdk::Headers;

fn sample() -> Headers {
    let mut h = Headers::new();
    h.push("Content-Type", "application/json");
    h.push("Accept", "text/html");
    h.push("set-cookie", "a=1");
    h.push("Set-Cookie", "b=2");
    h
}

#[test]
fn doc_example_lookup_is_case_insensitive() {
    let mut headers = Headers::new();
    headers.push("Content-Type", "application/json");
    headers.push("Accept", "text/html");
    assert_eq!(headers.get("content-type"), Some("application/json"));
    assert_eq!(headers.len(), 2);
}

#[test]
fn new_is_empty() {
    let h = Headers::new();
    assert!(h.is_empty());
    assert_eq!(h.len(), 0);
    assert_eq!(h.get("x"), None);
    assert!(h.get_all("x").is_empty());
    assert!(!h.contains("x"));
}

#[test]
fn get_returns_first_match() {
    let h = sample();
    assert_eq!(h.get("SET-COOKIE"), Some("a=1"));
    assert_eq!(h.get("missing"), None);
}

#[test]
fn get_all_returns_every_match_in_order() {
    let h = sample();
    assert_eq!(h.get_all("Set-Cookie"), vec!["a=1", "b=2"]);
    assert_eq!(h.get_all("accept"), vec!["text/html"]);
    assert!(h.get_all("nope").is_empty());
}

#[test]
fn contains_ignores_case() {
    let h = sample();
    assert!(h.contains("ACCEPT"));
    assert!(!h.contains("Accept-Encoding"));
}

#[test]
fn set_replaces_first_match_and_keeps_its_name() {
    let mut h = sample();
    h.set("SET-COOKIE", "c=3");
    assert_eq!(h.len(), 4);
    let pairs: Vec<(String, String)> = h.into();
    assert_eq!(pairs[2], ("set-cookie".to_string(), "c=3".to_string()));
    assert_eq!(pairs[3], ("Set-Cookie".to_string(), "b=2".to_string()));
}

#[test]
fn set_appends_when_missing() {
    let mut h = sample();
    h.set(String::from("X-New"), String::from("v"));
    assert_eq!(h.len(), 5);
    assert_eq!(h.as_slice()[4], ("X-New".to_string(), "v".to_string()));
}

#[test]
fn push_allows_duplicates() {
    let mut h = Headers::new();
    h.push("A", "1");
    h.push("a", "2");
    assert_eq!(h.len(), 2);
    assert_eq!(h.get_all("A"), vec!["1", "2"]);
}

#[test]
fn remove_takes_first_match() {
    let mut h = sample();
    assert_eq!(h.remove("set-COOKIE"), Some("a=1".to_string()));
    assert_eq!(h.len(), 3);
    assert_eq!(h.get("set-cookie"), Some("b=2"));
    assert_eq!(h.remove("missing"), None);
    assert_eq!(h.len(), 3);
}

#[test]
fn iter_yields_pairs_in_order() {
    let h = sample();
    let names: Vec<&str> = h.iter().map(|(n, _)| n.as_str()).collect();
    assert_eq!(names, vec!["Content-Type", "Accept", "set-cookie", "Set-Cookie"]);
    let by_ref: Vec<&(String, String)> = (&h).into_iter().collect();
    assert_eq!(by_ref.len(), 4);
}

#[test]
fn iter_mut_changes_values_in_place() {
    let mut h = sample();
    for (_, v) in h.iter_mut() {
        v.push('!');
    }
    assert_eq!(h.get("accept"), Some("text/html!"));
    for pair in &mut h {
        pair.1.clear();
    }
    assert_eq!(h.get("accept"), Some(""));
    assert_eq!(h.len(), 4);
}

#[test]
fn deref_and_conversions() {
    let v = vec![("A".to_string(), "1".to_string())];
    let h = Headers::from(v.clone());
    assert_eq!(h.len(), 1);
    assert_eq!(&h[..], &v[..]);
    let owned: Vec<(String, String)> = h.clone().into_iter().collect();
    assert_eq!(owned, v);
    let back: Vec<(String, String)> = h.into();
    assert_eq!(back, v);
}

#[test]
fn non_ascii_names_compare_by_unicode_lowercase() {
    let mut h = Headers::new();
    h.push("ÄRGER", "x");
    assert_eq!(h.get("ärger"), Some("x"));
}

#[test]
fn law_get_after_set_concrete() {
    let mut h = sample();
    h.set("accept", "*/*");
    assert_eq!(h.get("ACCEPT"), Some("*/*"));
    let mut e = Headers::new();
    e.set("X", "1");
    assert_eq!(e.get("x"), Some("1"));
}

#[test]
fn law_set_keeps_other_names_concrete() {
    let mut h = sample();
    let before = h.get_all("set-cookie").iter().map(|s| s.to_string()).collect::<Vec<_>>();
    h.set("accept", "*/*");
    assert_eq!(h.get_all("set-cookie"), before);
    assert_eq!(h.get("content-type"), Some("application/json"));
}

#[test]
fn law_set_len_concrete() {
    let mut h = sample();
    h.set("Accept", "x");
    assert_eq!(h.len(), 4);
    h.set("Other", "y");
    assert_eq!(h.len(), 5);
}

#[test]
fn law_contains_iff_get_concrete() {
    let h = sample();
    for name in ["accept", "ACCEPT", "nope", "Set-Cookie"] {
        assert_eq!(h.contains(name), h.get(name).is_some());
    }
}

#[test]
fn law_get_is_first_of_get_all_concrete() {
    let h = sample();
    for name in ["set-cookie", "accept", "nope"] {
        assert_eq!(h.get(name), h.get_all(name).first().copied());
    }
}

#[test]
fn law_push_appends_concrete() {
    let mut h = sample();
    h.push("SET-cookie", "z=9");
    assert_eq!(h.get_all("set-cookie"), vec!["a=1", "b=2", "z=9"]);
    assert_eq!(h.get_all("accept"), vec!["text/html"]);
}

#[test]
fn law_remove_drops_first_concrete() {
    let mut h = sample();
    h.remove("Set-Cookie");
    assert_eq!(h.get_all("set-cookie"), vec!["b=2"]);
    h.remove("Set-Cookie");
    assert!(h.get_all("set-cookie").is_empty());
    assert_eq!(h.len(), 2);
}

#[test]
fn law_lookup_ignores_case_concrete() {
    let h = sample();
    assert_eq!(h.get("content-type"), h.get("CONTENT-TYPE"));
    assert_eq!(h.get_all("set-cookie"), h.get_all("SET-COOKIE"));
    assert_eq!(h.contains("accept"), h.contains("AcCePt"));
}

#[test]
fn law_remove_undoes_push_concrete() {
    let start = sample();
    let mut h = start.clone();
    h.push("X-Fresh", "1");
    assert_eq!(h.remove("x-fresh"), Some("1".to_string()));
    assert_eq!(h, start);
}

#[test]
fn law_set_idempotent_concrete() {
    let mut once = sample();
    once.set("accept", "a");
    let mut twice = once.clone();
    twice.set("accept", "a");
    assert_eq!(once, twice);
    let mut fresh = sample();
    fresh.set("new", "n");
    let mut again = fresh.clone();
    again.set("NEW", "n");
    assert_eq!(fresh, again);
}

#[test]
fn ascii_uppercase_name_finds_the_same_headers() {
    let h = sample();
    for name in ["content-type", "Accept", "set-cookie", "missing"] {
        let upper = name.to_ascii_uppercase();
        assert_eq!(h.contains(&upper), h.contains(name));
        assert_eq!(h.get(&upper), h.get(name));
        assert_eq!(h.get_all(&upper), h.get_all(name));
    }
    assert_eq!(h.get_all("SET-COOKIE"), vec!["a=1", "b=2"]);
}

#[test]
fn names_differing_only_in_ascii_case_match() {
    let h = sample();
    assert_eq!(h.get("cOnTeNt-TyPe"), Some("application/json"));
    assert_eq!(h.get("CONTENT-TYPE"), h.get("content-type"));
    assert!(h.contains("aCCEPT"));
}

#[test]
fn names_and_values_accept_every_string_like_argument() {
    let mut h = Headers::new();
    let owned = String::from("X-Owned");
    h.push(&owned, String::from("1"));
    h.push(std::borrow::Cow::Borrowed("X-Cow"), std::borrow::Cow::Owned::<str>("2".to_string()));
    h.push(Box::<str>::from("X-Box"), 'z');
    let mut buf = String::from("X-Mut");
    h.push(buf.as_mut_str(), "4");
    assert_eq!(h.get("x-owned"), Some("1"));
    assert_eq!(h.get("x-cow"), Some("2"));
    assert_eq!(h.get("x-box"), Some("z"));
    assert_eq!(h.get("x-mut"), Some("4"));
    assert_eq!(h.len(), 4);
}
