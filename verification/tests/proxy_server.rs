use powhttp_sdk::proxy_server::{
    AcceptOptions, ConnectResult, Proxy, ProxyType, TargetAddress,
};

#[test]
fn target_address_new_from_str_and_string() {
    let a = TargetAddress::new("example.com", 443);
    assert_eq!(a.host, "example.com");
    assert_eq!(a.port, 443);
    let b = TargetAddress::new(String::from("h"), 80);
    assert_eq!(b, TargetAddress { host: "h".into(), port: 80 });
}

#[test]
fn accept_uses_defaults() {
    match ConnectResult::accept() {
        ConnectResult::Accept(o) => {
            assert!(o.target_addr.is_none());
            assert!(o.proxy.is_none());
            assert!(o.record.is_none());
            assert!(o.intercept_tls.is_none());
        }
        ConnectResult::Reject => panic!("expected accept"),
    }
}

#[test]
fn use_proxy_sets_only_the_proxy() {
    let p = Proxy::socks5("127.0.0.1".into(), 1080, Some("u".into()), Some("p".into()));
    match ConnectResult::use_proxy(Some(p)) {
        ConnectResult::Accept(o) => {
            let p = o.proxy.expect("proxy");
            assert_eq!(p.proxy_type(), ProxyType::Socks5);
            assert_eq!(p.host(), "127.0.0.1");
            assert_eq!(p.port(), 1080);
            assert_eq!(p.username().map(|s| s.as_str()), Some("u"));
            assert_eq!(p.password().map(|s| s.as_str()), Some("p"));
            assert!(o.target_addr.is_none());
            assert!(o.record.is_none());
            assert!(o.intercept_tls.is_none());
        }
        ConnectResult::Reject => panic!("expected accept"),
    }
    assert!(matches!(ConnectResult::use_proxy(None), ConnectResult::Accept(AcceptOptions { proxy: None, .. })));
}

#[test]
fn reject_is_reject() {
    assert!(matches!(ConnectResult::reject(), ConnectResult::Reject));
}

#[test]
fn from_accept_options() {
    let opts = AcceptOptions { record: Some(false), ..Default::default() };
    match ConnectResult::from(opts) {
        ConnectResult::Accept(o) => assert_eq!(o.record, Some(false)),
        ConnectResult::Reject => panic!("expected accept"),
    }
}

#[test]
fn proxy_type_defaults_to_http() {
    assert_eq!(ProxyType::default(), ProxyType::Http);
}

#[test]
fn proxy_constructors_set_type_and_credentials() {
    let cases = [
        (Proxy::http("h".into(), 1, Some("u".into()), Some("p".into())), ProxyType::Http, true),
        (Proxy::https("h".into(), 1, Some("u".into()), Some("p".into())), ProxyType::Https, true),
        (Proxy::socks5("h".into(), 1, Some("u".into()), Some("p".into())), ProxyType::Socks5, true),
        (Proxy::socks5h("h".into(), 1, Some("u".into()), Some("p".into())), ProxyType::Socks5h, true),
        (Proxy::socks4("h".into(), 1, Some("u".into())), ProxyType::Socks4, false),
        (Proxy::socks4a("h".into(), 1, Some("u".into())), ProxyType::Socks4a, false),
    ];
    for (p, t, has_password) in cases {
        assert_eq!(p.proxy_type(), t);
        assert_eq!(p.host(), "h");
        assert_eq!(p.port(), 1);
        assert_eq!(p.username().map(|s| s.as_str()), Some("u"));
        assert_eq!(p.password().is_some(), has_password);
    }
}
