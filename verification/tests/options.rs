use koutendb::options::{ConnectCall, ConnectOptions, ReadRingOptions, RetrieveOptions};

#[test]
fn tls_builders_imply_tls_and_keep_verification_separate() {
    let plain = ConnectOptions::new("127.0.0.1:7000");
    assert!(!plain.tls);
    assert!(!plain.tls_insecure_skip_verify);

    let ca = ConnectOptions::new("127.0.0.1:7000").tls_ca_file("/etc/kouten/ca.pem");
    assert!(ca.tls);
    assert_eq!(ca.tls_ca_file.as_deref(), Some("/etc/kouten/ca.pem"));
    assert!(!ca.tls_insecure_skip_verify);

    let named = ConnectOptions::new("127.0.0.1:7000").tls_server_name("kouten.internal");
    assert!(named.tls);
    assert!(!named.tls_insecure_skip_verify);

    let insecure = ConnectOptions::new("127.0.0.1:7000").danger_accept_invalid_certs();
    assert!(insecure.tls);
    assert!(insecure.tls_insecure_skip_verify);
}

#[test]
fn connect_options_new_sets_only_peers() {
    let o = ConnectOptions::new("10.0.0.1:1");
    assert_eq!(o.peers, "10.0.0.1:1");
    assert_eq!(o.username, None);
    assert_eq!(o.password, None);
    assert_eq!(o.auth_token, None);
    assert_eq!(o.secret_key, None);
    assert_eq!(o.galaxy, None);
    assert_eq!(o.tls_ca_file, None);
    assert_eq!(o.tls_server_name, None);
    assert_eq!(o, ConnectOptions { peers: "10.0.0.1:1".to_string(), ..ConnectOptions::default() });
}

#[test]
fn credential_builders_set_their_field_only() {
    let o = ConnectOptions::new("p")
        .username("alice")
        .password("secret")
        .auth_token("tok")
        .secret_key("shared")
        .galaxy("g1");
    assert_eq!(o.username.as_deref(), Some("alice"));
    assert_eq!(o.password.as_deref(), Some("secret"));
    assert_eq!(o.auth_token.as_deref(), Some("tok"));
    assert_eq!(o.secret_key.as_deref(), Some("shared"));
    assert_eq!(o.galaxy.as_deref(), Some("g1"));
    assert!(!o.tls);
    assert!(!o.tls_insecure_skip_verify);
    assert_eq!(o.peers, "p");
}

#[test]
fn builder_chain_never_turns_tls_off() {
    let o = ConnectOptions::new("p")
        .danger_accept_invalid_certs()
        .tls_ca_file("/ca.pem")
        .tls_server_name("srv")
        .username("bob");
    assert!(o.tls);
    assert!(o.tls_insecure_skip_verify);
    assert_eq!(o.tls_ca_file.as_deref(), Some("/ca.pem"));
    assert_eq!(o.tls_server_name.as_deref(), Some("srv"));

    let t = ConnectOptions::new("p").tls().galaxy("g");
    assert!(t.tls);
    assert!(!t.tls_insecure_skip_verify);
}

#[test]
fn retrieve_options_defaults_and_builders() {
    let d = RetrieveOptions::new();
    assert_eq!(d.ring, None);
    assert_eq!(d.budget, 8);
    assert_eq!(d.top_rings, 0);
    assert_eq!(d.focus, 0);
    assert_eq!(d, RetrieveOptions::default());
    let o = RetrieveOptions::new().ring("docs/rust").budget(4).top_rings(2).focus(-1);
    assert_eq!(o.ring.as_deref(), Some("docs/rust"));
    assert_eq!(o.budget, 4);
    assert_eq!(o.top_rings, 2);
    assert_eq!(o.focus, -1);
}

#[test]
fn read_ring_options_defaults() {
    let d = ReadRingOptions::new();
    assert_eq!(d.filter_json, None);
    assert_eq!(d.selection, None);
    assert_eq!(d.limit, 100);
    assert_eq!(d.cursor, None);
    assert!(!d.pagination);
    assert_eq!(d.page, 1);
    assert_eq!(d.page_limit, 20);
    assert_eq!(d.sort_field, None);
    assert!(d.sort_desc);
    assert_eq!(d, ReadRingOptions::default());
}

#[test]
fn read_ring_sort_and_rsort_set_direction() {
    let asc = ReadRingOptions::new().sort("time");
    assert_eq!(asc.sort_field.as_deref(), Some("time"));
    assert!(!asc.sort_desc);
    let desc = ReadRingOptions::new().sort("time").rsort("score");
    assert_eq!(desc.sort_field.as_deref(), Some("score"));
    assert!(desc.sort_desc);
}

#[test]
fn read_ring_builders_set_their_field() {
    let o = ReadRingOptions::new()
        .filter_json(r#"{"lang":"rust"}"#)
        .selection("{ title }")
        .limit(1)
        .cursor("c1")
        .pagination(true)
        .page(3)
        .page_limit(5);
    assert_eq!(o.filter_json.as_deref(), Some(r#"{"lang":"rust"}"#));
    assert_eq!(o.selection.as_deref(), Some("{ title }"));
    assert_eq!(o.limit, 1);
    assert_eq!(o.cursor.as_deref(), Some("c1"));
    assert!(o.pagination);
    assert_eq!(o.page, 3);
    assert_eq!(o.page_limit, 5);
    assert_eq!(o.sort_field, None);
    assert!(o.sort_desc);
}

#[test]
fn connect_without_tls_drops_tls_settings() {
    let mut o = ConnectOptions::new("h:1").username("u").galaxy("g");
    o.tls_ca_file = Some("/ca.pem".to_string());
    o.tls_insecure_skip_verify = true;
    match o.connect_call() {
        ConnectCall::Auth { peers, username, password, auth_token, secret_key, galaxy } => {
            assert_eq!(peers, "h:1");
            assert_eq!(username.as_deref(), Some("u"));
            assert_eq!(password, None);
            assert_eq!(auth_token, None);
            assert_eq!(secret_key, None);
            assert_eq!(galaxy.as_deref(), Some("g"));
        }
        other => panic!("expected a plain connection, got {:?}", other),
    }
}

#[test]
fn connect_with_tls_keeps_verification_setting() {
    let o = ConnectOptions::new("h:2").password("p").secret_key("s").tls_ca_file("/ca.pem");
    match o.connect_call() {
        ConnectCall::AuthTls { peers, password, secret_key, tls_ca_file, tls_server_name, tls_insecure_skip_verify, .. } => {
            assert_eq!(peers, "h:2");
            assert_eq!(password.as_deref(), Some("p"));
            assert_eq!(secret_key.as_deref(), Some("s"));
            assert_eq!(tls_ca_file.as_deref(), Some("/ca.pem"));
            assert_eq!(tls_server_name, None);
            assert!(!tls_insecure_skip_verify);
        }
        other => panic!("expected a TLS connection, got {:?}", other),
    }
    let o = ConnectOptions::new("h:3").tls_server_name("srv").danger_accept_invalid_certs();
    match o.connect_call() {
        ConnectCall::AuthTls { tls_server_name, tls_insecure_skip_verify, .. } => {
            assert_eq!(tls_server_name.as_deref(), Some("srv"));
            assert!(tls_insecure_skip_verify);
        }
        other => panic!("expected a TLS connection, got {:?}", other),
    }
}
