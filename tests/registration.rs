use base64::Engine;
use matrix_appservices::{AppServiceRegistration, Error, Namespace, NamespaceKind, Namespaces};

fn sample() -> AppServiceRegistration {
    AppServiceRegistration::builder("test-bridge".to_string())
        .sender_localpart("bridgebot".to_string())
        .url(Some("https://example.org".to_string()))
        .namespace(NamespaceKind::User, "@bridge_.*:example.org".to_string(), true)
        .namespace(NamespaceKind::User, "@other_.*:example.org".to_string(), false)
        .namespace(NamespaceKind::Alias, "#bridge_.*:example.org".to_string(), true)
        .protocol("irc".to_string())
        .protocols(vec!["xmpp".to_string(), "irc".to_string()])
        .build()
}

#[test]
fn kind_names_in_any_case_and_number() {
    for s in ["alias", "Alias", "ALIASES", "aLiAsEs"] {
        assert_eq!(NamespaceKind::parse(s), Ok(NamespaceKind::Alias));
    }
    for s in ["room", "ROOM", "Rooms", "rOOMS"] {
        assert_eq!(NamespaceKind::parse(s), Ok(NamespaceKind::Room));
    }
    for s in ["user", "USER", "Users", "uSeRs"] {
        assert_eq!(NamespaceKind::parse(s), Ok(NamespaceKind::User));
    }
}

#[test]
fn unknown_kind_keeps_the_text_as_given() {
    assert_eq!(
        NamespaceKind::parse("rooms2"),
        Err(Error::UnknownNamespaceKind("rooms2".to_string()))
    );
    assert_eq!(
        NamespaceKind::parse("ROOMS2"),
        Err(Error::UnknownNamespaceKind("ROOMS2".to_string()))
    );
    assert_eq!(NamespaceKind::parse(""), Err(Error::UnknownNamespaceKind(String::new())));
    assert_eq!(
        NamespaceKind::parse("user "),
        Err(Error::UnknownNamespaceKind("user ".to_string()))
    );
}

#[test]
fn namespace_survives_the_protocol_record() {
    for (pattern, exclusive) in [("@a_.*:x", true), ("#b_.*", false), ("", true)] {
        let n = Namespace::new(pattern.to_string(), exclusive);
        let w = n.to_wire();
        assert_eq!(w.regex, pattern);
        assert_eq!(w.exclusive, exclusive);
        let back = Namespace::from_wire(&w);
        assert_eq!(back.regex(), pattern);
        assert_eq!(back.exclusive(), exclusive);
    }
}

#[test]
fn namespaces_keep_order_per_kind() {
    let mut ns = Namespaces::new();
    ns.add(NamespaceKind::Room, "!b".to_string(), false);
    ns.add(NamespaceKind::Alias, "#a".to_string(), true);
    ns.add(NamespaceKind::Room, "!a".to_string(), true);
    let rooms: Vec<String> = ns.rooms().iter().map(|n| n.regex()).collect();
    assert_eq!(rooms, vec!["!b".to_string(), "!a".to_string()]);
    assert_eq!(ns.aliases().len(), 1);
    assert!(ns.aliases()[0].exclusive());
    assert!(ns.users().is_empty());
    let back = Namespaces::from_wire(&ns.to_wire());
    let rooms: Vec<String> = back.rooms().iter().map(|n| n.regex()).collect();
    assert_eq!(rooms, vec!["!b".to_string(), "!a".to_string()]);
}

#[test]
fn built_tokens_are_fresh_keys() {
    let r = AppServiceRegistration::builder("test-bridge".to_string())
        .sender_localpart("bridgebot".to_string())
        .url(Some("https://example.org".to_string()))
        .build();
    assert!(!r.appservice_token.is_empty());
    assert!(!r.homeserver_token.is_empty());
    assert_ne!(r.appservice_token, r.homeserver_token);
    assert_eq!(r.appservice_token.len(), 32);
    let engine = base64::engine::general_purpose::STANDARD;
    assert_eq!(engine.decode(&r.appservice_token).unwrap().len(), 24);
    assert_eq!(engine.decode(&r.homeserver_token).unwrap().len(), 24);
    assert!(!r.rate_limited);
    assert!(!r.receive_ephemeral);
    assert_eq!(r.application_id, "test-bridge");
    assert_eq!(r.sender_localpart, "bridgebot");
    assert_eq!(r.url.as_deref(), Some("https://example.org"));
}

#[test]
fn given_tokens_are_kept() {
    let r = AppServiceRegistration::builder("id".to_string())
        .appservice_token("abc".to_string())
        .homeserver_token("def".to_string())
        .rate_limited(true)
        .receive_ephemeral(true)
        .url(None)
        .sender_localpart("bot".to_string())
        .build();
    assert_eq!(r.appservice_token, "abc");
    assert_eq!(r.homeserver_token, "def");
    assert!(r.rate_limited);
    assert!(r.receive_ephemeral);
    assert_eq!(r.url, None);
}

#[test]
fn generated_key_lengths() {
    assert_eq!(AppServiceRegistration::generate_key(0), "");
    assert_eq!(AppServiceRegistration::generate_key(1).len(), 4);
    assert_eq!(AppServiceRegistration::generate_key(24).len(), 32);
    assert_ne!(
        AppServiceRegistration::generate_key(24),
        AppServiceRegistration::generate_key(24)
    );
}

#[test]
fn builder_collects_in_order() {
    let r = sample();
    assert_eq!(r.protocols, vec!["irc".to_string(), "xmpp".to_string(), "irc".to_string()]);
    let users: Vec<String> = r.namespaces.users().iter().map(|n| n.regex()).collect();
    assert_eq!(
        users,
        vec!["@bridge_.*:example.org".to_string(), "@other_.*:example.org".to_string()]
    );
    let bulk = AppServiceRegistration::builder("id".to_string())
        .namespaces(vec![
            (NamespaceKind::Room, Namespace::new("!x".to_string(), false)),
            (NamespaceKind::Room, Namespace::new("!y".to_string(), true)),
        ])
        .sender_localpart("bot".to_string())
        .url(None)
        .build();
    let rooms: Vec<(String, bool)> =
        bulk.namespaces.rooms().iter().map(|n| (n.regex(), n.exclusive())).collect();
    assert_eq!(rooms, vec![("!x".to_string(), false), ("!y".to_string(), true)]);
}

fn same(a: &AppServiceRegistration, b: &AppServiceRegistration) {
    assert_eq!(a.application_id, b.application_id);
    assert_eq!(a.protocols, b.protocols);
    assert_eq!(a.appservice_token, b.appservice_token);
    assert_eq!(a.homeserver_token, b.homeserver_token);
    assert_eq!(a.rate_limited, b.rate_limited);
    assert_eq!(a.receive_ephemeral, b.receive_ephemeral);
    assert_eq!(a.sender_localpart, b.sender_localpart);
    assert_eq!(a.url, b.url);
    for (x, y) in [
        (a.namespaces.aliases(), b.namespaces.aliases()),
        (a.namespaces.rooms(), b.namespaces.rooms()),
        (a.namespaces.users(), b.namespaces.users()),
    ] {
        let x: Vec<(String, bool)> = x.iter().map(|n| (n.regex(), n.exclusive())).collect();
        let y: Vec<(String, bool)> = y.iter().map(|n| (n.regex(), n.exclusive())).collect();
        assert_eq!(x, y);
    }
}

#[test]
fn registration_survives_the_protocol_record() {
    let r = sample();
    let w = r.to_wire();
    assert_eq!(w.id, "test-bridge");
    assert_eq!(w.rate_limited, Some(false));
    same(&r, &AppServiceRegistration::from_wire(&w));
}

#[test]
fn registration_survives_yaml() {
    let r = sample();
    let text = r.into_yaml().unwrap();
    assert!(text.contains("as_token"));
    assert!(text.contains("sender_localpart"));
    let back = AppServiceRegistration::from_yaml(&text).unwrap();
    same(&r, &back);
}

#[test]
fn malformed_yaml_is_an_error() {
    assert!(matches!(
        AppServiceRegistration::from_yaml("id: [unclosed"),
        Err(Error::YamlError(_))
    ));
    assert!(matches!(AppServiceRegistration::from_yaml("id: x\n"), Err(Error::YamlError(_))));
}

#[test]
fn namespace_from_text_is_not_exclusive() {
    let n: Namespace = "@x_.*".to_string().into();
    assert_eq!(n.regex(), "@x_.*");
    assert!(!n.exclusive());
    let w = ruma::api::appservice::Namespace::new(true, "#y".to_string());
    let m: Namespace = w.into();
    assert_eq!(m.regex(), "#y");
    assert!(m.exclusive());
}

fn kinded(pairs: &[(&str, &str)]) -> Vec<(NamespaceKind, Namespace)> {
    pairs.iter().map(|(k, n)| (NamespaceKind::parse(k).unwrap(), Namespace::from(*n))).collect()
}

#[test]
fn bare_strings_become_plain_namespaces() {
    let r = AppServiceRegistration::builder("id".to_string())
        .namespaces(kinded(&[("alias", "#room-name")]))
        .sender_localpart("bot".to_string())
        .url(None)
        .build();
    let aliases = r.namespaces.aliases();
    assert_eq!(aliases.len(), 1);
    assert_eq!(aliases[0].regex(), "#room-name");
    assert!(!aliases[0].exclusive());
}

#[test]
fn bulk_namespaces_are_not_deduplicated() {
    let r = AppServiceRegistration::builder("id".to_string())
        .namespaces(kinded(&[("room", "!x"), ("ROOMS", "!x"), ("user", "@y")]))
        .sender_localpart("bot".to_string())
        .url(None)
        .build();
    let rooms: Vec<String> = r.namespaces.rooms().iter().map(|n| n.regex()).collect();
    assert_eq!(rooms, vec!["!x".to_string(), "!x".to_string()]);
    let users = r.namespaces.users();
    assert_eq!(users.len(), 1);
    assert_eq!(users[0].regex(), "@y");
    assert!(r.namespaces.aliases().is_empty());
    assert!(Namespaces::default().rooms().is_empty());
}
