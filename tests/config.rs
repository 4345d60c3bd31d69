use matrix_appservices::{
    AppServiceConfig, BindConfig, ConfigNamespace, IpAddress, NamespaceKind, SocketAddress,
};

fn config() -> AppServiceConfig<()> {
    AppServiceConfig {
        application_id: "bridge".to_string(),
        namespaces: vec![
            ConfigNamespace { kind: NamespaceKind::User, regex: "@a_.*".to_string(), exclusive: true },
            ConfigNamespace { kind: NamespaceKind::Room, regex: "!r".to_string(), exclusive: false },
            ConfigNamespace { kind: NamespaceKind::User, regex: "@b_.*".to_string(), exclusive: false },
        ],
        protocols: vec!["irc".to_string()],
        appservice_token: "abc".to_string(),
        homeserver_token: "def".to_string(),
        rate_limited: true,
        receive_ephemeral: false,
        username: "bot".to_string(),
        service_url: "http://localhost:9000".to_string(),
        bind_address: BindConfig::Parts(IpAddress::V4(127, 0, 0, 1), 9000),
        extra: None,
    }
}

#[test]
fn registration_from_config_is_repeatable() {
    let c = config();
    let a = c.registration();
    let b = c.registration();
    assert_eq!(a.appservice_token, "abc");
    assert_eq!(a.homeserver_token, "def");
    assert_eq!(a.appservice_token, b.appservice_token);
    assert_eq!(a.homeserver_token, b.homeserver_token);
    assert_eq!(a.application_id, b.application_id);
    assert_eq!(a.sender_localpart, "bot");
    assert_eq!(a.url.as_deref(), Some("http://localhost:9000"));
    assert!(a.rate_limited);
    assert_eq!(a.protocols, vec!["irc".to_string()]);
    let users: Vec<(String, bool)> =
        a.namespaces.users().iter().map(|n| (n.regex(), n.exclusive())).collect();
    assert_eq!(users, vec![("@a_.*".to_string(), true), ("@b_.*".to_string(), false)]);
    assert_eq!(a.namespaces.rooms().len(), 1);
    assert!(a.namespaces.aliases().is_empty());
}

#[test]
fn both_bind_forms_name_one_endpoint() {
    let ip = IpAddress::V4(127, 0, 0, 1);
    let whole = BindConfig::Url(SocketAddress { ip, port: 9000 });
    let parts = BindConfig::Parts(ip, 9000);
    assert_eq!(whole.socket_addr(), parts.socket_addr());
    assert_eq!(parts.socket_addr(), SocketAddress { ip, port: 9000 });
}

#[test]
fn config_key_is_base64() {
    assert_eq!(AppServiceConfig::<()>::generate_key(3).len(), 4);
}

