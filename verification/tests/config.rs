use bounce::config::{plan_server, ConfigError, Defaults, ServerToml};

fn defaults() -> Defaults {
    Defaults {
        nick: Some("gnick".to_string()),
        nick_alt: Some("galt".to_string()),
        user: Some("guser".to_string()),
        mode: Some(8),
        realname: None,
        tls: Some(true),
        utc: None,
    }
}

fn server(addr: &str) -> ServerToml {
    ServerToml {
        addr: addr.to_string(),
        chans: vec!["#a".to_string(), "#b".to_string()],
        chan_keys: None,
        tls: None,
        password: None,
        register: Some(true),
        nick: None,
        nick_alt: None,
        log: None,
        user: None,
        mode: None,
        realname: None,
    }
}

#[test]
fn plan_takes_top_level_values() {
    let s = server("irc.example.org");
    assert!(!s.asks_password());
    assert!(s.asks_register());
    let p = plan_server("net", s, &defaults()).unwrap();
    assert_eq!(p.nick, "gnick");
    assert_eq!(p.nick_alt.as_deref(), Some("galt"));
    assert_eq!(p.user, "guser");
    assert_eq!(p.realname, "guser");
    assert_eq!(p.mode, 8);
    assert_eq!(p.addr, "irc.example.org:6697");
    assert!(!p.tls);
    assert!(p.log);
    assert_eq!(p.chans, vec!["#a".to_string(), "#b".to_string()]);
    assert_eq!(p.chan_keys, None);
}

#[test]
fn plan_prefers_server_values() {
    let mut s = server("host:7000");
    s.nick = Some("me".to_string());
    s.user = Some("u".to_string());
    s.realname = Some("Real".to_string());
    s.mode = Some(1);
    s.tls = Some(false);
    s.log = Some(false);
    s.password = Some(true);
    s.chan_keys = Some(vec!["k".to_string()]);
    s.register = None;
    assert!(s.asks_password());
    assert!(!s.asks_register());
    let p = plan_server("net", s, &defaults()).unwrap();
    assert_eq!(p.nick, "me");
    assert_eq!(p.user, "u");
    assert_eq!(p.realname, "Real");
    assert_eq!(p.mode, 1);
    assert_eq!(p.addr, "host:7000");
    assert!(!p.log);
    assert_eq!(p.chan_keys, Some(vec!["k".to_string()]));
}

#[test]
fn plan_default_port_without_tls() {
    let d = Defaults { nick: Some("n".into()), nick_alt: None, user: Some("u".into()), mode: None, realname: None, tls: None, utc: Some(true) };
    let p = plan_server("net", server("h"), &d).unwrap();
    assert_eq!(p.addr, "h:6667");
    assert_eq!(p.mode, 0);
    assert_eq!(p.nick_alt, None);
    let mut s = server("h");
    s.tls = Some(true);
    let q = plan_server("net", s, &d).unwrap();
    assert_eq!(q.addr, "h:6697");
    assert!(q.tls);
    assert!(d.utc());
    assert!(!defaults().utc());
}

#[test]
fn plan_refuses_missing_nick_then_user() {
    let none = Defaults { nick: None, nick_alt: None, user: None, mode: None, realname: None, tls: None, utc: None };
    assert_eq!(
        plan_server("freenode", server("h"), &none).err(),
        Some(ConfigError::MissingData { field: "Nick", from: "freenode".to_string() })
    );
    let mut s = server("h");
    s.nick = Some("n".to_string());
    assert_eq!(
        plan_server("oftc", s, &none).err(),
        Some(ConfigError::MissingData { field: "User", from: "oftc".to_string() })
    );
}
