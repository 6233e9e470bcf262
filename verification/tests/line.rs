use bounce::codec::line::Line;

fn privmsg(l: &Line) -> (String, String, String, String) {
    match l {
        Line::PrivMsg { src, dst, text, orig } => (src.clone(), dst.clone(), text.clone(), orig.clone()),
        other => panic!("not a PrivMsg: {:?}", other),
    }
}

#[test]
fn from_str_reads_a_privmsg() {
    let l = Line::from_str(":nick!user@host PRIVMSG #chan :hello world  \r\n");
    assert_eq!(
        privmsg(&l),
        (
            "nick".to_string(),
            "#chan".to_string(),
            "hello world".to_string(),
            ":nick!user@host PRIVMSG #chan :hello world".to_string()
        )
    );
}

#[test]
fn from_str_without_bang_drops_last_prefix_char() {
    let l = Line::from_str(":nick PRIVMSG #c hi there");
    let (src, dst, text, _) = privmsg(&l);
    assert_eq!(src, "nic");
    assert_eq!(dst, "#c");
    assert_eq!(text, "hi there");
}

#[test]
fn from_str_keeps_text_without_colon() {
    let l = Line::from_str("a!b PRIVMSG bob  x");
    let (src, dst, text, _) = privmsg(&l);
    assert_eq!(src, "a");
    assert_eq!(dst, "bob");
    assert_eq!(text, " x");
}

#[test]
fn from_str_reads_a_ping() {
    match Line::from_str("PING :irc.example.org\r\n") {
        Line::Ping { orig } => assert_eq!(orig, "PING :irc.example.org"),
        other => panic!("{:?}", other),
    }
    match Line::from_str("PING") {
        Line::Ping { orig } => assert_eq!(orig, "PING"),
        other => panic!("{:?}", other),
    }
}

#[test]
fn from_str_keeps_other_lines_whole() {
    match Line::from_str("NOTICE foo bar\r\n") {
        Line::Meta { orig } => assert_eq!(orig, "NOTICE foo bar\r\n"),
        other => panic!("{:?}", other),
    }
    match Line::from_str("") {
        Line::Meta { orig } => assert_eq!(orig, ""),
        other => panic!("{:?}", other),
    }
    match Line::from_str(":x PRIVMSG #c") {
        Line::Meta { orig } => assert_eq!(orig, ":x PRIVMSG #c"),
        other => panic!("{:?}", other),
    }
    match Line::from_str("PINGER x") {
        Line::Meta { .. } => {}
        other => panic!("{:?}", other),
    }
}

#[test]
fn panics_on_marks_the_prefixes_that_cannot_be_cut() {
    assert!(Line::panics_on(" PRIVMSG a b"));
    assert!(Line::panics_on(": PRIVMSG a b"));
    assert!(Line::panics_on(":nü PRIVMSG a b"));
    assert!(!Line::panics_on(":nü!x PRIVMSG a b"));
    assert!(!Line::panics_on(":n PRIVMSG a b"));
    assert!(!Line::panics_on("NOTICE a b c"));
}

#[test]
fn from_str_then_to_string_then_from_str_is_stable() {
    for s in [":n!u PRIVMSG #c :hi \t", "PING x  ", "JOIN #c\r\n", ""] {
        let once = Line::from_str(s);
        let twice = Line::from_str(&once.to_string());
        assert_eq!(format!("{:?}", once), format!("{:?}", twice));
    }
}

#[test]
fn pong_from_ping_replaces_first_ping() {
    match Line::pong_from_ping("PING :server") {
        Line::Ping { orig } => assert_eq!(orig, "PONG :server"),
        other => panic!("{:?}", other),
    }
    match Line::pong_from_ping("xx PING y PING z") {
        Line::Ping { orig } => assert_eq!(orig, "xx PONG y PING z"),
        other => panic!("{:?}", other),
    }
    match Line::pong_from_ping("PING") {
        Line::Ping { orig } => assert_eq!(orig, "PING"),
        other => panic!("{:?}", other),
    }
}

#[test]
fn mention_checks_target_and_text() {
    let l = Line::new_pm("bob", "alice", "hey carol, hi", "orig");
    assert!(l.mention("alice"));
    assert!(l.mention("carol"));
    assert!(!l.mention("dave"));
    assert!(l.mention(""));
    assert!(!Line::new_meta("alice").mention("alice"));
    assert!(!Line::new_ping("alice").mention("alice"));
}

#[test]
fn constructors_and_to_string() {
    assert_eq!(Line::new_meta("m").to_string(), "m");
    assert_eq!(Line::new_ping("p").to_string(), "p");
    assert_eq!(Line::new_pm("a", "b", "c", "d").to_string(), "d");
    let (s, d, t, o) = privmsg(&Line::new_pm("a", "b", "c", "d"));
    assert_eq!((s.as_str(), d.as_str(), t.as_str(), o.as_str()), ("a", "b", "c", "d"));
}

#[test]
fn format_privmsg_at_channel_and_nick() {
    let l = Line::new_pm("bob", "#rust", "hi", "o");
    assert_eq!(
        l.format_privmsg_at("srv", "T"),
        Some(("#rust".to_string(), "T       bob:  hi\n".to_string()))
    );
    let p = Line::new_pm("bob", "alice", "yo", "o");
    assert_eq!(
        p.format_privmsg_at("srv", "T"),
        Some(("bob_srv".to_string(), "T       bob:  yo\n".to_string()))
    );
    let long = Line::new_pm("abcdefghijk", "&x", "t", "o");
    assert_eq!(
        long.format_privmsg_at("s", "S"),
        Some(("&x".to_string(), "S abcdefghijk:  t\n".to_string()))
    );
    assert_eq!(Line::new_meta("x").format_privmsg_at("s", "T"), None);
}

#[test]
fn format_privmsg_stamps_with_the_clock() {
    let l = Line::new_pm("bob", "~x", "hi", "o");
    let (name, msg) = l.format_privmsg("srv").unwrap();
    assert_eq!(name, "~x");
    assert!(msg.ends_with("       bob:  hi\n"));
    let stamp = &msg[..msg.len() - "       bob:  hi\n".len()];
    let (date_time, zone) = if let Some(d) = stamp.strip_suffix('Z') {
        (d, "Z")
    } else {
        stamp.split_at(stamp.len() - 6)
    };
    let tail = &date_time[date_time.len() - 15..];
    let year = &date_time[..date_time.len() - 15];
    assert!(!year.is_empty() && year.chars().all(|c| c.is_ascii_digit()), "{:?}", stamp);
    for (i, c) in tail.chars().enumerate() {
        match i {
            0 | 3 => assert_eq!(c, '-'),
            6 => assert_eq!(c, 'T'),
            9 | 12 => assert_eq!(c, ':'),
            _ => assert!(c.is_ascii_digit(), "{:?}", stamp),
        }
    }
    if zone != "Z" {
        let z: Vec<char> = zone.chars().collect();
        assert!(z[0] == '+' || z[0] == '-');
        assert!(z[1].is_ascii_digit() && z[2].is_ascii_digit() && z[3] == ':');
        assert!(z[4].is_ascii_digit() && z[5].is_ascii_digit());
    }
    assert!(Line::new_ping("x").format_privmsg("srv").is_none());
}
