use openssh::text::{find_char, parse_u16, rfind_char, to_decimal};
use openssh::{Command, KnownHosts, SessionBuilder, Stdio};

#[test]
fn resolve() {
    let b = SessionBuilder::default();
    let (b, d) = b.resolve("ssh://test-user@127.0.0.1:2222");
    assert_eq!(b.port.as_deref(), Some("2222"));
    assert_eq!(b.user.as_deref(), Some("test-user"));
    assert_eq!(d, "127.0.0.1");

    let b = SessionBuilder::default();
    let (b, d) = b.resolve("ssh://test-user@opensshtest:2222");
    assert_eq!(b.port.as_deref(), Some("2222"));
    assert_eq!(b.user.as_deref(), Some("test-user"));
    assert_eq!(d, "opensshtest");

    let b = SessionBuilder::default();
    let (b, d) = b.resolve("ssh://opensshtest:2222");
    assert_eq!(b.port.as_deref(), Some("2222"));
    assert_eq!(b.user.as_deref(), None);
    assert_eq!(d, "opensshtest");

    let b = SessionBuilder::default();
    let (b, d) = b.resolve("ssh://test-user@opensshtest");
    assert_eq!(b.port.as_deref(), None);
    assert_eq!(b.user.as_deref(), Some("test-user"));
    assert_eq!(d, "opensshtest");

    let b = SessionBuilder::default();
    let (b, d) = b.resolve("ssh://opensshtest");
    assert_eq!(b.port.as_deref(), None);
    assert_eq!(b.user.as_deref(), None);
    assert_eq!(d, "opensshtest");

    let b = SessionBuilder::default();
    let (b, d) = b.resolve("opensshtest");
    assert_eq!(b.port.as_deref(), None);
    assert_eq!(b.user.as_deref(), None);
    assert_eq!(d, "opensshtest");
}

#[test]
fn resolve_keeps_builder_options_and_bad_port() {
    let mut b = SessionBuilder::default();
    b.user("alice".to_string()).port(22).known_hosts_check(KnownHosts::Strict);
    let (r, d) = b.resolve("ssh://host:notaport");
    assert_eq!(d, "host:notaport");
    assert_eq!(r.user.as_deref(), Some("alice"));
    assert_eq!(r.port.as_deref(), Some("22"));
    assert_eq!(r.known_hosts_check, KnownHosts::Strict);

    let (r, d) = b.resolve("ssh://bob@h:65536");
    assert_eq!(d, "h:65536");
    assert_eq!(r.user.as_deref(), Some("bob"));
    assert_eq!(r.port.as_deref(), Some("22"));

    let (r, d) = b.resolve("ssh://a@b@h:+0080");
    assert_eq!(d, "b@h");
    assert_eq!(r.user.as_deref(), Some("a"));
    assert_eq!(r.port.as_deref(), Some("80"));
    // the builder itself is left as it was
    assert_eq!(b.user.as_deref(), Some("alice"));
}

#[test]
fn builder_setters() {
    let mut b = SessionBuilder::default();
    assert_eq!(b.known_hosts_check, KnownHosts::Add);
    b.keyfile("/home/u/.ssh/id")
        .connect_timeout(10)
        .server_alive_interval(5)
        .control_directory("/tmp/ctl")
        .config_file("cfg")
        .port(0);
    assert_eq!(b.keyfile.as_deref(), Some("/home/u/.ssh/id"));
    assert_eq!(b.connect_timeout.as_deref(), Some("10"));
    assert_eq!(b.server_alive_interval, Some(5));
    assert_eq!(b.control_dir.as_deref(), Some("/tmp/ctl"));
    assert_eq!(b.config_file.as_deref(), Some("cfg"));
    assert_eq!(b.port.as_deref(), Some("0"));
    b.port(65535).connect_timeout(18446744073709551615);
    assert_eq!(b.port.as_deref(), Some("65535"));
    assert_eq!(b.connect_timeout.as_deref(), Some("18446744073709551615"));
}

#[test]
fn known_hosts_options() {
    assert_eq!(KnownHosts::Strict.as_option(), "StrictHostKeyChecking=yes");
    assert_eq!(KnownHosts::Add.as_option(), "StrictHostKeyChecking=accept-new");
    assert_eq!(KnownHosts::Accept.as_option(), "StrictHostKeyChecking=no");
}

#[test]
fn command_line() {
    let mut c = Command::new("/tmp/ctl".to_string(), "printf".to_string());
    assert_eq!(c.stdin_v, Stdio::Null);
    c.arg("%d %d").raw_arg("1 2").stdout(Stdio::Piped).stderr(Stdio::Inherit).stdin(Stdio::Piped);
    assert_eq!(c.cmd, "printf '%d %d' 1 2");
    assert_eq!(c.ctl, "/tmp/ctl");
    assert_eq!(c.stdin_v, Stdio::Piped);
    assert_eq!(c.stdout_v, Stdio::Piped);
    assert_eq!(c.stderr_v, Stdio::Inherit);
}

#[test]
fn port_numbers_parse_like_u16() {
    for s in ["", "+", "-1", "-0", "65536", "99999999999", "12a", " 1", "1 "] {
        assert_eq!(parse_u16(s), None, "{}", s);
        assert_eq!(s.parse::<u16>().ok(), None);
    }
    for s in ["0", "22", "+0080", "65535", "000000000022"] {
        assert_eq!(parse_u16(s), s.parse::<u16>().ok());
    }
    assert_eq!(parse_u16("65535"), Some(65535));
    assert_eq!(to_decimal(0), "0");
    assert_eq!(to_decimal(1234567890), "1234567890");
    assert_eq!(find_char("a@b@c", '@'), Some(1));
    assert_eq!(rfind_char("a:b:c", ':'), Some(3));
    assert_eq!(find_char("abc", '@'), None);
}
