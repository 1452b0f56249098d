//! Options for an SSH session and the reading of `ssh://` destinations.
use vstd::prelude::*;
use crate::text::{decimal_text, find_char, first_from, last_before, parse_u16, to_decimal, u16_value};

verus! {

/// Specifies how the host's key fingerprint should be handled.
#[derive(Debug, Clone, Copy, PartialEq, Eq)]
pub enum KnownHosts {
    /// The host's fingerprint must match what is in the known hosts file.
    ///
    /// If the host is not in the known hosts file, the connection is rejected.
    ///
    /// This corresponds to `ssh -o StrictHostKeyChecking=yes`.
    Strict,
    /// Strict, but if the host is not already in the known hosts file, it will be added.
    ///
    /// This corresponds to `ssh -o StrictHostKeyChecking=accept-new`.
    Add,
    /// Accept whatever key the server provides and add it to the known hosts file.
    ///
    /// This corresponds to `ssh -o StrictHostKeyChecking=no`.
    Accept,
}

/// The `ssh -o` option text for a host key policy.
pub open spec fn known_hosts_option(k: KnownHosts) -> Seq<char> {
    match k {
        KnownHosts::Strict => "StrictHostKeyChecking=yes"@,
        KnownHosts::Add => "StrictHostKeyChecking=accept-new"@,
        KnownHosts::Accept => "StrictHostKeyChecking=no"@,
    }
}

impl KnownHosts {
    /// The `ssh -o` option that selects this policy.
    pub fn as_option(&self) -> (r: &'static str)
        ensures
            r@ == known_hosts_option(*self),
    {
        match *self {
            KnownHosts::Strict => "StrictHostKeyChecking=yes",
            KnownHosts::Add => "StrictHostKeyChecking=accept-new",
            KnownHosts::Accept => "StrictHostKeyChecking=no",
        }
    }
}

/// Build a session with options.
#[derive(Debug)]
pub struct SessionBuilder {
    pub user: Option<String>,
    pub port: Option<String>,
    pub keyfile: Option<String>,
    pub connect_timeout: Option<String>,
    pub server_alive_interval: Option<u64>,
    pub known_hosts_check: KnownHosts,
    pub control_dir: Option<String>,
    pub config_file: Option<String>,
}

fn clone_text(o: &Option<String>) -> (r: Option<String>)
    ensures
        r == *o,
{
    match o {
        Some(s) => Some(s.clone()),
        None => None,
    }
}

impl Clone for SessionBuilder {
    fn clone(&self) -> (r: Self)
        ensures
            r == *self,
    {
        SessionBuilder {
            user: clone_text(&self.user),
            port: clone_text(&self.port),
            keyfile: clone_text(&self.keyfile),
            connect_timeout: clone_text(&self.connect_timeout),
            server_alive_interval: self.server_alive_interval,
            known_hosts_check: self.known_hosts_check,
            control_dir: clone_text(&self.control_dir),
            config_file: clone_text(&self.config_file),
        }
    }
}

impl Default for SessionBuilder {
    fn default() -> (r: Self)
        ensures
            r.user is None,
            r.port is None,
            r.keyfile is None,
            r.connect_timeout is None,
            r.server_alive_interval is None,
            r.known_hosts_check == KnownHosts::Add,
            r.control_dir is None,
            r.config_file is None,
    {
        SessionBuilder {
            user: None,
            port: None,
            keyfile: None,
            connect_timeout: None,
            server_alive_interval: None,
            known_hosts_check: KnownHosts::Add,
            control_dir: None,
            config_file: None,
        }
    }
}

/// The text that opens a destination in URI form.
pub open spec fn ssh_scheme() -> Seq<char> {
    seq!['s', 's', 'h', ':', '/', '/']
}

/// How a destination reads: the user and port it names, if any, and the
/// host part that is left for `ssh`.
///
/// Only the `ssh://[user@]host[:port]` form is taken apart; the user runs
/// up to the first `@`, and the port is what follows the last `:` when it
/// parses as a port number. Any other destination is left as it is.
pub open spec fn split_destination(d: Seq<char>) -> (Option<Seq<char>>, Option<u16>, Seq<char>) {
    if d.len() >= 6 && d.take(6) == ssh_scheme() {
        let rest = d.skip(6);
        let (user, host) = match first_from(rest, '@', 0) {
            Some(at) => (Some(rest.take(at)), rest.skip(at + 1)),
            None => (None, rest),
        };
        match last_before(host, ':', host.len() as int) {
            Some(colon) => match u16_value(host.skip(colon + 1)) {
                Some(p) => (user, Some(p), host.take(colon)),
                None => (user, None, host),
            },
            None => (user, None, host),
        }
    } else {
        (None, None, d)
    }
}

impl SessionBuilder {
    /// Set the ssh user (`ssh -l`).
    ///
    /// Defaults to `None`.
    pub fn user(&mut self, user: String) -> (r: &mut Self)
        ensures
            *r == (SessionBuilder { user: Some(user), ..*old(self) }),
            *final(self) == *final(r),
    {
        self.user = Some(user);
        self
    }

    /// Set the port to connect on (`ssh -p`).
    ///
    /// Defaults to `None`.
    pub fn port(&mut self, port: u16) -> (r: &mut Self)
        ensures
            r.port matches Some(p) && p@ == decimal_text(port as nat),
            *r == (SessionBuilder { port: r.port, ..*old(self) }),
            *final(self) == *final(r),
    {
        self.port = Some(to_decimal(port as u64));
        self
    }

    /// Set the keyfile to use (`ssh -i`).
    ///
    /// Defaults to `None`.
    pub fn keyfile(&mut self, p: &str) -> (r: &mut Self)
        ensures
            r.keyfile matches Some(k) && k@ == p@,
            *r == (SessionBuilder { keyfile: r.keyfile, ..*old(self) }),
            *final(self) == *final(r),
    {
        self.keyfile = Some(p.to_string());
        self
    }

    /// See [`KnownHosts`].
    ///
    /// Default `KnownHosts::Add`.
    pub fn known_hosts_check(&mut self, k: KnownHosts) -> (r: &mut Self)
        ensures
            *r == (SessionBuilder { known_hosts_check: k, ..*old(self) }),
            *final(self) == *final(r),
    {
        self.known_hosts_check = k;
        self
    }

    /// Set the connection timeout (`ssh -o ConnectTimeout`), in whole
    /// seconds.
    ///
    /// Defaults to `None`.
    pub fn connect_timeout(&mut self, secs: u64) -> (r: &mut Self)
        ensures
            r.connect_timeout matches Some(t) && t@ == decimal_text(secs as nat),
            *r == (SessionBuilder { connect_timeout: r.connect_timeout, ..*old(self) }),
            *final(self) == *final(r),
    {
        self.connect_timeout = Some(to_decimal(secs));
        self
    }

    /// Set the interval, in whole seconds, after which ssh asks the server
    /// for a response if no data has been received from it
    /// (`ssh -o ServerAliveInterval`).
    ///
    /// Defaults to `None`.
    pub fn server_alive_interval(&mut self, secs: u64) -> (r: &mut Self)
        ensures
            *r == (SessionBuilder { server_alive_interval: Some(secs), ..*old(self) }),
            *final(self) == *final(r),
    {
        self.server_alive_interval = Some(secs);
        self
    }

    /// Set the directory in which the temporary directory containing the control socket will
    /// be created.
    ///
    /// If not set, `./` will be used (the current directory).
    pub fn control_directory(&mut self, p: &str) -> (r: &mut Self)
        ensures
            r.control_dir matches Some(c) && c@ == p@,
            *r == (SessionBuilder { control_dir: r.control_dir, ..*old(self) }),
            *final(self) == *final(r),
    {
        self.control_dir = Some(p.to_string());
        self
    }

    /// Set an alternative per-user configuration file (`ssh -F <p>`).
    ///
    /// By default, ssh uses `~/.ssh/config`.
    pub fn config_file(&mut self, p: &str) -> (r: &mut Self)
        ensures
            r.config_file matches Some(c) && c@ == p@,
            *r == (SessionBuilder { config_file: r.config_file, ..*old(self) }),
            *final(self) == *final(r),
    {
        self.config_file = Some(p.to_string());
        self
    }

    /// Reads a destination in the form that `ssh` takes, `[user@]hostname`,
    /// or as a URI, `ssh://[user@]hostname[:port]`, which not every `ssh`
    /// understands. Returns the options with the user and port that the URI
    /// names put in place of the ones set here, and the host part.
    pub fn resolve<'b>(&self, destination: &'b str) -> (r: (SessionBuilder, &'b str))
        ensures
            ({
                let (user, port, host) = split_destination(destination@);
                &&& r.1@ == host
                &&& user is None ==> r.0.user == self.user
                &&& user matches Some(u) ==> (r.0.user matches Some(v) && v@ == u)
                &&& port is None ==> r.0.port == self.port
                &&& port matches Some(p) ==> (r.0.port matches Some(v) && v@ == decimal_text(p as nat))
                &&& r.0 == (SessionBuilder { user: r.0.user, port: r.0.port, ..*self })
            }),
    {
        let mut destination = destination;
        let mut user: Option<&str> = None;
        let mut port: Option<u16> = None;
        let ghost d = destination@;
        let len = destination.unicode_len();
        if has_ssh_scheme(destination) {
            // the "new" ssh://user@host:port form is not supported by all versions of ssh,
            // so it is always turned into the option form.
            destination = destination.substring_char(6, len);
            let ghost rest = destination@;
            assert(rest == d.skip(6));
            let rlen = destination.unicode_len();
            if let Some(at) = find_char(destination, '@') {
                proof { lemma_first_from_bounds(rest, '@', 0); }
                user = Some(destination.substring_char(0, at));
                destination = destination.substring_char(at + 1, rlen);
            }
            let hlen = destination.unicode_len();
            if let Some(colon) = rfind_char_checked(destination) {
                let p = destination.substring_char(colon + 1, hlen);
                if let Some(p) = parse_u16(p) {
                    port = Some(p);
                    destination = destination.substring_char(0, colon);
                }
            }
        }

        if user.is_none() && port.is_none() {
            return (self.clone(), destination);
        }

        let mut with_overrides = self.clone();
        if let Some(user) = user {
            with_overrides.user(user.to_string());
        }
        if let Some(port) = port {
            with_overrides.port(port);
        }
        (with_overrides, destination)
    }
}

proof fn lemma_first_from_bounds(s: Seq<char>, c: char, i: int)
    ensures
        first_from(s, c, i) matches Some(j) ==> i <= j < s.len() && s[j] == c,
    decreases s.len() - i,
{
    if 0 <= i < s.len() && s[i] != c {
        lemma_first_from_bounds(s, c, i + 1);
    }
}

proof fn lemma_last_before_bounds(s: Seq<char>, c: char, i: int)
    ensures
        last_before(s, c, i) matches Some(j) ==> 0 <= j < i && s[j] == c,
    decreases i,
{
    if 0 < i <= s.len() && s[i - 1] != c {
        lemma_last_before_bounds(s, c, i - 1);
    }
}

/// Whether `s` opens with `ssh://`.
fn has_ssh_scheme(s: &str) -> (r: bool)
    ensures
        r == (s@.len() >= 6 && s@.take(6) == ssh_scheme()),
{
    if s.unicode_len() < 6 {
        return false;
    }
    let r = s.get_char(0) == 's' && s.get_char(1) == 's' && s.get_char(2) == 'h' && s.get_char(3)
        == ':' && s.get_char(4) == '/' && s.get_char(5) == '/';
    proof {
        if r {
            assert(s@.take(6) =~= ssh_scheme());
        } else {
            assert(s@.take(6) != ssh_scheme()) by {
                if s@.take(6) == ssh_scheme() {
                    assert(s@.take(6)[0] == s@[0]);
                    assert(s@.take(6)[1] == s@[1]);
                    assert(s@.take(6)[2] == s@[2]);
                    assert(s@.take(6)[3] == s@[3]);
                    assert(s@.take(6)[4] == s@[4]);
                    assert(s@.take(6)[5] == s@[5]);
                }
            }
        }
    }
    r
}

/// The index of the last `:` in `s`.
fn rfind_char_checked(s: &str) -> (r: Option<usize>)
    ensures
        r matches Some(i) ==> last_before(s@, ':', s@.len() as int) == Some(i as int) && i < s@.len(),
        r is None ==> last_before(s@, ':', s@.len() as int) is None,
{
    let r = crate::text::rfind_char(s, ':');
    proof { lemma_last_before_bounds(s@, ':', s@.len() as int); }
    r
}

} // verus!
