//! How a server's settings are resolved from its own table and the
//! top-level defaults of the configuration file.
use vstd::prelude::*;

use crate::text::{find_char, to_chars};

verus! {

/// Timestamps are in local time unless the file says otherwise.
pub const DEFAULT_UTC: bool = false;

/// Servers are reached without TLS unless the file says otherwise.
pub const DEFAULT_TLS: bool = false;

/// Servers are logged unless the file says otherwise.
pub const DEFAULT_LOG: bool = true;

/// The user mode sent at registration unless the file gives one.
pub const DEFAULT_MODE: u8 = 0;

/// The top-level settings of the configuration file, which a server's own
/// table may override.
pub struct Defaults {
    pub nick: Option<String>,
    pub nick_alt: Option<String>,
    pub user: Option<String>,
    pub mode: Option<u8>,
    pub realname: Option<String>,
    pub tls: Option<bool>,
    pub utc: Option<bool>,
}

/// A server's table in the configuration file.
pub struct ServerToml {
    pub addr: String,
    pub chans: Vec<String>,
    pub chan_keys: Option<Vec<String>>,
    pub tls: Option<bool>,
    pub password: Option<bool>,
    pub register: Option<bool>,
    pub nick: Option<String>,
    pub nick_alt: Option<String>,
    pub log: Option<bool>,
    pub user: Option<String>,
    pub mode: Option<u8>,
    pub realname: Option<String>,
}

/// A server's resolved settings: everything but the passwords, which are
/// asked for (see `ServerToml::asks_password`), and the socket address,
/// which `addr` is resolved to.
pub struct ServerPlan {
    pub nick: String,
    pub nick_alt: Option<String>,
    pub user: String,
    pub mode: u8,
    pub realname: String,
    /// `host:port`.
    pub addr: String,
    pub chans: Vec<String>,
    pub chan_keys: Option<Vec<String>>,
    pub tls: bool,
    pub log: bool,
}

/// Why a server's settings could not be resolved.
#[derive(Debug, PartialEq, Eq)]
pub enum ConfigError {
    /// Neither the server's table nor the top level gives `field`; `from`
    /// names the server.
    MissingData { field: &'static str, from: String },
}

/// The characters of an optional string.
pub open spec fn opt_view(o: Option<String>) -> Option<Seq<char>> {
    match o {
        Some(s) => Some(s@),
        None => None,
    }
}

/// A server's own value if it gives one, else the top-level one.
pub open spec fn or_else<A>(own: Option<A>, global: Option<A>) -> Option<A> {
    match own {
        Some(v) => Some(v),
        None => global,
    }
}

/// A present value, else the default.
pub open spec fn value_or<A>(o: Option<A>, default: A) -> A {
    match o {
        Some(v) => v,
        None => default,
    }
}

/// The port for a server address that names none: 6697 with TLS, 6667 without.
pub open spec fn default_port(tls: bool) -> Seq<char> {
    if tls {
        seq![':', '6', '6', '9', '7']
    } else {
        seq![':', '6', '6', '6', '7']
    }
}

/// The address to connect to: as written if it names a port (holds a
/// `':'`), else with the default port for the TLS setting appended.
pub open spec fn full_addr(addr: Seq<char>, tls: bool) -> Seq<char> {
    if addr.contains(':') {
        addr
    } else {
        addr + default_port(tls)
    }
}

/// The defaults: local time, no TLS, logging on, user mode 0.
pub proof fn lemma_defaults()
    ensures
        DEFAULT_UTC == false,
        DEFAULT_TLS == false,
        DEFAULT_LOG == true,
        DEFAULT_MODE == 0,
{
}

/// A server's own setting wins over the top-level one, which is used only
/// when the server gives none; a missing setting takes its default.
pub proof fn lemma_precedence<A>(own: A, global: Option<A>, default: A)
    ensures
        or_else(Some(own), global) == Some(own),
        or_else(None, global) == global,
        value_or(Some(own), default) == own,
        value_or(None, default) == default,
{
}

/// A server address that names a port (holds a `':'`) is kept as written;
/// one without gets `":6697"` with TLS or `":6667"` without appended, after
/// the address as written. Either way the result names a port.
pub proof fn lemma_full_addr(addr: Seq<char>, tls: bool)
    ensures
        addr.contains(':') ==> full_addr(addr, tls) == addr,
        !addr.contains(':') && tls ==> full_addr(addr, tls) == addr + seq![':', '6', '6', '9', '7'],
        !addr.contains(':') && !tls ==> full_addr(addr, tls) == addr + seq![':', '6', '6', '6', '7'],
        full_addr(addr, tls).contains(':'),
        full_addr(addr, tls).take(addr.len() as int) == addr,
{
    if !addr.contains(':') {
        let r = full_addr(addr, tls);
        assert(r[addr.len() as int] == ':');
        assert(r.take(addr.len() as int) =~= addr);
    } else {
        assert(addr.take(addr.len() as int) =~= addr);
    }
}

/// The word `Nick`.
pub open spec fn nick_field() -> Seq<char> {
    seq!['N', 'i', 'c', 'k']
}

/// The word `User`.
pub open spec fn user_field() -> Seq<char> {
    seq!['U', 's', 'e', 'r']
}

impl Defaults {
    /// Whether time stamps are in UTC.
    pub fn utc(&self) -> (r: bool)
        ensures
            r == value_or(self.utc, DEFAULT_UTC),
    {
        match self.utc {
            Some(u) => u,
            None => DEFAULT_UTC,
        }
    }
}

impl ServerToml {
    /// Whether the server password is asked for (not unless the table says so).
    pub fn asks_password(&self) -> (r: bool)
        ensures
            r == value_or(self.password, false),
    {
        match self.password {
            Some(p) => p,
            None => false,
        }
    }

    /// Whether the registration password is asked for (not unless the table says so).
    pub fn asks_register(&self) -> (r: bool)
        ensures
            r == value_or(self.register, false),
    {
        match self.register {
            Some(p) => p,
            None => false,
        }
    }
}

fn clone_opt(o: &Option<String>) -> (r: Option<String>)
    ensures
        opt_view(r) == opt_view(*o),
{
    match o {
        Some(s) => Some(s.clone()),
        None => None,
    }
}

fn or_else_string(own: &Option<String>, global: &Option<String>) -> (r: Option<String>)
    ensures
        opt_view(r) == or_else(opt_view(*own), opt_view(*global)),
{
    match own {
        Some(s) => Some(s.clone()),
        None => clone_opt(global),
    }
}

/// Resolves a server's settings. The nick, alternative nick, user, mode,
/// real name and TLS setting (for the default port) are the server's own if
/// it gives them, else the top-level ones; the mode defaults to 0, the real
/// name to the user. The server's own TLS setting (default off) and log
/// setting (default on) are kept. Without a nick, or without a user, the
/// server is refused.
pub fn plan_server(name: &str, srv: ServerToml, defaults: &Defaults) -> (r: Result<
    ServerPlan,
    ConfigError,
>)
    ensures
        match r {
            Ok(p) => {
                &&& or_else(opt_view(srv.nick), opt_view(defaults.nick)) == Some(p.nick@)
                &&& or_else(opt_view(srv.user), opt_view(defaults.user)) == Some(p.user@)
                &&& opt_view(p.nick_alt) == or_else(opt_view(srv.nick_alt), opt_view(defaults.nick_alt))
                &&& p.mode == value_or(or_else(srv.mode, defaults.mode), DEFAULT_MODE)
                &&& p.realname@ == value_or(
                    or_else(opt_view(srv.realname), opt_view(defaults.realname)),
                    p.user@,
                )
                &&& p.addr@ == full_addr(
                    srv.addr@,
                    value_or(or_else(srv.tls, defaults.tls), DEFAULT_TLS),
                )
                &&& p.chans == srv.chans
                &&& p.chan_keys == srv.chan_keys
                &&& p.tls == value_or(srv.tls, DEFAULT_TLS)
                &&& p.log == value_or(srv.log, DEFAULT_LOG)
            },
            Err(ConfigError::MissingData { field, from }) => {
                &&& from@ == name@
                &&& if or_else(opt_view(srv.nick), opt_view(defaults.nick)) is None {
                    field@ == nick_field()
                } else {
                    &&& or_else(opt_view(srv.user), opt_view(defaults.user)) is None
                    &&& field@ == user_field()
                }
            },
        },
{
    proof {
        reveal_strlit("Nick");
        reveal_strlit("User");
        reveal_strlit(":6697");
        reveal_strlit(":6667");
    }
    let nick = match or_else_string(&srv.nick, &defaults.nick) {
        Some(n) => n,
        None => {
            return Err(ConfigError::MissingData { field: "Nick", from: String::from_str(name) });
        },
    };
    let user = match or_else_string(&srv.user, &defaults.user) {
        Some(u) => u,
        None => {
            return Err(ConfigError::MissingData { field: "User", from: String::from_str(name) });
        },
    };
    let mode = match srv.mode {
        Some(m) => m,
        None => match defaults.mode {
            Some(m) => m,
            None => DEFAULT_MODE,
        },
    };
    let realname = match or_else_string(&srv.realname, &defaults.realname) {
        Some(r) => r,
        None => user.clone(),
    };
    let tls_port = match srv.tls {
        Some(t) => t,
        None => match defaults.tls {
            Some(t) => t,
            None => DEFAULT_TLS,
        },
    };
    let nick_alt = or_else_string(&srv.nick_alt, &defaults.nick_alt);
    let cs = to_chars(srv.addr.as_str());
    let has_port = find_char(&cs, ':', 0, cs.len()).is_some();
    assert(cs@.subrange(0, cs@.len() as int) =~= cs@);
    let mut addr = srv.addr.clone();
    if !has_port {
        assert(!srv.addr@.contains(':')) by {
            if srv.addr@.contains(':') {
                let k = choose|k: int| 0 <= k < srv.addr@.len() && srv.addr@[k] == ':';
                assert(cs@[k] == ':');
            }
        }
        if tls_port {
            addr.append(":6697");
        } else {
            addr.append(":6667");
        }
    }
    let tls = match srv.tls {
        Some(t) => t,
        None => DEFAULT_TLS,
    };
    let log = match srv.log {
        Some(l) => l,
        None => DEFAULT_LOG,
    };
    Ok(
        ServerPlan {
            nick,
            nick_alt,
            user,
            mode,
            realname,
            addr,
            chans: srv.chans,
            chan_keys: srv.chan_keys,
            tls,
            log,
        },
    )
}

} // verus!
