//! Network configuration: the checks made once at startup, before any
//! connection is opened.

use vstd::prelude::*;

use crate::router::Registry;

verus! {

/// One network descriptor as the configuration gives it; every field may be absent.
#[derive(Debug)]
pub struct NetworkConfig {
    pub network: Option<String>,
    pub server: Option<String>,
    pub nick: Option<String>,
    pub port: Option<i64>,
    pub tls: Option<bool>,
    pub channels: Vec<String>,
    pub admins: Vec<String>,
}

/// What a connection actor needs to connect and identify.
#[derive(Debug)]
pub struct ConnectionSettings {
    pub network: String,
    pub server: String,
    pub nickname: Option<String>,
    pub port: Option<u16>,
    pub use_tls: bool,
    pub channels: Vec<String>,
}

/// Why the configuration was refused.
#[derive(Debug, PartialEq, Eq)]
pub enum ConfigError {
    /// A network has no name.
    MissingName,
    /// The named network has no server.
    MissingServer(String),
    /// The named network has a port outside 0..=65535.
    InvalidPort(String),
    /// Two networks share this name.
    DuplicateNetwork(String),
}

pub open spec fn port_ok(p: Option<i64>) -> bool {
    match p {
        Some(v) => 0 <= v <= 65535,
        None => true,
    }
}

/// Some network before position `i` is named `n`.
pub open spec fn named_before(cfgs: Seq<NetworkConfig>, i: int, n: Seq<char>) -> bool {
    exists|k: int|
        0 <= k < i && (#[trigger] cfgs[k]).network is Some && cfgs[k].network.unwrap()@ == n
}

/// The fault of the `i`-th descriptor, checked in this order: name, server,
/// port, then a name already used by an earlier descriptor.
pub open spec fn config_fault(cfgs: Seq<NetworkConfig>, i: int) -> Option<ConfigError> {
    let c = cfgs[i];
    match c.network {
        None => Some(ConfigError::MissingName),
        Some(name) => if c.server is None {
            Some(ConfigError::MissingServer(name))
        } else if !port_ok(c.port) {
            Some(ConfigError::InvalidPort(name))
        } else if named_before(cfgs, i, name@) {
            Some(ConfigError::DuplicateNetwork(name))
        } else {
            None
        },
    }
}

/// The settings that descriptor `c` gives, once it passed the checks.
pub open spec fn settings_match(c: NetworkConfig, s: ConnectionSettings) -> bool {
    &&& s.network@ == c.network.unwrap()@
    &&& s.server@ == c.server.unwrap()@
    &&& (s.nickname is Some <==> c.nick is Some)
    &&& (s.nickname is Some ==> s.nickname.unwrap()@ == c.nick.unwrap()@)
    &&& (s.port is Some <==> c.port is Some)
    &&& (s.port is Some ==> s.port.unwrap() as int == c.port.unwrap() as int)
    &&& s.use_tls == (c.tls == Some(true))
    &&& s.channels@ == c.channels@
}

/// A copy of `v`, element by element.
pub fn copy_strings(v: &Vec<String>) -> (r: Vec<String>)
    ensures
        r@ == v@,
{
    let mut r: Vec<String> = Vec::new();
    let mut i: usize = 0;
    while i < v.len()
        invariant
            i <= v@.len(),
            r@ == v@.subrange(0, i as int),
        decreases v@.len() - i,
    {
        r.push(v[i].clone());
        i = i + 1;
        assert(r@ =~= v@.subrange(0, i as int));
    }
    assert(r@ =~= v@);
    r
}

fn copy_opt(v: &Option<String>) -> (r: Option<String>)
    ensures
        r is Some <==> v is Some,
        r is Some ==> r.unwrap()@ == v.unwrap()@,
{
    match v {
        Some(s) => Some(s.clone()),
        None => None,
    }
}

/// Checks every network descriptor and builds the registry and the
/// connection settings, in configuration order. The first faulty descriptor
/// refuses the whole configuration: no network starts partially.
pub fn load_networks(cfgs: &Vec<NetworkConfig>) -> (r: Result<(Registry, Vec<ConnectionSettings>), ConfigError>)
    ensures
        match r {
            Ok((reg, settings)) => {
                &&& forall|i: int| 0 <= i < cfgs@.len() ==> config_fault(cfgs@, i) is None
                &&& reg.wf()
                &&& reg.names().len() == cfgs@.len()
                &&& settings@.len() == cfgs@.len()
                &&& forall|i: int|
                    0 <= i < cfgs@.len() ==> #[trigger] reg.names()[i]
                        == cfgs@[i].network.unwrap()@ && reg.admins_at(i) == cfgs@[i].admins@
                        && settings_match(cfgs@[i], settings@[i])
            },
            Err(e) => exists|i: int|
                0 <= i < cfgs@.len() && config_fault(cfgs@, i) == Some(e) && forall|k: int|
                    0 <= k < i ==> config_fault(cfgs@, k) is None,
        },
{
    let mut reg = Registry::new();
    let mut settings: Vec<ConnectionSettings> = Vec::new();
    let mut i: usize = 0;
    while i < cfgs.len()
        invariant
            i <= cfgs@.len(),
            reg.wf(),
            reg.names().len() == i,
            settings@.len() == i,
            forall|k: int| 0 <= k < i ==> config_fault(cfgs@, k) is None,
            forall|k: int|
                0 <= k < i ==> #[trigger] reg.names()[k] == cfgs@[k].network.unwrap()@
                    && reg.admins_at(k) == cfgs@[k].admins@ && settings_match(
                    cfgs@[k],
                    settings@[k],
                ),
        decreases cfgs@.len() - i,
    {
        let c = &cfgs[i];
        let name = match &c.network {
            None => {
                assert(config_fault(cfgs@, i as int) == Some(ConfigError::MissingName));
                return Err(ConfigError::MissingName);
            },
            Some(n) => n,
        };
        let server = match &c.server {
            None => {
                let e = ConfigError::MissingServer(name.clone());
                assert(config_fault(cfgs@, i as int) == Some(e));
                return Err(e);
            },
            Some(s) => s,
        };
        let port: Option<u16> = match c.port {
            None => None,
            Some(p) => {
                if p < 0 || p > 65535 {
                    let e = ConfigError::InvalidPort(name.clone());
                    assert(config_fault(cfgs@, i as int) == Some(e));
                    return Err(e);
                }
                Some(p as u16)
            },
        };
        proof {
            if named_before(cfgs@, i as int, name@) {
                let k = choose|k: int|
                    0 <= k < i && (#[trigger] cfgs@[k]).network is Some
                        && cfgs@[k].network.unwrap()@ == name@;
                assert(reg.names()[k] == name@);
            }
            if reg.has_network(name@) {
                let k = choose|k: int| 0 <= k < reg.names().len() && reg.names()[k] == name@;
                assert(config_fault(cfgs@, k) is None);
                assert(reg.names()[k] == cfgs@[k].network.unwrap()@);
                assert(named_before(cfgs@, i as int, name@));
            }
        }
        let ghost old_reg = reg;
        match reg.add_network(name.clone(), copy_strings(&c.admins)) {
            Err(_) => {
                let e = ConfigError::DuplicateNetwork(name.clone());
                assert(config_fault(cfgs@, i as int) == Some(e));
                return Err(e);
            },
            Ok(()) => {},
        }
        let tls = match c.tls {
            Some(t) => t,
            None => false,
        };
        settings.push(
            ConnectionSettings {
                network: name.clone(),
                server: server.clone(),
                nickname: copy_opt(&c.nick),
                port,
                use_tls: tls,
                channels: copy_strings(&c.channels),
            },
        );
        proof {
            assert(config_fault(cfgs@, i as int) is None);
            assert(reg.names()[i as int] == name@);
        }
        i = i + 1;
    }
    Ok((reg, settings))
}

} // verus!
