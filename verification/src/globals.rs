//! Names that the whole process shares: set once at startup from the
//! configuration, read by many components.

use vstd::prelude::*;
use vstd::string::*;

verus! {

pub const DEFAULT_SYS_NAME: &'static str = "default";

pub const DEFAULT_SERVER_NAME: &'static str = "default";

/// The shared names. One value is made at startup and handed to whoever needs it.
pub struct Global {
    pub sys_name: String,
    pub server: String,
    pub server_ip: Option<String>,
}

impl Global {
    /// The names before any configuration was read.
    pub fn new() -> (out: Global)
        ensures
            out.sys_name@ == DEFAULT_SYS_NAME@,
            out.server@ == DEFAULT_SERVER_NAME@,
            out.server_ip is None,
    {
        Global {
            sys_name: String::from_str(DEFAULT_SYS_NAME),
            server: String::from_str(DEFAULT_SERVER_NAME),
            server_ip: None,
        }
    }
}

/// The name of this system.
pub fn get_sys_name(g: &Global) -> (out: String)
    ensures
        out@ == g.sys_name@,
{
    g.sys_name.clone()
}

/// Sets the name of this system; nothing else changes.
pub fn set_sys_name(g: &mut Global, name: &str)
    ensures
        final(g).sys_name@ == name@,
        final(g).server == old(g).server,
        final(g).server_ip == old(g).server_ip,
{
    g.sys_name = String::from_str(name);
}

/// The name of the server.
pub fn get_server(g: &Global) -> (out: String)
    ensures
        out@ == g.server@,
{
    g.server.clone()
}

/// Sets the name of the server; nothing else changes.
pub fn set_server(g: &mut Global, name: &str)
    ensures
        final(g).server@ == name@,
        final(g).sys_name == old(g).sys_name,
        final(g).server_ip == old(g).server_ip,
{
    g.server = String::from_str(name);
}

/// The address of the server, once it is known.
pub fn get_server_ip(g: &Global) -> (out: Option<String>)
    ensures
        out is Some == g.server_ip is Some,
        out is Some ==> out->0@ == g.server_ip->0@,
{
    match &g.server_ip {
        Some(ip) => Some(ip.clone()),
        None => None,
    }
}

/// Sets the address of the server; nothing else changes.
pub fn set_server_ip(g: &mut Global, ip: &str)
    ensures
        final(g).server_ip is Some,
        final(g).server_ip->0@ == ip@,
        final(g).sys_name == old(g).sys_name,
        final(g).server == old(g).server,
{
    g.server_ip = Some(String::from_str(ip));
}

} // verus!
