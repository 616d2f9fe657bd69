//! The startup directives a caller supplies, and the plain-value address
//! type they carry.

use vstd::prelude::*;

verus! {

/// The port a viewer listens on when none is given explicitly.
pub const DEFAULT_SERVER_PORT: u16 = 9876;

/// An IP address, held as plain numeric components.
#[derive(Clone, Copy, Debug, PartialEq, Eq, Structural)]
pub enum IpAddress {
    V4 { a: u8, b: u8, c: u8, d: u8 },
    V6 { s0: u16, s1: u16, s2: u16, s3: u16, s4: u16, s5: u16, s6: u16, s7: u16 },
}

/// A socket address: an IP address together with a port.
#[derive(Clone, Copy, Debug, PartialEq, Eq, Structural)]
pub struct SocketAddress {
    pub ip: IpAddress,
    pub port: u16,
}

/// The address a remote viewer is assumed to listen on when `--connect` is
/// given without an explicit address: `127.0.0.1:9876`.
pub open spec fn spec_default_server_addr() -> SocketAddress {
    SocketAddress {
        ip: IpAddress::V4 { a: 127, b: 0, c: 0, d: 1 },
        port: DEFAULT_SERVER_PORT as u16,
    }
}

/// Returns the default viewer address used by a bare `--connect`.
pub fn default_server_addr() -> (addr: SocketAddress)
    ensures
        addr == spec_default_server_addr(),
{
    SocketAddress {
        ip: IpAddress::V4 { a: 127, b: 0, c: 0, d: 1 },
        port: DEFAULT_SERVER_PORT,
    }
}

/// The three-way `--connect` directive: not given, given without an address
/// (dial the default), or given with an explicit address.
#[derive(Clone, Copy, Debug, PartialEq, Eq, Structural)]
pub enum ConnectDirective {
    Absent,
    UseDefault,
    Explicit(SocketAddress),
}

/// Which optional viewer capabilities this build of the client offers.
/// They shrink the set of resolvable behaviors: `serve` is honored only with
/// the web-viewer capability, and the spawn fallback exists only with the
/// native-viewer capability.
#[derive(Clone, Copy, Debug, PartialEq, Eq, Structural)]
pub struct Capabilities {
    pub web_viewer: bool,
    pub native_viewer: bool,
}

/// The set of startup directives a typical application exposes, supplied
/// once per run. At most one behavior is derived from them, with `save`
/// taking precedence over `serve`, `serve` over `connect`, and a spawned
/// local viewer as the fallback.
#[derive(Clone, Debug, PartialEq, Eq)]
pub struct RerunArgs {
    /// Start a local viewer and feed it data in real time if nothing more
    /// specific is requested.
    pub spawn: bool,
    /// Save the data to a file at this path rather than visualizing it
    /// immediately.
    pub save: Option<String>,
    /// Connect and send the logged data to a remote viewer.
    pub connect: ConnectDirective,
    /// Host a web viewer (honored only when the web-viewer capability is
    /// available).
    pub serve: bool,
}

} // verus!
