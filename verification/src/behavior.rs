//! Behavior resolution: from a set of startup directives to exactly one
//! resolved behavior, with a fixed precedence order.

use vstd::prelude::*;
use crate::config::{Capabilities, ConnectDirective, RerunArgs, SocketAddress};
use crate::config::spec_default_server_addr;
use crate::config::default_server_addr;

verus! {

/// The single resolved startup action chosen from the directives.
#[derive(Clone, Debug, PartialEq, Eq)]
pub enum RerunBehavior {
    /// Connect and send the logged data to a remote viewer at this address.
    Connect(SocketAddress),
    /// Save the data to a file at this path.
    Save(String),
    /// Host a web viewer.
    Serve,
    /// Spawn a local viewer and feed it data in real time.
    Spawn,
}

/// A configuration from which no behavior can be resolved.
#[derive(Clone, Copy, Debug, PartialEq, Eq, Structural)]
pub enum ConfigError {
    /// No directive was given and no spawn fallback capability is available.
    NoBehaviorSelected,
}

impl ConfigError {
    /// A human-readable description of the error.
    pub fn describe(&self) -> (msg: &'static str)
        ensures
            msg@ == "Expected --save, --connect, or --serve"@,
    {
        "Expected --save, --connect, or --serve"
    }
}

/// What behavior a set of directives resolves to, checked in a fixed
/// precedence order: `save` first, then `serve` (when the web-viewer
/// capability exists), then `connect`, and finally the spawn fallback (when
/// the native-viewer capability exists). The resolution fails exactly when
/// no directive is given and no spawn fallback exists.
pub open spec fn spec_resolve(args: RerunArgs, caps: Capabilities) -> Result<
    RerunBehavior,
    ConfigError,
> {
    match args.save {
        Some(path) => Ok(RerunBehavior::Save(path)),
        None => if caps.web_viewer && args.serve {
            Ok(RerunBehavior::Serve)
        } else {
            match args.connect {
                ConnectDirective::Explicit(addr) => Ok(RerunBehavior::Connect(addr)),
                ConnectDirective::UseDefault => Ok(
                    RerunBehavior::Connect(spec_default_server_addr()),
                ),
                ConnectDirective::Absent => if caps.native_viewer {
                    Ok(RerunBehavior::Spawn)
                } else {
                    Err(ConfigError::NoBehaviorSelected)
                },
            }
        },
    }
}

impl RerunArgs {
    /// Resolves these directives to exactly one behavior under the given
    /// capabilities, following the documented precedence order. Succeeds on
    /// every input except one with no directive at all and no spawn
    /// fallback.
    pub fn to_behavior(&self, caps: &Capabilities) -> (r: Result<RerunBehavior, ConfigError>)
        ensures
            r == spec_resolve(*self, *caps),
            r is Err <==> (self.save is None && !(caps.web_viewer && self.serve)
                && self.connect is Absent && !caps.native_viewer),
    {
        match &self.save {
            Some(path) => {
                return Ok(RerunBehavior::Save(path.clone()));
            },
            None => {},
        }

        if caps.web_viewer && self.serve {
            return Ok(RerunBehavior::Serve);
        }

        match self.connect {
            ConnectDirective::Explicit(addr) => {
                return Ok(RerunBehavior::Connect(addr));
            },
            ConnectDirective::UseDefault => {
                return Ok(RerunBehavior::Connect(default_server_addr()));
            },
            ConnectDirective::Absent => {},
        }

        if caps.native_viewer {
            Ok(RerunBehavior::Spawn)
        } else {
            Err(ConfigError::NoBehaviorSelected)
        }
    }
}

/// `save` takes precedence: whenever a save path is given, resolution yields
/// `Save` with exactly that path, regardless of every other directive and
/// capability.
pub proof fn lemma_save_takes_precedence(args: RerunArgs, caps: Capabilities)
    requires
        args.save is Some,
    ensures
        spec_resolve(args, caps) == Ok::<RerunBehavior, ConfigError>(
            RerunBehavior::Save(args.save->0),
        ),
{
}

/// With no save path, an enabled web-viewer capability and `serve` set
/// resolve to `Serve`, regardless of the connect and spawn directives.
pub proof fn lemma_serve_precedes_connect(args: RerunArgs, caps: Capabilities)
    requires
        args.save is None,
        caps.web_viewer,
        args.serve,
    ensures
        spec_resolve(args, caps) == Ok::<RerunBehavior, ConfigError>(RerunBehavior::Serve),
{
}

/// A bare connect directive (no explicit address) resolves to `Connect` with
/// the default server address, whenever neither save nor an honored serve
/// stands before it.
pub proof fn lemma_connect_default_address(args: RerunArgs, caps: Capabilities)
    requires
        args.save is None,
        !(caps.web_viewer && args.serve),
        args.connect is UseDefault,
    ensures
        spec_resolve(args, caps) == Ok::<RerunBehavior, ConfigError>(
            RerunBehavior::Connect(spec_default_server_addr()),
        ),
{
}

/// An explicit connect address resolves to `Connect` with exactly that
/// address, whenever neither save nor an honored serve stands before it.
pub proof fn lemma_connect_explicit_address(args: RerunArgs, caps: Capabilities)
    requires
        args.save is None,
        !(caps.web_viewer && args.serve),
        args.connect is Explicit,
    ensures
        spec_resolve(args, caps) == Ok::<RerunBehavior, ConfigError>(
            RerunBehavior::Connect(args.connect->0),
        ),
{
}

/// With no directive given and no native-viewer capability to fall back on,
/// resolution fails — and that is the only failing configuration.
pub proof fn lemma_no_behavior_error(args: RerunArgs, caps: Capabilities)
    ensures
        spec_resolve(args, caps) is Err <==> (args.save is None
            && !(caps.web_viewer && args.serve) && args.connect is Absent
            && !caps.native_viewer),
        spec_resolve(args, caps) is Err ==> spec_resolve(args, caps) == Err::<
            RerunBehavior,
            ConfigError,
        >(ConfigError::NoBehaviorSelected),
{
}

/// With no directive given but the native-viewer capability available,
/// resolution falls back to `Spawn`.
pub proof fn lemma_spawn_fallback(args: RerunArgs, caps: Capabilities)
    requires
        args.save is None,
        !(caps.web_viewer && args.serve),
        args.connect is Absent,
        caps.native_viewer,
    ensures
        spec_resolve(args, caps) == Ok::<RerunBehavior, ConfigError>(RerunBehavior::Spawn),
{
}

} // verus!
