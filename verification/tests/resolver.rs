use rerun_bootstrap::behavior::{ConfigError, RerunBehavior};
use rerun_bootstrap::config::{
    default_server_addr, Capabilities, ConnectDirective, IpAddress, RerunArgs, SocketAddress,
};

fn addr(a: u8, b: u8, c: u8, d: u8, port: u16) -> SocketAddress {
    SocketAddress { ip: IpAddress::V4 { a, b, c, d }, port }
}

fn all_caps() -> Capabilities {
    Capabilities { web_viewer: true, native_viewer: true }
}

fn no_caps() -> Capabilities {
    Capabilities { web_viewer: false, native_viewer: false }
}

#[test]
fn save_takes_precedence_over_everything() {
    let args = RerunArgs {
        spawn: true,
        save: Some("/tmp/x.bin".to_string()),
        connect: ConnectDirective::Explicit(addr(10, 0, 0, 1, 1234)),
        serve: true,
    };
    assert_eq!(
        args.to_behavior(&all_caps()),
        Ok(RerunBehavior::Save("/tmp/x.bin".to_string()))
    );
    assert_eq!(
        args.to_behavior(&no_caps()),
        Ok(RerunBehavior::Save("/tmp/x.bin".to_string()))
    );
}

#[test]
fn serve_precedes_connect_and_spawn() {
    let args = RerunArgs {
        spawn: true,
        save: None,
        connect: ConnectDirective::Explicit(addr(10, 0, 0, 1, 1234)),
        serve: true,
    };
    assert_eq!(args.to_behavior(&all_caps()), Ok(RerunBehavior::Serve));
}

#[test]
fn serve_is_ignored_without_the_web_viewer_capability() {
    let caps = Capabilities { web_viewer: false, native_viewer: true };
    let args = RerunArgs {
        spawn: true,
        save: None,
        connect: ConnectDirective::Absent,
        serve: true,
    };
    assert_eq!(args.to_behavior(&caps), Ok(RerunBehavior::Spawn));
}

#[test]
fn bare_connect_uses_the_default_address() {
    let args = RerunArgs {
        spawn: true,
        save: None,
        connect: ConnectDirective::UseDefault,
        serve: false,
    };
    assert_eq!(
        args.to_behavior(&all_caps()),
        Ok(RerunBehavior::Connect(default_server_addr()))
    );
    assert_eq!(default_server_addr(), addr(127, 0, 0, 1, 9876));
}

#[test]
fn explicit_connect_uses_exactly_that_address() {
    let explicit = addr(127, 0, 0, 1, 9000);
    let args = RerunArgs {
        spawn: false,
        save: None,
        connect: ConnectDirective::Explicit(explicit),
        serve: false,
    };
    assert_eq!(
        args.to_behavior(&all_caps()),
        Ok(RerunBehavior::Connect(explicit))
    );
}

#[test]
fn explicit_connect_supports_ipv6_addresses() {
    let explicit = SocketAddress {
        ip: IpAddress::V6 { s0: 0, s1: 0, s2: 0, s3: 0, s4: 0, s5: 0, s6: 0, s7: 1 },
        port: 9876,
    };
    let args = RerunArgs {
        spawn: true,
        save: None,
        connect: ConnectDirective::Explicit(explicit),
        serve: false,
    };
    assert_eq!(
        args.to_behavior(&no_caps()),
        Ok(RerunBehavior::Connect(explicit))
    );
}

#[test]
fn no_directive_and_no_spawn_capability_is_an_error() {
    let args = RerunArgs {
        spawn: true,
        save: None,
        connect: ConnectDirective::Absent,
        serve: false,
    };
    let err = args.to_behavior(&no_caps()).unwrap_err();
    assert_eq!(err, ConfigError::NoBehaviorSelected);
    assert_eq!(err.describe(), "Expected --save, --connect, or --serve");
}

#[test]
fn serve_without_capability_and_nothing_else_is_an_error() {
    let args = RerunArgs {
        spawn: true,
        save: None,
        connect: ConnectDirective::Absent,
        serve: true,
    };
    assert_eq!(
        args.to_behavior(&no_caps()),
        Err(ConfigError::NoBehaviorSelected)
    );
}

#[test]
fn no_directive_falls_back_to_spawn() {
    let args = RerunArgs {
        spawn: true,
        save: None,
        connect: ConnectDirective::Absent,
        serve: false,
    };
    let caps = Capabilities { web_viewer: true, native_viewer: true };
    assert_eq!(args.to_behavior(&caps), Ok(RerunBehavior::Spawn));
}
