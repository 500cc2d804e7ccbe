use conn_bridge::{
    finish_dial, from_hex, unix_target_from_hex, Address, Connector, HexError, IoFault, Polled,
    ServeFault, TargetContext, TlsConfig, TransportConfig, TransportFault, TransportKind,
};

#[test]
fn test_convert() {
    let authority = "2f746d702f7270632e736f636b";
    assert_eq!(
        String::from_utf8(from_hex(authority.as_bytes()).unwrap()).unwrap(),
        "/tmp/rpc.sock"
    );
}

#[test]
fn hex_rejects_odd_length() {
    assert_eq!(from_hex(b"2f7"), Err(HexError::OddLength));
}

#[test]
fn hex_rejects_bad_digit() {
    assert_eq!(from_hex(b"2g"), Err(HexError::InvalidDigit));
}

#[test]
fn hex_accepts_upper_case() {
    assert_eq!(from_hex(b"2F74"), Ok(vec![0x2f, 0x74]));
}

#[test]
fn hex_empty_is_empty() {
    assert_eq!(from_hex(b""), Ok(Vec::new()));
}

#[test]
fn unix_target_keeps_exact_path_bytes() {
    let target = unix_target_from_hex(b"2f746d702f7270632e736f636b").unwrap();
    assert_eq!(
        target,
        Address::Unix {
            path: b"/tmp/rpc.sock".to_vec()
        }
    );
}

#[test]
fn plain_connector_applies_config() {
    let cfg = TransportConfig {
        connect_timeout_ms: Some(50),
        read_timeout_ms: Some(100),
        write_timeout_ms: None,
    };
    let c = Connector::new(Some(cfg));
    let plan = c.plan_dial(Address::Named {
        host: b"example".to_vec(),
        port: 80,
    });
    assert_eq!(plan.kind, TransportKind::Plain);
    assert_eq!(plan.cfg, cfg);
    assert!(c.tls_config().is_none());
}

#[test]
fn plain_connector_without_config_uses_defaults() {
    let c = Connector::new(None);
    let plan = c.plan_dial(Address::Unix {
        path: b"/run/x".to_vec(),
    });
    assert_eq!(plan.cfg, TransportConfig::unspecified());
    assert_eq!(plan.kind, TransportKind::Plain);
}

#[test]
fn default_connector_is_plain_unconfigured() {
    let c = Connector::default();
    let plan = c.plan_dial(Address::Named {
        host: b"h".to_vec(),
        port: 1,
    });
    assert_eq!(plan.kind, TransportKind::Plain);
    assert_eq!(plan.cfg, TransportConfig::unspecified());
}

#[test]
fn tls_connector_keeps_tls_config() {
    let tls = TlsConfig {
        trust_roots: vec![vec![1, 2, 3]],
        server_name: Some(b"svc.example".to_vec()),
    };
    let c = Connector::new_with_tls(None, tls.clone());
    let plan = c.plan_dial(Address::Ip {
        octets: vec![10, 0, 0, 1],
        port: 443,
    });
    assert_eq!(plan.kind, TransportKind::Tls);
    assert_eq!(plan.cfg, TransportConfig::unspecified());
    assert_eq!(c.tls_config(), Some(&tls));
}

#[test]
fn connector_is_always_ready() {
    let c = Connector::new(None);
    assert_eq!(c.poll_ready(), Polled::Ready(Ok(())));
}

#[test]
fn dial_targets_unix_path_untransformed() {
    // The bound filesystem path reaches the dial plan byte for byte.
    let c = Connector::new(None);
    let plan = c.plan_dial(Address::Unix {
        path: b"/tmp/rpc.sock".to_vec(),
    });
    assert_eq!(
        plan.target,
        Address::Unix {
            path: b"/tmp/rpc.sock".to_vec()
        }
    );
}

#[test]
fn serve_dials_bound_target_whatever_the_uri() {
    let c = Connector::new(None);
    let addr = Address::Ip {
        octets: vec![127, 0, 0, 1],
        port: 9000,
    };
    let mut ctx_a = TargetContext::bind(addr.clone());
    let mut ctx_b = TargetContext::bind(addr.clone());
    let plan_a = c.serve(&mut ctx_a, b"http://placeholder/").unwrap();
    let plan_b = c.serve(&mut ctx_b, b"https://something.else:1234/path").unwrap();
    assert_eq!(plan_a, plan_b);
    assert_eq!(plan_a.target, addr);
}

#[test]
fn serve_without_binding_faults() {
    let c = Connector::new(None);
    let mut ctx = TargetContext::unbound();
    let r = c.serve(&mut ctx, b"http://placeholder/");
    assert_eq!(r, Err(ServeFault::ContextMissing));
}

#[test]
fn context_entry_is_read_once() {
    let addr = Address::Unix {
        path: b"/tmp/rpc.sock".to_vec(),
    };
    let mut ctx = TargetContext::bind(addr.clone());
    assert_eq!(ctx.read_target(), Some(addr));
    assert_eq!(ctx.read_target(), None);
}

#[test]
fn serve_consumes_the_context_entry() {
    let c = Connector::new(None);
    let mut ctx = TargetContext::bind(Address::Named {
        host: b"peer".to_vec(),
        port: 7,
    });
    assert!(c.serve(&mut ctx, b"uri").is_ok());
    assert_eq!(c.serve(&mut ctx, b"uri"), Err(ServeFault::ContextMissing));
}

#[test]
fn finish_dial_passes_connection_through() {
    let r: Result<u32, TransportFault> = Ok(7);
    assert_eq!(finish_dial(r), Ok(7));
}

#[test]
fn finish_dial_normalizes_every_cause() {
    for cause in [
        TransportFault::Refused,
        TransportFault::TimedOut,
        TransportFault::NameResolution,
        TransportFault::TlsHandshake,
        TransportFault::Closed,
        TransportFault::Other,
    ] {
        let r: Result<u32, TransportFault> = Err(cause);
        assert_eq!(finish_dial(r), Err(IoFault { cause }));
    }
}
