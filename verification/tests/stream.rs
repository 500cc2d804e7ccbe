use conn_bridge::{
    Address, ConnectionWrapper, Connector, CursorBuf, FilledBuf, IoFault, Polled, PoolMetadata,
    RawConnection, TargetContext, TransportFault, TransportKind,
};

fn open_conn(accept: usize) -> RawConnection {
    RawConnection::establish(accept)
}

#[test]
fn ping_round_trip_through_serve() {
    // Plain connector with no explicit config; context bound to a loopback
    // endpoint; serve with a placeholder URI; the echoing peer returns the
    // written bytes, and the read observes them exactly.
    let c = Connector::new(None);
    let mut ctx = TargetContext::bind(Address::Ip {
        octets: vec![127, 0, 0, 1],
        port: 4096,
    });
    let plan = c.serve(&mut ctx, b"http://placeholder/").unwrap();
    assert_eq!(plan.kind, TransportKind::Plain);
    assert_eq!(
        plan.target,
        Address::Ip {
            octets: vec![127, 0, 0, 1],
            port: 4096,
        }
    );

    let mut bridge = ConnectionWrapper::wrap(open_conn(64));
    assert_eq!(bridge.poll_write(b"ping"), Polled::Ready(Ok(4)));
    assert_eq!(bridge.raw().outgoing, b"ping".to_vec());

    // The peer echoes what arrived.
    let echoed = bridge.raw().outgoing.clone();
    bridge.deliver(&echoed);

    let mut buf = FilledBuf::new(16);
    assert_eq!(bridge.poll_read_buf(&mut buf), Polled::Ready(Ok(())));
    assert_eq!(buf.data, b"ping".to_vec());
}

#[test]
fn both_read_contracts_observe_the_same_bytes() {
    // The same stream state, read once through the runtime-native contract
    // and once through the network-library-native contract: byte-for-byte
    // the same data.
    let mut a = ConnectionWrapper::wrap(open_conn(0));
    a.deliver(b"payload");
    let mut b = ConnectionWrapper::wrap(open_conn(0));
    b.deliver(b"payload");

    let mut buf = FilledBuf::new(32);
    assert_eq!(a.poll_read_buf(&mut buf), Polled::Ready(Ok(())));

    let mut cur = CursorBuf::over(vec![0; 32]);
    assert_eq!(b.poll_read_cursor(&mut cur), Polled::Ready(Ok(())));

    assert_eq!(buf.data, b"payload".to_vec());
    assert_eq!(cur.filled, 7);
    assert_eq!(&cur.raw[..cur.filled], b"payload");
}

#[test]
fn cursor_read_advances_by_exactly_what_was_produced() {
    let mut bridge = ConnectionWrapper::wrap(open_conn(0));
    bridge.deliver(b"ab");
    // A garbage-filled raw region: only the produced bytes become visible,
    // the tail stays untouched.
    let mut cur = CursorBuf::over(vec![9, 9, 9, 9, 9, 9]);
    assert_eq!(bridge.poll_read_cursor(&mut cur), Polled::Ready(Ok(())));
    assert_eq!(cur.filled, 2);
    assert_eq!(cur.raw, vec![b'a', b'b', 9, 9, 9, 9]);
}

#[test]
fn cursor_read_fills_at_most_the_region() {
    let mut bridge = ConnectionWrapper::wrap(open_conn(0));
    bridge.deliver(b"abcdef");
    let mut cur = CursorBuf::over(vec![0; 4]);
    assert_eq!(bridge.poll_read_cursor(&mut cur), Polled::Ready(Ok(())));
    assert_eq!(cur.filled, 4);
    assert_eq!(cur.raw, b"abcd".to_vec());
    // The rest is still waiting in the stream.
    let mut buf = FilledBuf::new(4);
    assert_eq!(bridge.poll_read_buf(&mut buf), Polled::Ready(Ok(())));
    assert_eq!(buf.data, b"ef".to_vec());
}

#[test]
fn empty_open_stream_reports_pending_not_eof() {
    let mut bridge = ConnectionWrapper::wrap(open_conn(8));
    let mut buf = FilledBuf::new(8);
    assert_eq!(bridge.poll_read_buf(&mut buf), Polled::Pending);
    assert_eq!(buf.data.len(), 0);
}

#[test]
fn zero_bytes_means_end_of_stream_only_when_closed() {
    let mut conn = open_conn(8);
    conn.peer_closed = true;
    let mut bridge = ConnectionWrapper::wrap(conn);
    let mut buf = FilledBuf::new(8);
    // Drained and closed: a zero-byte read, meaning end-of-stream.
    assert_eq!(bridge.poll_read_buf(&mut buf), Polled::Ready(Ok(())));
    assert_eq!(buf.data.len(), 0);
}

#[test]
fn closed_stream_yields_remaining_data_before_eof() {
    let mut conn = open_conn(8);
    conn.peer_closed = true;
    let mut bridge = ConnectionWrapper::wrap(conn);
    bridge.deliver(b"tail");
    let mut buf = FilledBuf::new(8);
    assert_eq!(bridge.poll_read_buf(&mut buf), Polled::Ready(Ok(())));
    assert_eq!(buf.data, b"tail".to_vec());
    let mut buf2 = FilledBuf::new(8);
    assert_eq!(bridge.poll_read_buf(&mut buf2), Polled::Ready(Ok(())));
    assert_eq!(buf2.data.len(), 0);
}

#[test]
fn partial_write_is_reported_truthfully() {
    let mut bridge = ConnectionWrapper::wrap(open_conn(2));
    assert_eq!(bridge.poll_write(b"ping"), Polled::Ready(Ok(2)));
    assert_eq!(bridge.raw().outgoing, b"pi".to_vec());
    // The quota is used up: the next write would block.
    assert_eq!(bridge.poll_write(b"ng"), Polled::Pending);
}

#[test]
fn empty_write_succeeds_with_zero() {
    let mut bridge = ConnectionWrapper::wrap(open_conn(0));
    assert_eq!(bridge.poll_write(b""), Polled::Ready(Ok(0)));
}

#[test]
fn flush_changes_nothing_and_succeeds() {
    let mut bridge = ConnectionWrapper::wrap(open_conn(4));
    assert_eq!(bridge.poll_write(b"hi"), Polled::Ready(Ok(2)));
    assert_eq!(bridge.poll_flush(), Polled::Ready(Ok(())));
    assert_eq!(bridge.raw().outgoing, b"hi".to_vec());
}

#[test]
fn shutdown_is_idempotent_and_writes_fail_after() {
    let mut bridge = ConnectionWrapper::wrap(open_conn(8));
    assert_eq!(bridge.poll_shutdown(), Polled::Ready(Ok(())));
    assert_eq!(bridge.poll_shutdown(), Polled::Ready(Ok(())));
    assert!(bridge.raw().shut);
    assert_eq!(
        bridge.poll_write(b"x"),
        Polled::Ready(Err(IoFault {
            cause: TransportFault::Closed
        }))
    );
}

#[test]
fn faults_propagate_verbatim_to_every_operation() {
    let mut conn = open_conn(8);
    conn.fault = Some(IoFault {
        cause: TransportFault::TimedOut,
    });
    let mut bridge = ConnectionWrapper::wrap(conn);
    let fault = IoFault {
        cause: TransportFault::TimedOut,
    };
    let mut buf = FilledBuf::new(4);
    assert_eq!(bridge.poll_read_buf(&mut buf), Polled::Ready(Err(fault)));
    let mut cur = CursorBuf::over(vec![0; 4]);
    assert_eq!(bridge.poll_read_cursor(&mut cur), Polled::Ready(Err(fault)));
    assert_eq!(cur.filled, 0);
    assert_eq!(bridge.poll_write(b"x"), Polled::Ready(Err(fault)));
    assert_eq!(bridge.poll_flush(), Polled::Ready(Err(fault)));
    assert_eq!(bridge.poll_shutdown(), Polled::Ready(Err(fault)));
}

#[test]
fn pool_metadata_reports_fresh_direct_connection() {
    let bridge = ConnectionWrapper::wrap(open_conn(0));
    assert_eq!(
        bridge.connected(),
        PoolMetadata {
            poolable: true,
            proxied: false,
        }
    );
}
