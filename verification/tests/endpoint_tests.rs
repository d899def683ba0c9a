use std::sync::Arc;

use quic_endpoint::boundary::{CODE_NO_DEFAULT_CONFIG, CODE_NO_STREAM, CODE_UNKNOWN_CONNECTION};
use quic_endpoint::connection::{interpret_read, interpret_write, ReadOutcome, WriteOutcome};
use quic_endpoint::engine::{ReadResult, WriteResult};
use quic_endpoint::endpoint::{DatagramDisposition, EndpointInner};
use quic_endpoint::engine::ConnEvent;
use quic_endpoint::StreamDir;

type SocketAddr = core::net::SocketAddr;

fn server_addr() -> SocketAddr {
    "127.0.0.1:4433".parse().unwrap()
}

fn client_addr() -> SocketAddr {
    "127.0.0.1:1111".parse().unwrap()
}

fn cert_pair() -> (rustls::Certificate, rustls::PrivateKey) {
    let cert = rcgen::generate_simple_self_signed(vec!["localhost".to_string()]).unwrap();
    let key = rustls::PrivateKey(cert.serialize_private_key_der());
    let der = rustls::Certificate(cert.serialize_der().unwrap());
    (der, key)
}

fn endpoint_pair() -> (EndpointInner, EndpointInner) {
    let (cert, key) = cert_pair();
    let server_crypto =
        quinn_proto::ServerConfig::with_single_cert(vec![cert.clone()], key).unwrap();
    let server_engine = quinn_proto::Endpoint::new(
        Arc::new(quinn_proto::EndpointConfig::default()),
        Some(Arc::new(server_crypto)),
    );
    let server = EndpointInner::new(server_engine, 1);

    let mut roots = rustls::RootCertStore::empty();
    roots.add(&cert).unwrap();
    let client_crypto = quinn_proto::ClientConfig::with_root_certificates(roots);
    let client_engine =
        quinn_proto::Endpoint::new(Arc::new(quinn_proto::EndpointConfig::default()), None);
    let mut client = EndpointInner::new(client_engine, 2);
    client.set_default_client_config(client_crypto);
    (client, server)
}

/// Drives one endpoint the way its poller would: serve every connection
/// flagged pollable, then poll the endpoint itself, until no more work is
/// signalled; returns the outbound transmits that accumulated.
fn pump(ep: &mut EndpointInner) -> Vec<(SocketAddr, Vec<u8>)> {
    for _ in 0..8 {
        let pollable = ep.take_pollable();
        for h in pollable {
            let _ = ep.poll_connection(h);
        }
        let _ = ep.poll();
    }
    ep.take_transmits()
}

fn deliver(to: &mut EndpointInner, from_addr: SocketAddr, transmits: Vec<(SocketAddr, Vec<u8>)>) {
    for (_dest, data) in transmits {
        let _ = to.handle_datagram(from_addr, &data);
    }
}

#[test]
fn connect_without_default_config_is_rejected() {
    let engine =
        quinn_proto::Endpoint::new(Arc::new(quinn_proto::EndpointConfig::default()), None);
    let mut client = EndpointInner::new(engine, 9);
    match client.connect(server_addr(), "localhost") {
        Err(e) => {
            assert_eq!(e.code, CODE_NO_DEFAULT_CONFIG);
            assert_eq!(e.reason, b"no default client configuration was set".to_vec());
        }
        Ok(_) => panic!("connect without a default configuration must fail"),
    }
}

#[test]
fn garbage_datagram_is_silently_ignored() {
    let (_, mut server) = endpoint_pair();
    let r = server.handle_datagram(client_addr(), &[0u8; 16]);
    assert!(matches!(r, Ok(DatagramDisposition::Ignored)));
}

#[test]
fn forwarding_to_unknown_connection_fails() {
    let (mut client, _) = endpoint_pair();
    let event = quinn_proto::EndpointEvent::drained();
    let drained = client.push_endpoint_event(77, event);
    assert!(drained);
    // The queued event's connection was never registered: the poll pass
    // absorbs it and the maps stay consistent.
    let more = client.poll().unwrap();
    assert!(!more);
    assert!(!client.knows_connection(77));
}

#[test]
fn drained_event_purges_the_connection() {
    let (mut client, _) = endpoint_pair();
    let handle = client.connect(server_addr(), "localhost").unwrap();
    assert!(client.knows_connection(handle));
    assert_eq!(client.registry_sizes(), (1, 1));
    client.push_endpoint_event(handle, quinn_proto::EndpointEvent::drained());
    client.poll().unwrap();
    assert!(!client.knows_connection(handle));
    assert_eq!(client.registry_sizes(), (0, 0));
    // The caller-held handle stays usable: calls now fail with a domain
    // error instead of crashing.
    match client.accept_stream(handle, StreamDir::Bi) {
        Err(e) => assert_eq!(e.code, CODE_UNKNOWN_CONNECTION),
        Ok(_) => panic!("a purged connection must not accept streams"),
    }
}

#[test]
fn events_for_handles_the_engine_never_made_are_absorbed() {
    let (mut client, _) = endpoint_pair();
    // An actor registered under a handle this endpoint's engine never
    // returned: its drained notice is absorbed and purges the registration,
    // and the engine is never consulted for the foreign handle.
    let mut other_engine =
        quinn_proto::Endpoint::new(Arc::new(quinn_proto::EndpointConfig::default()), None);
    let config = quinn_proto::ClientConfig::with_root_certificates(rustls::RootCertStore::empty());
    let (_ch, foreign) = other_engine.connect(config, server_addr(), "localhost").unwrap();
    client.add_connection(999, foreign, true);
    assert!(client.knows_connection(999));
    client.push_endpoint_event(999, quinn_proto::EndpointEvent::drained());
    client.poll().unwrap();
    assert!(!client.knows_connection(999));
    assert_eq!(client.registry_sizes(), (0, 0));
}

#[test]
fn a_mismatched_side_flag_is_a_domain_error_not_a_crash() {
    let (mut client, _) = endpoint_pair();
    // A client-side engine connection registered with the wrong side flag:
    // the identifier of a unidirectional client-initiated stream passes the
    // flag-based check, and the engine-side guard reports a domain error.
    let mut other_engine =
        quinn_proto::Endpoint::new(Arc::new(quinn_proto::EndpointConfig::default()), None);
    let config = quinn_proto::ClientConfig::with_root_certificates(rustls::RootCertStore::empty());
    let (_ch, foreign) = other_engine.connect(config, server_addr(), "localhost").unwrap();
    client.add_connection(7, foreign, false);
    match client.read_stream(7, 2, 16) {
        Err(e) => assert_eq!(e.code, quic_endpoint::boundary::CODE_DOMAIN),
        other => panic!("expected a domain error, got {}", outcome_name(&other)),
    }
}

#[test]
fn engine_outcomes_map_to_the_boundary_taxonomy() {
    assert!(matches!(interpret_write(WriteResult::Blocked), Ok(WriteOutcome::Blocked)));
    assert!(matches!(interpret_write(WriteResult::Written(5)), Ok(WriteOutcome::Written(5))));
    match interpret_write(WriteResult::Stopped(3)) {
        Err(e) => {
            assert_eq!(e.code, quic_endpoint::boundary::CODE_DOMAIN);
            assert_eq!(e.reason, b"stream stopped by peer".to_vec());
        }
        Ok(_) => panic!("a stopped stream is a failure"),
    }
    assert!(matches!(interpret_read(ReadResult::Blocked), Ok(ReadOutcome::Blocked)));
    assert!(matches!(interpret_read(ReadResult::Data(Vec::new())), Ok(ReadOutcome::Blocked)));
    match interpret_read(ReadResult::Data(vec![1, 2])) {
        Ok(ReadOutcome::Data(d)) => assert_eq!(d, vec![1, 2]),
        _ => panic!("nonempty data must pass through"),
    }
    assert!(matches!(interpret_read(ReadResult::Finished), Ok(ReadOutcome::Finished)));
    match interpret_read(ReadResult::Reset(9)) {
        Err(e) => assert_eq!(e.reason, b"stream reset by peer".to_vec()),
        Ok(_) => panic!("a reset stream is a failure"),
    }
}

#[test]
fn pollable_flags_accumulate_without_duplicates() {
    let (mut client, _) = endpoint_pair();
    let h1 = client.connect(server_addr(), "localhost").unwrap();
    let h2 = client.connect(server_addr(), "localhost").unwrap();
    assert_ne!(h1, h2);
    client.take_pollable();
    client.register_pollable_connection(h1);
    client.register_pollable_connection(h2);
    client.register_pollable_connection(h1);
    client.register_pollable_connection(h2);
    client.register_pollable_connection(h1);
    let marked = client.take_pollable();
    assert_eq!(marked, vec![h1, h2]);
    // Every flag was cleared by the drain; marking again re-queues.
    assert_eq!(client.take_pollable(), Vec::<u64>::new());
    client.register_pollable_connection(h2);
    assert_eq!(client.take_pollable(), vec![h2]);
}

/// Shuttles datagrams both ways until both sides report `Connected`;
/// returns the server-side handle of the connection.
fn establish(client: &mut EndpointInner, server: &mut EndpointInner) -> (u64, u64) {
    let handle = client.connect(server_addr(), "localhost").unwrap();
    client.register_pollable_connection(handle);
    let mut server_handle: Option<u64> = None;
    let mut client_connected = false;
    let mut server_connected = false;
    for _round in 0..20 {
        let out = pump(client);
        deliver(server, client_addr(), out);
        for h in server.take_new_connections() {
            server_handle = Some(h);
        }
        let back = pump(server);
        deliver(client, server_addr(), back);
        for (_h, ev) in client.take_app_events() {
            if matches!(ev, ConnEvent::Connected) {
                client_connected = true;
            }
        }
        for (_h, ev) in server.take_app_events() {
            if matches!(ev, ConnEvent::Connected) {
                server_connected = true;
            }
        }
        if client_connected && server_connected {
            break;
        }
    }
    assert!(client_connected && server_connected, "handshake did not converge");
    (handle, server_handle.expect("no server-side connection"))
}

#[test]
fn out_of_range_stream_id_is_rejected() {
    let (mut client, _) = endpoint_pair();
    let handle = client.connect(server_addr(), "localhost").unwrap();
    let too_big: u64 = 1u64 << 62;
    match client.read_stream(handle, too_big, 16) {
        Err(e) => assert_eq!(e.code, quic_endpoint::boundary::CODE_STREAM_ID_RANGE),
        Ok(_) => panic!("an out-of-range stream id must be rejected"),
    }
    match client.write_stream(handle, too_big, b"x") {
        Err(e) => assert_eq!(e.code, quic_endpoint::boundary::CODE_STREAM_ID_RANGE),
        Ok(_) => panic!("an out-of-range stream id must be rejected"),
    }
}

#[test]
fn reading_an_unopened_stream_is_a_domain_error() {
    let (mut client, mut server) = endpoint_pair();
    let (handle, _server_handle) = establish(&mut client, &mut server);
    match client.read_stream(handle, 0, 16) {
        Err(e) => {
            assert_eq!(e.code, quic_endpoint::boundary::CODE_DOMAIN);
            assert_eq!(e.reason, b"unknown stream".to_vec());
        }
        other => panic!("expected a domain error, got {}", outcome_name(&other)),
    }
}

#[test]
fn reading_own_unidirectional_stream_is_a_side_error() {
    let (mut client, mut server) = endpoint_pair();
    let (handle, _server_handle) = establish(&mut client, &mut server);
    let uni = client.open_stream(handle, StreamDir::Uni).unwrap();
    match client.read_stream(handle, uni, 16) {
        Err(e) => assert_eq!(e.code, quic_endpoint::boundary::CODE_STREAM_SIDE),
        other => panic!("expected a side error, got {}", outcome_name(&other)),
    }
}

#[test]
fn opening_before_the_peer_grants_streams_is_exhausted() {
    let (mut client, _) = endpoint_pair();
    let handle = client.connect(server_addr(), "localhost").unwrap();
    // Before the handshake the peer has granted no stream identifiers.
    match client.open_stream(handle, StreamDir::Bi) {
        Err(e) => {
            assert_eq!(e.code, quic_endpoint::boundary::CODE_STREAMS_EXHAUSTED);
            assert_eq!(
                e.reason,
                b"Streams in the given direction are currently exhausted".to_vec()
            );
        }
        Ok(_) => panic!("no stream identifiers should be available yet"),
    }
}

#[test]
fn end_to_end_handshake_and_stream_round_trip() {
    let (mut client, mut server) = endpoint_pair();

    let handle = client.connect(server_addr(), "localhost").unwrap();
    client.register_pollable_connection(handle);

    let mut server_handle: Option<u64> = None;
    let mut client_connected = false;
    let mut server_connected = false;
    let mut new_connection_events: usize = 0;

    for _round in 0..20 {
        let out = pump(&mut client);
        deliver(&mut server, client_addr(), out);
        for h in server.take_new_connections() {
            new_connection_events += 1;
            server_handle = Some(h);
        }
        let back = pump(&mut server);
        deliver(&mut client, server_addr(), back);

        for (_h, ev) in client.take_app_events() {
            if matches!(ev, ConnEvent::Connected) {
                client_connected = true;
            }
        }
        for (_h, ev) in server.take_app_events() {
            if matches!(ev, ConnEvent::Connected) {
                server_connected = true;
            }
        }
        if client_connected && server_connected {
            break;
        }
    }
    assert!(client_connected, "client never reached the established state");
    assert!(server_connected, "server never reached the established state");
    assert_eq!(new_connection_events, 1, "exactly one new-connection event is owed");
    let server_handle = server_handle.expect("server saw no new connection");

    // Before the client opens a stream there is nothing to accept.
    match server.accept_stream(server_handle, StreamDir::Bi) {
        Err(e) => {
            assert_eq!(e.code, CODE_NO_STREAM);
            assert_eq!(e.reason, b"No stream to accept!".to_vec());
        }
        Ok(_) => panic!("nothing should be acceptable yet"),
    }

    let stream_id = client.open_stream(handle, StreamDir::Bi).unwrap();
    let payload: Vec<u8> = (0..4096u32).map(|i| (i % 251) as u8).collect();
    let mut written: usize = 0;
    let mut collected: Vec<u8> = Vec::new();
    let mut accepted = false;

    for _round in 0..40 {
        if written < payload.len() {
            match client.write_stream(handle, stream_id, &payload[written..]) {
                Ok(WriteOutcome::Written(n)) => written += n,
                Ok(WriteOutcome::Blocked) => {}
                Err(e) => panic!("write failed: {:?}", String::from_utf8_lossy(&e.reason)),
            }
        }
        let out = pump(&mut client);
        deliver(&mut server, client_addr(), out);

        if !accepted {
            if let Ok(id) = server.accept_stream(server_handle, StreamDir::Bi) {
                assert_eq!(id, stream_id, "stream keeps its identifier across the wire");
                accepted = true;
            }
        }
        if accepted {
            loop {
                match server.read_stream(server_handle, stream_id, 1024) {
                    Ok(ReadOutcome::Data(chunk)) => {
                        assert!(!chunk.is_empty(), "a successful read never carries zero bytes");
                        assert!(chunk.len() <= 1024);
                        collected.extend_from_slice(&chunk);
                    }
                    Ok(ReadOutcome::Blocked) => break,
                    Ok(ReadOutcome::Finished) => break,
                    Err(e) => panic!("read failed: {:?}", String::from_utf8_lossy(&e.reason)),
                }
            }
        }
        let back = pump(&mut server);
        deliver(&mut client, server_addr(), back);
        let _ = client.take_app_events();
        let _ = server.take_app_events();

        assert_eq!(
            client.registry_sizes(),
            (1, 1),
            "the two registries agree in size after every poll"
        );
        assert_eq!(server.registry_sizes(), (1, 1));
        if collected.len() == payload.len() {
            break;
        }
    }

    assert_eq!(written, payload.len(), "client could not write the whole payload");
    assert_eq!(collected, payload, "bytes must arrive unmodified and in order");

    // A stream with no data left reports a transient block, never a
    // zero-length success.
    match server.read_stream(server_handle, stream_id, 1024) {
        Ok(ReadOutcome::Blocked) => {}
        other => panic!("expected a blocked read, got {:?}", outcome_name(&other)),
    }
}

fn outcome_name(r: &Result<ReadOutcome, quic_endpoint::boundary::QuinnError>) -> &'static str {
    match r {
        Ok(ReadOutcome::Data(_)) => "data",
        Ok(ReadOutcome::Finished) => "finished",
        Ok(ReadOutcome::Blocked) => "blocked",
        Err(_) => "error",
    }
}

#[test]
fn write_then_poll_emits_a_transmit() {
    // Establish a connection, then check that a write followed by the
    // poller's pass hands at least one transmit to the host: no silent
    // data loss between the stream surface and the transmit callback.
    let (mut client, mut server) = endpoint_pair();
    let handle = client.connect(server_addr(), "localhost").unwrap();
    client.register_pollable_connection(handle);

    let mut connected = false;
    for _ in 0..20 {
        let out = pump(&mut client);
        deliver(&mut server, client_addr(), out);
        let back = pump(&mut server);
        deliver(&mut client, server_addr(), back);
        for (_h, ev) in client.take_app_events() {
            if matches!(ev, ConnEvent::Connected) {
                connected = true;
            }
        }
        if connected {
            break;
        }
    }
    assert!(connected);

    let stream_id = client.open_stream(handle, StreamDir::Bi).unwrap();
    match client.write_stream(handle, stream_id, b"ping") {
        Ok(WriteOutcome::Written(4)) => {}
        other => panic!("short or failed write: {:?}", matches!(other, Ok(_))),
    }
    let transmits = pump(&mut client);
    assert!(!transmits.is_empty(), "pending stream data must produce a transmit");
}
