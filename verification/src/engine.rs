//! The trusted interface to the `quinn-proto` protocol engine. The engine's
//! types are opaque here: the library carries their values through and works
//! on the plain values these wrappers hand back. Each wrapper's contract
//! states only what the engine's source shows for every outcome; the engine's
//! internal protocol state is never described.
use crate::StreamDir;
use quinn_proto::ReadError;
use quinn_proto::ReadableError;
use quinn_proto::StreamId;
use vstd::prelude::*;

verus! {

/// Greatest value a QUIC variable-length integer, and so a stream
/// identifier, can take.
pub const VARINT_MAX: u64 = 0x3fff_ffff_ffff_ffff;

#[verifier::external_type_specification]
#[verifier::external_body]
pub struct ExSocketAddr(core::net::SocketAddr);

#[verifier::external_type_specification]
#[verifier::external_body]
pub struct ExEndpoint(quinn_proto::Endpoint);

#[verifier::external_type_specification]
#[verifier::external_body]
pub struct ExConnection(quinn_proto::Connection);

#[verifier::external_type_specification]
#[verifier::external_body]
pub struct ExConnectionEvent(quinn_proto::ConnectionEvent);

#[verifier::external_type_specification]
#[verifier::external_body]
pub struct ExEndpointEvent(quinn_proto::EndpointEvent);

#[verifier::external_type_specification]
#[verifier::external_body]
pub struct ExClientConfig(quinn_proto::ClientConfig);

#[verifier::external_type_specification]
#[verifier::external_body]
pub struct ExEvent(quinn_proto::Event);

#[verifier::external_type_specification]
#[verifier::external_body]
pub struct ExStreamEvent(quinn_proto::StreamEvent);

#[verifier::external_type_specification]
#[verifier::external_body]
pub struct ExDir(quinn_proto::Dir);

/// The handles of the connections the engine's endpoint instance currently
/// holds in its connection table. This names what that table holds; the
/// endpoint wrappers below state how each call changes it, as the engine's
/// source shows: only accepting a datagram or dialling inserts a handle,
/// and only delivering a connection's drained notice removes one.
pub uninterp spec fn engine_handles_of(ep: quinn_proto::Endpoint) -> Set<u64>;

/// What the engine made of one inbound datagram: a brand-new connection, or
/// an event for an existing one. `None` from the wrapper means the datagram
/// was not actionable and is silently ignored.
pub enum DatagramOutcome {
    NewConnection(quinn_proto::Connection),
    ConnEvent(quinn_proto::ConnectionEvent),
}

/// An application-facing connection event, as plain values.
pub enum ConnEvent {
    HandshakeDataReady,
    Connected,
    Lost { reason: Vec<u8> },
    StreamOpened { dir: StreamDir },
    StreamReadable { id: u64 },
    StreamWritable { id: u64 },
    StreamFinished { id: u64 },
    StreamStopped { id: u64, error_code: u64 },
    StreamAvailable { dir: StreamDir },
    DatagramReceived,
}

/// What one engine read call produced on a stream. `WrongSide` reports an
/// identifier that is not receivable on this connection's side.
pub enum ReadResult {
    Data(Vec<u8>),
    Finished,
    Blocked,
    Reset(u64),
    UnknownStream,
    IllegalOrderedRead,
    WrongSide,
}

/// What one engine write call produced on a stream. `WrongSide` reports an
/// identifier that is not writable on this connection's side.
pub enum WriteResult {
    Written(usize),
    Blocked,
    Stopped(u64),
    UnknownStream,
    WrongSide,
}

/// Relies on `quinn_proto::Endpoint::poll_transmit` and on the public
/// `destination` and `contents` fields of `quinn_proto::Transmit`: pops the
/// next queued outbound datagram, if any, as its destination address and
/// payload bytes. The connection table is untouched.
#[verifier::external_body]
pub(crate) fn endpoint_poll_transmit(ep: &mut quinn_proto::Endpoint) -> (r: Option<
    (core::net::SocketAddr, Vec<u8>),
>)
    ensures
        engine_handles_of(*final(ep)) == engine_handles_of(*old(ep)),
{
    ep.poll_transmit().map(|t| (t.destination, t.contents))
}

/// Relies on `quinn_proto::Endpoint::handle`: feeds one inbound datagram to
/// the engine, stamped with the current time. The engine yields either
/// nothing, leaving its connection table as it was; a new connection, whose
/// fresh handle enters the table; or an event for an existing connection,
/// whose returned handle the table already holds.
#[verifier::external_body]
pub(crate) fn endpoint_handle_datagram(
    ep: &mut quinn_proto::Endpoint,
    remote: core::net::SocketAddr,
    data: &[u8],
) -> (r: Option<(u64, DatagramOutcome)>)
    ensures
        r is None ==> engine_handles_of(*final(ep)) == engine_handles_of(*old(ep)),
        r matches Some((h, o)) ==> (o matches DatagramOutcome::NewConnection(_) ==> engine_handles_of(*final(ep)) == engine_handles_of(*old(ep)).insert(h)),
        r matches Some((h, o)) ==> (o matches DatagramOutcome::ConnEvent(_) ==> engine_handles_of(*final(ep)) == engine_handles_of(*old(ep)) && engine_handles_of(*old(ep)).contains(h)),
{
    let now = std::time::Instant::now();
    match ep.handle(now, remote, None, None, bytes::BytesMut::from(data)) {
        None => None,
        Some((ch, quinn_proto::DatagramEvent::NewConnection(c))) => Some((ch.0 as u64, DatagramOutcome::NewConnection(c))),
        Some((ch, quinn_proto::DatagramEvent::ConnectionEvent(e))) => Some((ch.0 as u64, DatagramOutcome::ConnEvent(e))),
    }
}

/// Relies on `quinn_proto::Endpoint::handle_event` and on
/// `quinn_proto::EndpointEvent::is_drained`: hands the engine one
/// connection-originated event and takes back its reply for that
/// connection, if any, together with whether the event was the connection's
/// drained notice. The engine indexes its connection table by the handle
/// and panics on one it does not hold, so the requires clause admits only
/// handles in the table; a drained notice removes exactly the passed
/// handle from the table, every other event leaves it as it was.
#[verifier::external_body]
pub(crate) fn endpoint_handle_event(
    ep: &mut quinn_proto::Endpoint,
    ch: u64,
    event: quinn_proto::EndpointEvent,
) -> (r: (Option<quinn_proto::ConnectionEvent>, bool))
    requires
        engine_handles_of(*old(ep)).contains(ch),
    ensures
        r.1 ==> engine_handles_of(*final(ep)) == engine_handles_of(*old(ep)).remove(ch),
        !r.1 ==> engine_handles_of(*final(ep)) == engine_handles_of(*old(ep)),
{
    let was_drained = event.is_drained();
    (ep.handle_event(quinn_proto::ConnectionHandle(ch as usize), event), was_drained)
}

/// Relies on `quinn_proto::Endpoint::connect`: starts an outbound
/// connection; on success the fresh handle enters the engine's connection
/// table, on failure the table is untouched and the engine's error is
/// rendered to bytes.
#[verifier::external_body]
pub(crate) fn endpoint_connect(
    ep: &mut quinn_proto::Endpoint,
    config: quinn_proto::ClientConfig,
    remote: core::net::SocketAddr,
    server_name: &str,
) -> (r: Result<(u64, quinn_proto::Connection), Vec<u8>>)
    ensures
        r matches Ok((h, c)) ==> engine_handles_of(*final(ep)) == engine_handles_of(*old(ep)).insert(h),
        r is Err ==> engine_handles_of(*final(ep)) == engine_handles_of(*old(ep)),
{
    match ep.connect(config, remote, server_name) {
        Ok((ch, conn)) => Ok((ch.0 as u64, conn)),
        Err(e) => Err(format!("{}", e).into_bytes()),
    }
}

/// Relies on `quinn_proto::ClientConfig`'s derived `Clone`.
#[verifier::external_body]
pub(crate) fn clone_client_config(config: &quinn_proto::ClientConfig) -> quinn_proto::ClientConfig {
    config.clone()
}

/// Relies on `quinn_proto::EndpointEvent::is_drained`: whether this is the
/// last event its connection will ever emit.
#[verifier::external_body]
pub(crate) fn event_is_drained(event: &quinn_proto::EndpointEvent) -> bool {
    event.is_drained()
}

/// Relies on `quinn_proto::Connection::handle_event`: feeds one
/// endpoint-originated event into the connection's engine instance.
#[verifier::external_body]
pub(crate) fn connection_handle_event(
    conn: &mut quinn_proto::Connection,
    event: quinn_proto::ConnectionEvent,
) {
    conn.handle_event(event)
}

/// Relies on `quinn_proto::Connection::poll_endpoint_events`: pops the next
/// event this connection has for its endpoint, if any.
#[verifier::external_body]
pub(crate) fn connection_poll_endpoint_event(conn: &mut quinn_proto::Connection) -> Option<
    quinn_proto::EndpointEvent,
> {
    conn.poll_endpoint_events()
}

/// Relies on `quinn_proto::Connection::poll_transmit`, stamped with the
/// current time, and on the public `destination` and `contents` fields of
/// `quinn_proto::Transmit`: the next outbound datagram this connection
/// wants sent, as its destination address and payload bytes.
#[verifier::external_body]
pub(crate) fn connection_poll_transmit(conn: &mut quinn_proto::Connection) -> Option<
    (core::net::SocketAddr, Vec<u8>),
> {
    conn.poll_transmit(std::time::Instant::now(), 1).map(|t| (t.destination, t.contents))
}

/// Relies on `quinn_proto::Connection::poll`: the next application-facing
/// event, if any.
#[verifier::external_body]
pub(crate) fn connection_poll_app_event(conn: &mut quinn_proto::Connection) -> Option<
    quinn_proto::Event,
> {
    conn.poll()
}

/// Relies on the public variants of `quinn_proto::Event`: renders one
/// application-facing event to plain values, one variant each.
#[verifier::external_body]
pub(crate) fn convert_app_event(event: quinn_proto::Event) -> ConnEvent {
    match event {
        quinn_proto::Event::HandshakeDataReady => ConnEvent::HandshakeDataReady,
        quinn_proto::Event::Connected => ConnEvent::Connected,
        quinn_proto::Event::ConnectionLost { reason } => ConnEvent::Lost { reason: format!("{}", reason).into_bytes() },
        quinn_proto::Event::Stream(se) => convert_stream_event(se),
        quinn_proto::Event::DatagramReceived => ConnEvent::DatagramReceived,
    }
}

/// Relies on the public variants of `quinn_proto::StreamEvent` and on the
/// public `u64` inside `quinn_proto::StreamId`: renders one stream event to
/// plain values, one variant each.
#[verifier::external_body]
pub(crate) fn convert_stream_event(event: quinn_proto::StreamEvent) -> ConnEvent {
    match event {
        quinn_proto::StreamEvent::Opened { dir } => ConnEvent::StreamOpened { dir: lib_dir(dir) },
        quinn_proto::StreamEvent::Readable { id } => ConnEvent::StreamReadable { id: id.0 },
        quinn_proto::StreamEvent::Writable { id } => ConnEvent::StreamWritable { id: id.0 },
        quinn_proto::StreamEvent::Finished { id } => ConnEvent::StreamFinished { id: id.0 },
        quinn_proto::StreamEvent::Stopped { id, error_code } => ConnEvent::StreamStopped { id: id.0, error_code: error_code.into_inner() },
        quinn_proto::StreamEvent::Available { dir } => ConnEvent::StreamAvailable { dir: lib_dir(dir) },
    }
}

/// Relies on the two variants of `quinn_proto::Dir`, one arm each.
#[verifier::external_body]
pub(crate) fn lib_dir(dir: quinn_proto::Dir) -> StreamDir {
    match dir {
        quinn_proto::Dir::Bi => StreamDir::Bi,
        quinn_proto::Dir::Uni => StreamDir::Uni,
    }
}

/// Relies on `quinn_proto::Streams::accept`, reached through
/// `Connection::streams`: takes the next incoming stream of the direction,
/// or `None` when none is queued. Stream identifiers fit in a
/// variable-length integer.
#[verifier::external_body]
pub(crate) fn streams_accept(conn: &mut quinn_proto::Connection, dir: StreamDir) -> (r: Option<
    u64,
>)
    ensures
        r matches Some(id) ==> id <= VARINT_MAX,
{
    let d = match dir {
        StreamDir::Bi => quinn_proto::Dir::Bi,
        StreamDir::Uni => quinn_proto::Dir::Uni,
    };
    conn.streams().accept(d).map(|id| id.0)
}

/// Relies on `quinn_proto::Streams::open`, reached through
/// `Connection::streams`: opens a stream of the direction, or `None` when
/// that direction's identifiers are exhausted. Stream identifiers fit in a
/// variable-length integer.
#[verifier::external_body]
pub(crate) fn streams_open(conn: &mut quinn_proto::Connection, dir: StreamDir) -> (r: Option<u64>)
    ensures
        r matches Some(id) ==> id <= VARINT_MAX,
{
    let d = match dir {
        StreamDir::Bi => quinn_proto::Dir::Bi,
        StreamDir::Uni => quinn_proto::Dir::Uni,
    };
    conn.streams().open(d).map(|id| id.0)
}

/// Relies on `quinn_proto::RecvStream::read` with ordered reads, on
/// `Chunks::next`, on `Chunks::finalize`, and on `Connection::side` and the
/// direction and initiator of `StreamId`, which guard the call:
/// `Connection::recv_stream` insists that the stream is receivable on this
/// side, so an identifier that is not comes back as `WrongSide` instead.
/// The second component reports whether the engine wants a transmit
/// afterwards. A returned chunk is never longer than `max`.
#[verifier::external_body]
pub(crate) fn conn_read_stream(conn: &mut quinn_proto::Connection, id: u64, max: usize) -> (r: (
    ReadResult,
    bool,
))
    requires
        id <= VARINT_MAX,
    ensures
        r.0 matches ReadResult::Data(d) ==> d@.len() <= max,
{
    let sid = StreamId(id);
    if sid.dir() != quinn_proto::Dir::Bi && sid.initiator() == conn.side() { return (ReadResult::WrongSide, false); }
    let mut stream = conn.recv_stream(sid);
    let mut chunks = match stream.read(true) {
        Ok(c) => c,
        Err(ReadableError::UnknownStream) => return (ReadResult::UnknownStream, false),
        Err(ReadableError::IllegalOrderedRead) => return (ReadResult::IllegalOrderedRead, false),
    };
    let out: ReadResult = match chunks.next(max) {
        Ok(Some(chunk)) => ReadResult::Data(chunk.bytes.to_vec()),
        Ok(None) => ReadResult::Finished,
        Err(ReadError::Blocked) => ReadResult::Blocked,
        Err(ReadError::Reset(code)) => ReadResult::Reset(code.into_inner()),
    };
    (out, chunks.finalize().should_transmit())
}

/// Relies on `quinn_proto::SendStream::write`, and on `Connection::side`
/// and the direction and initiator of `StreamId`, which guard the call:
/// `Connection::send_stream` insists that the stream is writable on this
/// side, so an identifier that is not comes back as `WrongSide` instead.
/// Reports how many bytes of `data` the engine took, never more than the
/// data's length.
#[verifier::external_body]
pub(crate) fn conn_write_stream(conn: &mut quinn_proto::Connection, id: u64, data: &[u8]) -> (r:
    WriteResult)
    requires
        id <= VARINT_MAX,
    ensures
        r matches WriteResult::Written(n) ==> n <= data@.len(),
{
    let sid = StreamId(id);
    if sid.dir() != quinn_proto::Dir::Bi && sid.initiator() != conn.side() { return WriteResult::WrongSide; }
    let mut stream = conn.send_stream(sid);
    match stream.write(data) {
        Ok(n) => WriteResult::Written(n),
        Err(quinn_proto::WriteError::Blocked) => WriteResult::Blocked,
        Err(quinn_proto::WriteError::Stopped(code)) => WriteResult::Stopped(code.into_inner()),
        Err(quinn_proto::WriteError::UnknownStream) => WriteResult::UnknownStream,
    }
}

} // verus!
