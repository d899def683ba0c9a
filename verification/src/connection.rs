//! The connection actor: owns one protocol-engine connection instance plus
//! its stream read/write surface, and drains its private inbox of
//! endpoint-originated events in strict FIFO order, bounded per pass.
use crate::boundary::{
    QuinnError,
    CODE_DOMAIN,
    CODE_NO_STREAM,
    CODE_STREAMS_EXHAUSTED,
    CODE_STREAM_ID_RANGE,
    CODE_STREAM_SIDE,
};
use crate::endpoint::{PendingEvent, IO_LOOP_BOUND};
use crate::engine::{
    conn_read_stream,
    conn_write_stream,
    connection_handle_event,
    connection_poll_app_event,
    connection_poll_endpoint_event,
    connection_poll_transmit,
    convert_app_event,
    event_is_drained,
    streams_accept,
    streams_open,
    ConnEvent,
    ReadResult,
    WriteResult,
    VARINT_MAX,
};
use crate::StreamDir;
use vstd::prelude::*;
use vstd::string::StringSliceAdditionalSpecFns;

verus! {

/// Whether a stream identifier names a stream this side may receive from:
/// every bidirectional stream, and unidirectional streams the peer opened.
/// Bit 1 of the identifier carries the direction, bit 0 the initiator.
pub open spec fn recv_side_ok(id: u64, is_client: bool) -> bool {
    id & 2 == 0 || (((id & 1) == 0) != is_client)
}

/// Whether a stream identifier names a stream this side may send on: every
/// bidirectional stream, and unidirectional streams this side opened.
pub open spec fn send_side_ok(id: u64, is_client: bool) -> bool {
    id & 2 == 0 || (((id & 1) == 0) == is_client)
}

/// Successful outcomes of a stream read. `Blocked` means no data is
/// available right now and the caller should retry after a readable event;
/// it is never paired with an empty `Data`.
pub enum ReadOutcome {
    Data(Vec<u8>),
    Finished,
    Blocked,
}

/// Successful outcomes of a stream write.
pub enum WriteOutcome {
    Written(usize),
    Blocked,
}

/// What one bounded poll pass of a connection produced: events owed to the
/// owning endpoint's inbox, application events owed to the host's callbacks,
/// and whether another pass is needed because a processing bound was hit.
pub struct ConnPollOutput {
    pub endpoint_events: Vec<PendingEvent>,
    pub app_events: Vec<ConnEvent>,
    pub needs_repoll: bool,
}

/// What the library returns for each possible engine read outcome: data
/// passes through untouched unless empty; an empty chunk and the engine's
/// blocked report both surface as `Blocked`, so a success never carries
/// zero bytes; the end of the stream surfaces as `Finished`; and every
/// engine failure surfaces as a domain error with its own reason text.
pub fn interpret_read(outcome: ReadResult) -> (r: Result<ReadOutcome, QuinnError>)
    ensures
        outcome matches ReadResult::Data(d) ==> (if d@.len() == 0 {
            r matches Ok(o) && o is Blocked
        } else {
            r matches Ok(o) && (o matches ReadOutcome::Data(d2) && d2 == d)
        }),
        r matches Ok(o) ==> (o matches ReadOutcome::Data(d2) ==> outcome matches ReadResult::Data(
            d3,
        ) && d3 == d2 && d2@.len() > 0),
        outcome is Finished ==> (r matches Ok(o) && o is Finished),
        outcome is Blocked ==> (r matches Ok(o) && o is Blocked),
        outcome matches ReadResult::Reset(_) ==> (r matches Err(e) && e.reason@
            == "stream reset by peer".spec_bytes()),
        outcome is UnknownStream ==> (r matches Err(e) && e.reason@
            == "unknown stream".spec_bytes()),
        outcome is IllegalOrderedRead ==> (r matches Err(e) && e.reason@
            == "ordered read after unordered read".spec_bytes()),
        outcome is WrongSide ==> (r matches Err(e) && e.reason@
            == "stream is not readable on this side".spec_bytes()),
        r matches Err(e) ==> e.code == CODE_DOMAIN,
{
    match outcome {
        ReadResult::Data(d) => {
            if d.len() == 0 {
                Ok(ReadOutcome::Blocked)
            } else {
                Ok(ReadOutcome::Data(d))
            }
        },
        ReadResult::Finished => Ok(ReadOutcome::Finished),
        ReadResult::Blocked => Ok(ReadOutcome::Blocked),
        ReadResult::Reset(_) => Err(QuinnError::new(CODE_DOMAIN, "stream reset by peer")),
        ReadResult::UnknownStream => Err(QuinnError::new(CODE_DOMAIN, "unknown stream")),
        ReadResult::IllegalOrderedRead => Err(
            QuinnError::new(CODE_DOMAIN, "ordered read after unordered read"),
        ),
        ReadResult::WrongSide => Err(
            QuinnError::new(CODE_DOMAIN, "stream is not readable on this side"),
        ),
    }
}

/// What the library returns for each possible engine write outcome: a
/// count of written bytes passes through untouched; the engine's blocked
/// report surfaces as the distinct `Blocked` kind, never as a failure; and
/// every engine failure surfaces as a domain error with its own reason
/// text.
pub fn interpret_write(outcome: WriteResult) -> (r: Result<WriteOutcome, QuinnError>)
    ensures
        outcome matches WriteResult::Written(n) ==> (r matches Ok(o) && o
            == WriteOutcome::Written(n)),
        r matches Ok(o) ==> (o matches WriteOutcome::Written(n) ==> outcome
            == WriteResult::Written(n)),
        outcome is Blocked ==> (r matches Ok(o) && o is Blocked),
        outcome matches WriteResult::Stopped(_) ==> (r matches Err(e) && e.reason@
            == "stream stopped by peer".spec_bytes()),
        outcome is UnknownStream ==> (r matches Err(e) && e.reason@
            == "unknown stream".spec_bytes()),
        outcome is WrongSide ==> (r matches Err(e) && e.reason@
            == "stream is not writable on this side".spec_bytes()),
        r matches Err(e) ==> e.code == CODE_DOMAIN,
{
    match outcome {
        WriteResult::Written(n) => Ok(WriteOutcome::Written(n)),
        WriteResult::Blocked => Ok(WriteOutcome::Blocked),
        WriteResult::Stopped(_) => Err(QuinnError::new(CODE_DOMAIN, "stream stopped by peer")),
        WriteResult::UnknownStream => Err(QuinnError::new(CODE_DOMAIN, "unknown stream")),
        WriteResult::WrongSide => Err(
            QuinnError::new(CODE_DOMAIN, "stream is not writable on this side"),
        ),
    }
}

/// One connection actor. The endpoint registers it under `handle`; its
/// inbox receives endpoint-originated engine events and is drained in FIFO
/// order by `poll`.
pub struct ConnectionInner {
    /// The protocol engine's connection instance; mutated only through this
    /// actor.
    pub inner: quinn_proto::Connection,
    /// The engine's numeric handle for this connection, scoped to the
    /// owning endpoint.
    pub handle: u64,
    /// Which side of the connection this actor drives; fixed at creation:
    /// dialled connections are client-side, accepted ones server-side.
    pub is_client: bool,
    /// Endpoint-originated engine events awaiting processing, oldest first.
    pub inbox: Vec<quinn_proto::ConnectionEvent>,
}

impl ConnectionInner {
    /// Spec view of the inbox: the queued events, oldest first.
    pub open spec fn inbox_view(&self) -> Seq<quinn_proto::ConnectionEvent> {
        self.inbox@
    }

    /// A fresh actor with an empty inbox.
    pub fn new(connection: quinn_proto::Connection, handle: u64, is_client: bool) -> (r:
        ConnectionInner)
        ensures
            r.inner == connection,
            r.handle == handle,
            r.is_client == is_client,
            r.inbox_view() =~= Seq::<quinn_proto::ConnectionEvent>::empty(),
    {
        ConnectionInner { inner: connection, handle, is_client, inbox: Vec::new() }
    }

    /// Queues one endpoint-originated event; insertion order is preserved.
    pub fn push_event(&mut self, event: quinn_proto::ConnectionEvent)
        ensures
            final(self).inbox_view() == old(self).inbox_view().push(event),
            final(self).handle == old(self).handle,
            final(self).is_client == old(self).is_client,
            final(self).inner == old(self).inner,
    {
        self.inbox.push(event);
    }

    /// How many events are queued.
    pub fn inbox_len(&self) -> (r: usize)
        ensures
            r == self.inbox_view().len(),
    {
        self.inbox.len()
    }

    /// One bounded poll pass: drains up to `IO_LOOP_BOUND` inbox events into
    /// the engine in FIFO order, then collects the engine's endpoint-facing
    /// events, ready transmits, and application events, each up to the same
    /// bound. Asks for a re-poll whenever a bound was hit with work
    /// possibly remaining.
    pub fn poll(&mut self) -> (r: ConnPollOutput)
        ensures
            final(self).handle == old(self).handle,
            final(self).is_client == old(self).is_client,
            final(self).inbox_view() == old(self).inbox_view().skip(
                if old(self).inbox_view().len() > IO_LOOP_BOUND {
                    IO_LOOP_BOUND as int
                } else {
                    old(self).inbox_view().len() as int
                },
            ),
            old(self).inbox_view().len() > IO_LOOP_BOUND ==> r.needs_repoll,
    {
        let ghost inbox0 = self.inbox@;
        let mut needs_repoll: bool = false;

        let mut processed: usize = 0;
        while processed < IO_LOOP_BOUND && self.inbox.len() > 0
            invariant
                processed <= IO_LOOP_BOUND,
                processed <= inbox0.len(),
                self.inbox@ == inbox0.skip(processed as int),
                self.handle == old(self).handle,
                self.is_client == old(self).is_client,
            decreases IO_LOOP_BOUND - processed,
        {
            let event = self.inbox.remove(0);
            connection_handle_event(&mut self.inner, event);
            processed = processed + 1;
        }
        if processed == IO_LOOP_BOUND && self.inbox.len() > 0 {
            needs_repoll = true;
        }
        let ghost inbox1 = self.inbox@;

        let mut endpoint_events: Vec<PendingEvent> = Vec::new();
        let mut i: usize = 0;
        let mut done: bool = false;
        while i < IO_LOOP_BOUND && !done
            invariant
                i <= IO_LOOP_BOUND,
                self.inbox@ == inbox1,
                self.handle == old(self).handle,
                self.is_client == old(self).is_client,
            decreases IO_LOOP_BOUND - i,
        {
            match connection_poll_endpoint_event(&mut self.inner) {
                Some(event) => {
                    let drained = event_is_drained(&event);
                    endpoint_events.push(PendingEvent::Proto(event, drained));
                },
                None => {
                    done = true;
                },
            }
            i = i + 1;
        }
        if !done {
            needs_repoll = true;
        }

        let mut j: usize = 0;
        let mut transmits_done: bool = false;
        while j < IO_LOOP_BOUND && !transmits_done
            invariant
                j <= IO_LOOP_BOUND,
                self.inbox@ == inbox1,
                self.handle == old(self).handle,
                self.is_client == old(self).is_client,
            decreases IO_LOOP_BOUND - j,
        {
            match connection_poll_transmit(&mut self.inner) {
                Some((destination, payload)) => {
                    endpoint_events.push(PendingEvent::Transmit(destination, payload));
                },
                None => {
                    transmits_done = true;
                },
            }
            j = j + 1;
        }
        if !transmits_done {
            needs_repoll = true;
        }

        let mut app_events: Vec<ConnEvent> = Vec::new();
        let mut k: usize = 0;
        let mut apps_done: bool = false;
        while k < IO_LOOP_BOUND && !apps_done
            invariant
                k <= IO_LOOP_BOUND,
                self.inbox@ == inbox1,
                self.handle == old(self).handle,
                self.is_client == old(self).is_client,
            decreases IO_LOOP_BOUND - k,
        {
            match connection_poll_app_event(&mut self.inner) {
                Some(event) => {
                    app_events.push(convert_app_event(event));
                },
                None => {
                    apps_done = true;
                },
            }
            k = k + 1;
        }
        if !apps_done {
            needs_repoll = true;
        }

        ConnPollOutput { endpoint_events, app_events, needs_repoll }
    }

    /// Reads up to `max` bytes from the stream, in order. A success never
    /// carries zero bytes: a stream with nothing available reports
    /// `Blocked`. The second component says whether the engine wants a
    /// transmit afterwards, in which case the owner must flag this
    /// connection pollable.
    pub fn read(&mut self, stream_id: u64, max: usize) -> (r: (
        Result<ReadOutcome, QuinnError>,
        bool,
    ))
        ensures
            final(self).handle == old(self).handle,
            final(self).is_client == old(self).is_client,
            final(self).inbox_view() == old(self).inbox_view(),
            stream_id > VARINT_MAX ==> (r.0 matches Err(e) && e.code == CODE_STREAM_ID_RANGE)
                && r.1 == false && final(self).inner == old(self).inner,
            (r.0 matches Err(e) && e.code == CODE_STREAM_ID_RANGE) ==> stream_id > VARINT_MAX,
            stream_id <= VARINT_MAX && !recv_side_ok(stream_id, old(self).is_client) ==> (
            r.0 matches Err(e) && e.code == CODE_STREAM_SIDE) && r.1 == false && final(self).inner
                == old(self).inner,
            (r.0 matches Err(e) && e.code == CODE_STREAM_SIDE) ==> !recv_side_ok(
                stream_id,
                old(self).is_client,
            ),
            r.0 matches Ok(o) ==> stream_id <= VARINT_MAX && recv_side_ok(
                stream_id,
                old(self).is_client,
            ),
            r.0 matches Err(e) ==> e.code == CODE_STREAM_ID_RANGE || e.code == CODE_STREAM_SIDE
                || e.code == CODE_DOMAIN,
            r.0 matches Ok(o) ==> (o matches ReadOutcome::Data(d) ==> 0 < d@.len() <= max),
    {
        if stream_id > VARINT_MAX {
            return (
                (Err(QuinnError::new(CODE_STREAM_ID_RANGE, "stream id out of range"))),
                false,
            );
        }
        let recv_ok: bool = stream_id & 2 == 0 || (((stream_id & 1) == 0) != self.is_client);
        if !recv_ok {
            return (
                (Err(QuinnError::new(CODE_STREAM_SIDE, "stream is not readable on this side"))),
                false,
            );
        }
        let (outcome, should_transmit) = conn_read_stream(&mut self.inner, stream_id, max);
        (interpret_read(outcome), should_transmit)
    }

    /// Writes a prefix of `data` to the stream. Exactly on success the
    /// engine has acknowledgment-carrying data pending, so the second
    /// component is true then and only then, and the owner must flag this
    /// connection pollable; a blocked or failed write asks for nothing.
    pub fn write(&mut self, stream_id: u64, data: &[u8]) -> (r: (
        Result<WriteOutcome, QuinnError>,
        bool,
    ))
        ensures
            final(self).handle == old(self).handle,
            final(self).is_client == old(self).is_client,
            final(self).inbox_view() == old(self).inbox_view(),
            stream_id > VARINT_MAX ==> (r.0 matches Err(e) && e.code == CODE_STREAM_ID_RANGE)
                && final(self).inner == old(self).inner,
            (r.0 matches Err(e) && e.code == CODE_STREAM_ID_RANGE) ==> stream_id > VARINT_MAX,
            stream_id <= VARINT_MAX && !send_side_ok(stream_id, old(self).is_client) ==> (
            r.0 matches Err(e) && e.code == CODE_STREAM_SIDE) && final(self).inner == old(
                self,
            ).inner,
            (r.0 matches Err(e) && e.code == CODE_STREAM_SIDE) ==> !send_side_ok(
                stream_id,
                old(self).is_client,
            ),
            r.0 matches Ok(o) ==> stream_id <= VARINT_MAX && send_side_ok(
                stream_id,
                old(self).is_client,
            ),
            r.0 matches Err(e) ==> e.code == CODE_STREAM_ID_RANGE || e.code == CODE_STREAM_SIDE
                || e.code == CODE_DOMAIN,
            r.0 matches Ok(o) ==> (o matches WriteOutcome::Written(n) ==> n <= data@.len()),
            r.1 <==> (r.0 matches Ok(o) && o matches WriteOutcome::Written(_)),
    {
        if stream_id > VARINT_MAX {
            return (
                (Err(QuinnError::new(CODE_STREAM_ID_RANGE, "stream id out of range"))),
                false,
            );
        }
        let send_ok: bool = stream_id & 2 == 0 || (((stream_id & 1) == 0) == self.is_client);
        if !send_ok {
            return (
                (Err(QuinnError::new(CODE_STREAM_SIDE, "stream is not writable on this side"))),
                false,
            );
        }
        let outcome = conn_write_stream(&mut self.inner, stream_id, data);
        let flagged: bool = match &outcome {
            WriteResult::Written(_) => true,
            _ => false,
        };
        (interpret_write(outcome), flagged)
    }

    /// Accepts the next incoming stream of the given direction. Failing
    /// because no stream is queued is a domain error with its own code. On
    /// success the owner must flag this connection pollable, reported by the
    /// second component.
    pub fn accept(&mut self, dir: StreamDir) -> (r: (Result<u64, QuinnError>, bool))
        ensures
            final(self).handle == old(self).handle,
            final(self).is_client == old(self).is_client,
            final(self).inbox_view() == old(self).inbox_view(),
            r.0 matches Ok(id) ==> id <= VARINT_MAX && r.1 == true,
            r.0 matches Err(e) ==> e.code == CODE_NO_STREAM && e.reason@
                == "No stream to accept!".spec_bytes() && r.1 == false,
    {
        match streams_accept(&mut self.inner, dir) {
            Some(id) => (Ok(id), true),
            None => ((Err(QuinnError::new(CODE_NO_STREAM, "No stream to accept!"))), false),
        }
    }

    /// Opens a stream of the given direction. Failing because the stream
    /// identifiers of that direction are exhausted is a domain error with
    /// its own code.
    pub fn open(&mut self, dir: StreamDir) -> (r: Result<u64, QuinnError>)
        ensures
            final(self).handle == old(self).handle,
            final(self).is_client == old(self).is_client,
            final(self).inbox_view() == old(self).inbox_view(),
            r matches Ok(id) ==> id <= VARINT_MAX,
            r matches Err(e) ==> e.code == CODE_STREAMS_EXHAUSTED && e.reason@
                == "Streams in the given direction are currently exhausted".spec_bytes(),
    {
        match streams_open(&mut self.inner, dir) {
            Some(id) => Ok(id),
            None => Err(
                QuinnError::new(
                    CODE_STREAMS_EXHAUSTED,
                    "Streams in the given direction are currently exhausted",
                ),
            ),
        }
    }
}

} // verus!
