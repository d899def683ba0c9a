//! The endpoint actor: owns the protocol engine's endpoint instance, the
//! registry of known connections, and the transmit-emission path; routes
//! datagrams to new or existing connections; and drains its inbox of
//! connection-originated events in bounded FIFO batches.
use crate::boundary::{
    QuinnError,
    CODE_DOMAIN,
    CODE_NO_DEFAULT_CONFIG,
    CODE_NO_STREAM,
    CODE_STREAMS_EXHAUSTED,
    CODE_STREAM_ID_RANGE,
    CODE_STREAM_SIDE,
    CODE_UNKNOWN_CONNECTION,
};
use crate::connection::{ConnPollOutput, ConnectionInner, ReadOutcome, WriteOutcome};
use crate::engine::{
    clone_client_config,
    endpoint_connect,
    endpoint_handle_datagram,
    endpoint_handle_event,
    endpoint_poll_transmit,
    engine_handles_of,
    event_is_drained,
    ConnEvent,
    DatagramOutcome,
    VARINT_MAX,
};
use crate::StreamDir;
use std::collections::HashMap;
use vstd::prelude::*;
use vstd::string::StringSliceAdditionalSpecFns;

verus! {

broadcast use vstd::std_specs::hash::group_hash_axioms;

/// Maximum number of queued events processed in one pass before control
/// returns, so that no single endpoint or connection can starve others
/// sharing a processing budget.
pub const IO_LOOP_BOUND: usize = 160;

/// An event queued on the endpoint's inbox by one of its connections:
/// either a protocol event for the engine, carrying the flag that says it is
/// the connection's last, or an outbound transmit that is ready, as its
/// destination address and payload bytes.
pub enum PendingEvent {
    Proto(quinn_proto::EndpointEvent, bool),
    Transmit(core::net::SocketAddr, Vec<u8>),
}

/// Whether an inbox entry is a ready transmit.
pub open spec fn is_transmit_event(e: PendingEvent) -> bool {
    e matches PendingEvent::Transmit(_, _)
}

/// Whether an inbox entry announces that its connection has drained.
pub open spec fn is_drained_event(e: PendingEvent) -> bool {
    e matches PendingEvent::Proto(_, true)
}

/// No element of the sequence occurs twice.
pub open spec fn distinct_seq(s: Seq<u64>) -> bool {
    forall|i: int, j: int| 0 <= i < j < s.len() ==> s[i] != s[j]
}

/// Pushing onto a sequence adds exactly the pushed element to what it
/// contains.
pub proof fn lemma_push_contains<A>(s: Seq<A>, x: A)
    ensures
        forall|y: A| #[trigger] s.push(x).contains(y) <==> (s.contains(y) || y == x),
{
    assert forall|y: A| #[trigger] s.push(x).contains(y) implies (s.contains(y) || y == x) by {
        let j = choose|j: int| 0 <= j < s.push(x).len() && #[trigger] s.push(x)[j] == y;
        if j < s.len() {
            assert(s[j] == y);
        }
    }
    assert forall|y: A| s.contains(y) || y == x implies #[trigger] s.push(x).contains(y) by {
        if s.contains(y) {
            let j = choose|j: int| 0 <= j < s.len() && #[trigger] s[j] == y;
            assert(s.push(x)[j] == y);
        } else {
            assert(s.push(x)[s.len() as int] == y);
        }
    }
}

/// The destination address and payload bytes of a ready-transmit inbox
/// entry.
pub open spec fn transmit_payload(e: PendingEvent) -> (core::net::SocketAddr, Vec<u8>)
    recommends
        is_transmit_event(e),
{
    (e->Transmit_0, e->Transmit_1)
}

/// The transmits carried by a stretch of inbox entries, in order, each as
/// its destination address and payload bytes.
pub open spec fn transmits_of(s: Seq<(u64, PendingEvent)>) -> Seq<(core::net::SocketAddr, Vec<u8>)>
    decreases s.len(),
{
    if s.len() == 0 {
        Seq::empty()
    } else if is_transmit_event(s.last().1) {
        transmits_of(s.drop_last()).push(transmit_payload(s.last().1))
    } else {
        transmits_of(s.drop_last())
    }
}

/// No ready transmit is silently lost: every transmit carried by a stretch
/// of inbox entries appears among the transmits extracted from that
/// stretch. `handle_connection_events` appends exactly the extracted
/// transmits of the prefix it processed to the transmit queue, so every
/// ready transmit a connection queued reaches the host's transmit callback.
pub proof fn lemma_no_transmit_lost(s: Seq<(u64, PendingEvent)>, i: int)
    requires
        0 <= i < s.len(),
        is_transmit_event(s[i].1),
    ensures
        transmits_of(s).contains(transmit_payload(s[i].1)),
    decreases s.len(),
{
    if i == s.len() - 1 {
        assert(s.last() == s[i]);
        assert(transmits_of(s).last() == transmit_payload(s[i].1));
        assert(transmits_of(s)[transmits_of(s).len() - 1] == transmit_payload(s[i].1));
    } else {
        lemma_no_transmit_lost(s.drop_last(), i);
        assert(s.drop_last()[i] == s[i]);
        if is_transmit_event(s.last().1) {
            lemma_push_contains(transmits_of(s.drop_last()), transmit_payload(s.last().1));
        }
    }
}

/// Whether inbox entry `p` announces that connection `h` has drained.
pub open spec fn drained_for(p: (u64, PendingEvent), h: u64) -> bool {
    p.0 == h && is_drained_event(p.1)
}

/// Inbox entries for the events one connection handed back: each tagged
/// with that connection's handle, in the order the connection produced them.
pub open spec fn tag_events(handle: u64, s: Seq<PendingEvent>) -> Seq<(u64, PendingEvent)> {
    s.map_values(|e: PendingEvent| (handle, e))
}

/// Host-facing entries for the application events one connection produced,
/// each tagged with that connection's handle, in order.
pub open spec fn tag_app_events(handle: u64, s: Seq<ConnEvent>) -> Seq<(u64, ConnEvent)> {
    s.map_values(|e: ConnEvent| (handle, e))
}

/// What became of one inbound datagram: not actionable, accepted as a new
/// connection, or routed to an existing one.
#[derive(Clone, Copy, PartialEq, Eq, Structural, Debug)]
pub enum DatagramDisposition {
    Ignored,
    Accepted(u64),
    Routed(u64),
}

/// The endpoint actor.
pub struct EndpointInner {
    /// The protocol engine's endpoint instance; mutated only by this actor.
    pub inner: quinn_proto::Endpoint,
    connections: HashMap<u64, ConnectionInner>,
    connection_refs: HashMap<u64, bool>,
    endpoint_events: Vec<(u64, PendingEvent)>,
    transmits: Vec<(core::net::SocketAddr, Vec<u8>)>,
    app_events: Vec<(u64, ConnEvent)>,
    new_connections: Vec<u64>,
    pollable_queue: Vec<u64>,
    engine_handles: HashMap<u64, bool>,
    default_client_config: Option<quinn_proto::ClientConfig>,
    /// This endpoint's numeric identity.
    pub id: u8,
}

impl EndpointInner {
    /// The connection map: every registered connection actor, by handle.
    pub closed spec fn connections_map(&self) -> Map<u64, ConnectionInner> {
        self.connections@
    }

    /// The connection-reference map, used only for out-of-band polling
    /// triggers: for each registered handle, whether it currently needs
    /// endpoint attention.
    pub closed spec fn refs_map(&self) -> Map<u64, bool> {
        self.connection_refs@
    }

    /// The endpoint's inbox of connection-originated events, oldest first.
    pub closed spec fn inbox(&self) -> Seq<(u64, PendingEvent)> {
        self.endpoint_events@
    }

    /// Outbound transmits drained from the engine, awaiting the host's
    /// transmit callback, oldest first, each as its destination address and
    /// payload bytes.
    pub closed spec fn transmit_queue(&self) -> Seq<(core::net::SocketAddr, Vec<u8>)> {
        self.transmits@
    }

    /// Application events awaiting the host's callbacks, oldest first.
    pub closed spec fn app_event_queue(&self) -> Seq<(u64, ConnEvent)> {
        self.app_events@
    }

    /// Handles of freshly accepted connections awaiting the host's
    /// new-connection callback.
    pub closed spec fn new_conn_queue(&self) -> Seq<u64> {
        self.new_connections@
    }

    /// The handles currently flagged as needing endpoint attention, in the
    /// order they were first flagged.
    pub closed spec fn pollable(&self) -> Seq<u64> {
        self.pollable_queue@
    }

    /// The default outbound configuration, if one was supplied.
    pub closed spec fn default_config(&self) -> Option<quinn_proto::ClientConfig> {
        self.default_client_config
    }

    /// Spec view of the engine's endpoint instance.
    pub closed spec fn engine(&self) -> quinn_proto::Endpoint {
        self.inner
    }

    /// The verified mirror of the engine's connection table: the handles
    /// this actor has seen the engine return and has not yet drained.
    pub closed spec fn engine_registry(&self) -> Set<u64> {
        self.engine_handles@.dom()
    }

    /// Spec view of the endpoint's numeric identity.
    pub closed spec fn spec_id(&self) -> u8 {
        self.id
    }

    /// The endpoint's invariant. The connection map and the
    /// connection-reference map always agree on their key sets; each actor
    /// is registered under its own handle; a handle is flagged in the
    /// reference map exactly when it sits in the pollable queue; the queue
    /// holds registered handles, each at most once; and the engine-handle
    /// registry holds only handles the engine's connection table holds, so
    /// the engine is never consulted for a handle it would panic on.
    pub open spec fn wf(&self) -> bool {
        &&& self.engine_registry().subset_of(engine_handles_of(self.engine()))
        &&& self.connections_map().dom() =~= self.refs_map().dom()
        &&& forall|h: u64|
            self.connections_map().dom().contains(h) ==> #[trigger] self.connections_map()[h].handle
                == h
        &&& forall|h: u64|
            self.refs_map().dom().contains(h) ==> (#[trigger] self.refs_map()[h]
                == self.pollable().contains(h))
        &&& forall|i: int|
            0 <= i < self.pollable().len() ==> self.refs_map().dom().contains(
                #[trigger] self.pollable()[i],
            )
        &&& distinct_seq(self.pollable())
    }

    /// The connection map and the connection-reference map agree in
    /// key-set in every well-formed state — in particular after every
    /// `poll` pass, which preserves well-formedness, however many datagrams
    /// were handled before it.
    pub proof fn lemma_maps_agree_in_key_set(&self)
        requires
            self.wf(),
        ensures
            self.connections_map().dom() =~= self.refs_map().dom(),
    {
    }

    /// A fresh endpoint actor around an engine instance: no connections, an
    /// empty inbox, nothing queued for the host.
    pub fn new(endpoint: quinn_proto::Endpoint, id: u8) -> (r: EndpointInner)
        ensures
            r.wf(),
            r.engine() == endpoint,
            r.spec_id() == id,
            r.connections_map() =~= Map::<u64, ConnectionInner>::empty(),
            r.refs_map() =~= Map::<u64, bool>::empty(),
            r.inbox() =~= Seq::<(u64, PendingEvent)>::empty(),
            r.transmit_queue() =~= Seq::<(core::net::SocketAddr, Vec<u8>)>::empty(),
            r.app_event_queue() =~= Seq::<(u64, ConnEvent)>::empty(),
            r.new_conn_queue() =~= Seq::<u64>::empty(),
            r.pollable() =~= Seq::<u64>::empty(),
            r.default_config() is None,
    {
        EndpointInner {
            inner: endpoint,
            connections: HashMap::new(),
            connection_refs: HashMap::new(),
            endpoint_events: Vec::new(),
            transmits: Vec::new(),
            app_events: Vec::new(),
            new_connections: Vec::new(),
            pollable_queue: Vec::new(),
            engine_handles: HashMap::new(),
            default_client_config: None,
            id,
        }
    }

    /// Supplies the default outbound configuration used by `connect`.
    pub fn set_default_client_config(&mut self, config: quinn_proto::ClientConfig)
        ensures
            final(self).wf() == old(self).wf(),
            final(self).default_config() == Some(config),
            final(self).connections_map() == old(self).connections_map(),
            final(self).refs_map() == old(self).refs_map(),
            final(self).inbox() == old(self).inbox(),
            final(self).transmit_queue() == old(self).transmit_queue(),
            final(self).app_event_queue() == old(self).app_event_queue(),
            final(self).new_conn_queue() == old(self).new_conn_queue(),
            final(self).pollable() == old(self).pollable(),
            final(self).spec_id() == old(self).spec_id(),
    {
        self.default_client_config = Some(config);
    }

    /// How many connections each of the two maps knows: equal in every
    /// well-formed state.
    pub fn registry_sizes(&self) -> (r: (usize, usize))
        ensures
            r.0 == self.connections_map().dom().len(),
            r.1 == self.refs_map().dom().len(),
    {
        (self.connections.len(), self.connection_refs.len())
    }

    /// Whether a connection is registered under this handle.
    pub fn knows_connection(&self, handle: u64) -> (r: bool)
        ensures
            r == self.connections_map().dom().contains(handle),
    {
        self.connections.contains_key(&handle)
    }

    /// Drops `handle` from the pollable queue, keeping every other entry.
    fn remove_from_queue(&mut self, handle: u64)
        requires
            distinct_seq(old(self).pollable()),
        ensures
            forall|x: u64|
                #[trigger] final(self).pollable().contains(x) <==> (old(self).pollable().contains(x) && x != handle),
            distinct_seq(final(self).pollable()),
            final(self).connections_map() == old(self).connections_map(),
            final(self).refs_map() == old(self).refs_map(),
            final(self).inbox() == old(self).inbox(),
            final(self).transmit_queue() == old(self).transmit_queue(),
            final(self).app_event_queue() == old(self).app_event_queue(),
            final(self).new_conn_queue() == old(self).new_conn_queue(),
            final(self).default_config() == old(self).default_config(),
            final(self).spec_id() == old(self).spec_id(),
            final(self).engine() == old(self).engine(),
            final(self).engine_registry() == old(self).engine_registry(),
    {
        let ghost q0 = self.pollable_queue@;
        let mut kept: Vec<u64> = Vec::new();
        let mut i: usize = 0;
        while i < self.pollable_queue.len()
            invariant
                i <= q0.len(),
                self.pollable_queue@ == q0,
                distinct_seq(q0),
                distinct_seq(kept@),
                forall|x: u64|
                    #[trigger] kept@.contains(x) <==> (q0.take(i as int).contains(x) && x
                        != handle),
            decreases q0.len() - i,
        {
            let ghost kept0 = kept@;
            let x = self.pollable_queue[i];
            proof {
                assert(q0.take(i as int).push(x) =~= q0.take(i + 1 as int));
                lemma_push_contains(q0.take(i as int), x);
            }
            if x != handle {
                proof {
                    if kept0.contains(x) {
                        let j = choose|j: int| 0 <= j < i && #[trigger] q0[j] == x;
                        assert(q0[j] == q0[i as int]);
                        assert(false);
                    }
                    lemma_push_contains(kept0, x);
                }
                kept.push(x);
                assert(distinct_seq(kept@)) by {
                    assert(forall|j: int| 0 <= j < kept0.len() ==> #[trigger] kept@[j] == kept0[j]);
                    assert(forall|j: int|
                        0 <= j < kept0.len() ==> kept0.contains(#[trigger] kept0[j]));
                    assert(kept@[kept0.len() as int] == x);
                }
            }
            i = i + 1;
        }
        assert(q0.take(q0.len() as int) =~= q0);
        self.pollable_queue = kept;
    }

    /// Registers a new connection actor under `handle` in the connection
    /// map and, unflagged, in the connection-reference map, keeping the two
    /// maps' key sets equal. Dialled connections pass `is_client`; accepted
    /// ones do not.
    pub fn add_connection(&mut self, handle: u64, connection: quinn_proto::Connection, is_client: bool)
        requires
            old(self).wf(),
        ensures
            final(self).wf(),
            final(self).connections_map().dom() =~= old(self).connections_map().dom().insert(
                handle,
            ),
            final(self).connections_map()[handle].handle == handle,
            final(self).connections_map()[handle].is_client == is_client,
            final(self).connections_map()[handle].inner == connection,
            final(self).connections_map()[handle].inbox_view().len() == 0,
            forall|h: u64|
                h != handle && old(self).connections_map().dom().contains(h) ==> final(self).connections_map()[h] == #[trigger] old(self).connections_map()[h],
            forall|x: u64|
                #[trigger] final(self).pollable().contains(x) <==> (old(self).pollable().contains(x) && x != handle),
            final(self).inbox() == old(self).inbox(),
            final(self).transmit_queue() == old(self).transmit_queue(),
            final(self).app_event_queue() == old(self).app_event_queue(),
            final(self).new_conn_queue() == old(self).new_conn_queue(),
            final(self).default_config() == old(self).default_config(),
            final(self).spec_id() == old(self).spec_id(),
            final(self).engine() == old(self).engine(),
    {
        self.remove_from_queue(handle);
        let actor = ConnectionInner::new(connection, handle, is_client);
        self.connections.insert(handle, actor);
        self.connection_refs.insert(handle, false);
        proof {
            assert(self.connections@.dom() =~= self.connection_refs@.dom());
            assert forall|i: int| 0 <= i < self.pollable_queue@.len() implies self.connection_refs@
                .dom().contains(#[trigger] self.pollable_queue@[i]) by {
                assert(self.pollable_queue@.contains(self.pollable_queue@[i]));
                assert(old(self).pollable().contains(self.pollable_queue@[i]));
            }
            assert forall|h: u64| self.connection_refs@.dom().contains(h) implies (
            #[trigger] self.connection_refs@[h] == self.pollable_queue@.contains(h)) by {
                if h == handle {
                    assert(!self.pollable_queue@.contains(handle));
                } else {
                    assert(old(self).refs_map()[h] == old(self).pollable().contains(h));
                }
            }
        }
    }

    /// Flags a registered connection as needing endpoint attention and, if
    /// it was not flagged already, appends it to the pollable queue, so that
    /// a flagged connection sits in the queue exactly once however many
    /// times it signals. Unknown handles are ignored; the operation never
    /// fails.
    pub fn register_pollable_connection(&mut self, handle: u64)
        requires
            old(self).wf(),
        ensures
            final(self).wf(),
            final(self).connections_map() == old(self).connections_map(),
            final(self).refs_map().dom() =~= old(self).refs_map().dom(),
            old(self).refs_map().dom().contains(handle) ==> final(self).refs_map()[handle] == true
                && final(self).pollable().contains(handle),
            !old(self).refs_map().dom().contains(handle) ==> final(self).refs_map() == old(self).refs_map() && final(self).pollable() == old(self).pollable(),
            old(self).refs_map().dom().contains(handle) && old(self).refs_map()[handle] ==> final(self).refs_map() == old(self).refs_map() && final(self).pollable() == old(self).pollable(),
            forall|x: u64|
                old(self).pollable().contains(x) ==> #[trigger] final(self).pollable().contains(x),
            forall|x: u64|
                #[trigger] final(self).pollable().contains(x) ==> (old(self).pollable().contains(x) || x == handle),
            final(self).inbox() == old(self).inbox(),
            final(self).transmit_queue() == old(self).transmit_queue(),
            final(self).app_event_queue() == old(self).app_event_queue(),
            final(self).new_conn_queue() == old(self).new_conn_queue(),
            final(self).default_config() == old(self).default_config(),
            final(self).spec_id() == old(self).spec_id(),
            final(self).engine() == old(self).engine(),
    {
        let flag: Option<bool> = match self.connection_refs.get(&handle) {
            Some(f) => Some(*f),
            None => None,
        };
        match flag {
            Some(false) => {
                self.connection_refs.insert(handle, true);
                let ghost q0 = self.pollable_queue@;
                self.pollable_queue.push(handle);
                assert forall|x: u64| #[trigger] self.pollable_queue@.contains(x) implies (
                q0.contains(x) || x == handle) by {
                    let j = choose|j: int|
                        0 <= j < self.pollable_queue@.len() && #[trigger] self.pollable_queue@[j]
                            == x;
                    if j < q0.len() {
                        assert(q0[j] == x);
                    }
                }
                assert forall|x: u64| q0.contains(x) implies #[trigger] self.pollable_queue@
                    .contains(x) by {
                    let j = choose|j: int| 0 <= j < q0.len() && #[trigger] q0[j] == x;
                    assert(self.pollable_queue@[j] == x);
                }
                assert(self.pollable_queue@.last() == handle);
            },
            _ => {},
        }
    }

    /// Purges a connection from the connection map, the connection-reference
    /// map and the pollable queue, keeping the maps' key sets equal. Unknown
    /// handles are ignored; the operation never fails. The caller-held
    /// handle stays valid: later calls with it fail with a domain error.
    pub fn remove_connection(&mut self, handle: u64)
        requires
            old(self).wf(),
        ensures
            final(self).wf(),
            final(self).connections_map().dom() =~= old(self).connections_map().dom().remove(
                handle,
            ),
            forall|h: u64|
                h != handle && old(self).connections_map().dom().contains(h) ==> final(self).connections_map()[h] == #[trigger] old(self).connections_map()[h],
            forall|x: u64|
                #[trigger] final(self).pollable().contains(x) <==> (old(self).pollable().contains(x) && x != handle),
            final(self).inbox() == old(self).inbox(),
            final(self).transmit_queue() == old(self).transmit_queue(),
            final(self).app_event_queue() == old(self).app_event_queue(),
            final(self).new_conn_queue() == old(self).new_conn_queue(),
            final(self).default_config() == old(self).default_config(),
            final(self).spec_id() == old(self).spec_id(),
            final(self).engine() == old(self).engine(),
    {
        self.connections.remove(&handle);
        self.connection_refs.remove(&handle);
        self.remove_from_queue(handle);
        proof {
            assert(self.connections@.dom() =~= self.connection_refs@.dom());
            assert forall|i: int| 0 <= i < self.pollable_queue@.len() implies self.connection_refs@
                .dom().contains(#[trigger] self.pollable_queue@[i]) by {
                assert(self.pollable_queue@.contains(self.pollable_queue@[i]));
                assert(old(self).pollable().contains(self.pollable_queue@[i]));
            }
            assert forall|h: u64| self.connection_refs@.dom().contains(h) implies (
            #[trigger] self.connection_refs@[h] == self.pollable_queue@.contains(h)) by {
                assert(old(self).refs_map()[h] == old(self).pollable().contains(h));
            }
        }
    }

    /// Forwards one engine event to the inbox of the connection it is for,
    /// preserving insertion order. A handle with no registered connection is
    /// a domain error and leaves the endpoint untouched.
    pub fn forward_event_to_connection(
        &mut self,
        handle: u64,
        event: quinn_proto::ConnectionEvent,
    ) -> (r: Result<(), QuinnError>)
        requires
            old(self).wf(),
        ensures
            final(self).wf(),
            final(self).connections_map().dom() =~= old(self).connections_map().dom(),
            r is Ok <==> old(self).connections_map().dom().contains(handle),
            r matches Err(e) ==> e.code == CODE_UNKNOWN_CONNECTION && final(self).connections_map() == old(self).connections_map(),
            old(self).connections_map().dom().contains(handle) ==> {
                &&& final(self).connections_map()[handle].inbox_view() == old(self).connections_map()[handle].inbox_view().push(event)
                &&& final(self).connections_map()[handle].inner == old(self).connections_map()[handle].inner
                &&& final(self).connections_map()[handle].handle == handle
                &&& final(self).connections_map()[handle].is_client == old(self).connections_map()[handle].is_client
            },
            forall|h: u64|
                h != handle && old(self).connections_map().dom().contains(h) ==> final(self).connections_map()[h] == #[trigger] old(self).connections_map()[h],
            final(self).refs_map() == old(self).refs_map(),
            final(self).pollable() == old(self).pollable(),
            final(self).inbox() == old(self).inbox(),
            final(self).transmit_queue() == old(self).transmit_queue(),
            final(self).app_event_queue() == old(self).app_event_queue(),
            final(self).new_conn_queue() == old(self).new_conn_queue(),
            final(self).default_config() == old(self).default_config(),
            final(self).spec_id() == old(self).spec_id(),
            final(self).engine() == old(self).engine(),
    {
        match self.connections.remove(&handle) {
            Some(mut actor) => {
                actor.push_event(event);
                self.connections.insert(handle, actor);
                assert(self.connections@.dom() =~= old(self).connections_map().dom());
                Ok(())
            },
            None => Err(QuinnError::new(CODE_UNKNOWN_CONNECTION, "unknown connection")),
        }
    }

    /// Hands every queued outbound transmit to the caller as destination
    /// address and payload bytes, in order, leaving the queue empty. The
    /// host invokes its transmit callback once per entry.
    pub fn take_transmits(&mut self) -> (r: Vec<(core::net::SocketAddr, Vec<u8>)>)
        ensures
            r@ == old(self).transmit_queue(),
            final(self).transmit_queue().len() == 0,
            final(self).connections_map() == old(self).connections_map(),
            final(self).refs_map() == old(self).refs_map(),
            final(self).pollable() == old(self).pollable(),
            final(self).inbox() == old(self).inbox(),
            final(self).app_event_queue() == old(self).app_event_queue(),
            final(self).new_conn_queue() == old(self).new_conn_queue(),
            final(self).default_config() == old(self).default_config(),
            final(self).spec_id() == old(self).spec_id(),
            final(self).engine() == old(self).engine(),
            final(self).wf() == old(self).wf(),
    {
        let mut out: Vec<(core::net::SocketAddr, Vec<u8>)> = Vec::new();
        core::mem::swap(&mut self.transmits, &mut out);
        out
    }

    /// Hands every queued application event to the caller, in order, with
    /// the handle of the connection that produced it, leaving the queue
    /// empty. The host invokes the matching callback once per entry.
    pub fn take_app_events(&mut self) -> (r: Vec<(u64, ConnEvent)>)
        ensures
            r@ == old(self).app_event_queue(),
            final(self).app_event_queue().len() == 0,
            final(self).connections_map() == old(self).connections_map(),
            final(self).refs_map() == old(self).refs_map(),
            final(self).pollable() == old(self).pollable(),
            final(self).inbox() == old(self).inbox(),
            final(self).transmit_queue() == old(self).transmit_queue(),
            final(self).new_conn_queue() == old(self).new_conn_queue(),
            final(self).default_config() == old(self).default_config(),
            final(self).spec_id() == old(self).spec_id(),
            final(self).engine() == old(self).engine(),
            final(self).wf() == old(self).wf(),
    {
        let mut out: Vec<(u64, ConnEvent)> = Vec::new();
        core::mem::swap(&mut self.app_events, &mut out);
        out
    }

    /// Hands over the handles of freshly accepted connections awaiting the
    /// host's new-connection callback, in order, leaving the queue empty.
    pub fn take_new_connections(&mut self) -> (r: Vec<u64>)
        ensures
            r@ == old(self).new_conn_queue(),
            final(self).new_conn_queue().len() == 0,
            final(self).connections_map() == old(self).connections_map(),
            final(self).refs_map() == old(self).refs_map(),
            final(self).pollable() == old(self).pollable(),
            final(self).inbox() == old(self).inbox(),
            final(self).transmit_queue() == old(self).transmit_queue(),
            final(self).app_event_queue() == old(self).app_event_queue(),
            final(self).default_config() == old(self).default_config(),
            final(self).spec_id() == old(self).spec_id(),
            final(self).engine() == old(self).engine(),
            final(self).wf() == old(self).wf(),
    {
        let mut out: Vec<u64> = Vec::new();
        core::mem::swap(&mut self.new_connections, &mut out);
        out
    }

    /// Takes the handles currently flagged as needing endpoint attention,
    /// in the order they were first flagged, and clears every flag. The
    /// poller polls each returned connection; signals flagged meanwhile
    /// queue up again for the next pass, so none is lost.
    pub fn take_pollable(&mut self) -> (r: Vec<u64>)
        requires
            old(self).wf(),
        ensures
            final(self).wf(),
            r@ == old(self).pollable(),
            final(self).pollable().len() == 0,
            final(self).connections_map() == old(self).connections_map(),
            final(self).refs_map().dom() =~= old(self).refs_map().dom(),
            forall|h: u64|
                final(self).refs_map().dom().contains(h) ==> #[trigger] final(self).refs_map()[h]
                    == false,
            final(self).inbox() == old(self).inbox(),
            final(self).transmit_queue() == old(self).transmit_queue(),
            final(self).app_event_queue() == old(self).app_event_queue(),
            final(self).new_conn_queue() == old(self).new_conn_queue(),
            final(self).default_config() == old(self).default_config(),
            final(self).spec_id() == old(self).spec_id(),
            final(self).engine() == old(self).engine(),
    {
        let mut out: Vec<u64> = Vec::new();
        core::mem::swap(&mut self.pollable_queue, &mut out);
        let ghost q0 = out@;
        let mut i: usize = 0;
        while i < out.len()
            invariant
                i <= q0.len(),
                out@ == q0,
                q0 == old(self).pollable(),
                old(self).wf(),
                self.pollable_queue@.len() == 0,
                self.engine_registry() == old(self).engine_registry(),
                self.connections@ == old(self).connections_map(),
                self.connection_refs@.dom() =~= old(self).refs_map().dom(),
                forall|h: u64|
                    self.connection_refs@.dom().contains(h) ==> #[trigger] self.connection_refs@[h]
                        == (old(self).refs_map()[h] && !q0.take(i as int).contains(h)),
                self.endpoint_events@ == old(self).inbox(),
                self.transmits@ == old(self).transmit_queue(),
                self.app_events@ == old(self).app_event_queue(),
                self.new_connections@ == old(self).new_conn_queue(),
                self.default_client_config == old(self).default_config(),
                self.id == old(self).spec_id(),
                self.inner == old(self).engine(),
            decreases q0.len() - i,
        {
            let h = out[i];
            proof {
                assert(q0.contains(q0[i as int]));
                assert(old(self).refs_map().dom().contains(h));
                assert(q0.take(i as int).push(h) =~= q0.take(i + 1 as int));
                lemma_push_contains(q0.take(i as int), h);
            }
            self.connection_refs.insert(h, false);
            i = i + 1;
        }
        proof {
            assert(q0.take(q0.len() as int) =~= q0);
            assert forall|h: u64| self.connection_refs@.dom().contains(h) implies
                #[trigger] self.connection_refs@[h] == false by {
                assert(old(self).refs_map()[h] == old(self).pollable().contains(h));
            }
        }
        out
    }

    /// Dials a remote address. Without a previously supplied default
    /// outbound configuration the call is rejected with its own error code
    /// and nothing changes; otherwise the engine decides, and on success the
    /// new client-side connection is registered in both maps under the
    /// returned handle.
    pub fn connect(&mut self, remote: core::net::SocketAddr, server_name: &str) -> (r: Result<
        u64,
        QuinnError,
    >)
        requires
            old(self).wf(),
        ensures
            final(self).wf(),
            old(self).default_config() is None <==> (r matches Err(e) && e.code
                == CODE_NO_DEFAULT_CONFIG),
            r matches Err(e) ==> final(self).connections_map() == old(self).connections_map()
                && final(self).refs_map() == old(self).refs_map() && final(self).pollable() == old(self).pollable() && (e.code == CODE_NO_DEFAULT_CONFIG || e.code == CODE_DOMAIN),
            r matches Ok(h) ==> {
                &&& final(self).connections_map().dom() =~= old(self).connections_map().dom().insert(h)
                &&& final(self).connections_map()[h].handle == h
                &&& final(self).connections_map()[h].is_client == true
                &&& final(self).connections_map()[h].inbox_view().len() == 0
                &&& forall|g: u64|
                    g != h && old(self).connections_map().dom().contains(g) ==> final(self).connections_map()[g] == #[trigger] old(self).connections_map()[g]
            },
            final(self).inbox() == old(self).inbox(),
            final(self).transmit_queue() == old(self).transmit_queue(),
            final(self).app_event_queue() == old(self).app_event_queue(),
            final(self).new_conn_queue() == old(self).new_conn_queue(),
            final(self).default_config() == old(self).default_config(),
            final(self).spec_id() == old(self).spec_id(),
    {
        let config: Option<quinn_proto::ClientConfig> = match &self.default_client_config {
            Some(c) => Some(clone_client_config(c)),
            None => None,
        };
        match config {
            None => Err(
                QuinnError::new(CODE_NO_DEFAULT_CONFIG, "no default client configuration was set"),
            ),
            Some(c) => {
                match endpoint_connect(&mut self.inner, c, remote, server_name) {
                    Ok((handle, connection)) => {
                        self.engine_handles.insert(handle, true);
                        proof {
                            assert forall|x: u64| self.engine_handles@.dom().contains(x) implies
                                engine_handles_of(self.inner).contains(x) by {}
                        }
                        self.add_connection(handle, connection, true);
                        Ok(handle)
                    },
                    Err(reason) => Err(QuinnError { code: CODE_DOMAIN, reason }),
                }
            },
        }
    }

    /// The invariant survives replacing one connection actor's value, as
    /// long as the maps' key sets, the reference map and the queue stay put
    /// and the actor keeps its own handle.
    proof fn lemma_wf_value_update(pre: EndpointInner, post: EndpointInner, handle: u64)
        requires
            pre.wf(),
            post.connections_map().dom() =~= pre.connections_map().dom(),
            post.refs_map() == pre.refs_map(),
            post.pollable() == pre.pollable(),
            post.engine() == pre.engine(),
            post.engine_registry() == pre.engine_registry(),
            post.connections_map().dom().contains(handle) ==> post.connections_map()[handle].handle
                == handle,
            forall|h: u64|
                h != handle && pre.connections_map().dom().contains(h) ==> post.connections_map()[h]
                    == #[trigger] pre.connections_map()[h],
        ensures
            post.wf(),
    {
        assert forall|h: u64| post.connections_map().dom().contains(h) implies
            #[trigger] post.connections_map()[h].handle == h by {
            if h != handle {
                assert(pre.connections_map()[h].handle == h);
            }
        }
    }

    /// Accepts the next incoming stream of the given direction on a
    /// registered connection, flagging the connection pollable on success.
    pub fn accept_stream(&mut self, handle: u64, dir: StreamDir) -> (r: Result<u64, QuinnError>)
        requires
            old(self).wf(),
        ensures
            final(self).wf(),
            final(self).connections_map().dom() =~= old(self).connections_map().dom(),
            (r matches Err(e) && e.code == CODE_UNKNOWN_CONNECTION) <==> !old(self).connections_map().dom().contains(handle),
            r matches Ok(id) ==> id <= VARINT_MAX && final(self).pollable().contains(handle),
            old(self).connections_map().dom().contains(handle) ==> (r matches Err(e) ==> e.code == CODE_NO_STREAM),
            r is Err ==> final(self).pollable() == old(self).pollable(),
            forall|x: u64| old(self).pollable().contains(x) ==> #[trigger] final(self).pollable().contains(x),
            forall|x: u64| #[trigger] final(self).pollable().contains(x) ==> old(self).pollable().contains(x) || x == handle,
            forall|h: u64| h != handle && old(self).connections_map().dom().contains(h) ==> final(self).connections_map()[h] == #[trigger] old(self).connections_map()[h],
            final(self).inbox() == old(self).inbox(),
            final(self).transmit_queue() == old(self).transmit_queue(),
            final(self).app_event_queue() == old(self).app_event_queue(),
            final(self).new_conn_queue() == old(self).new_conn_queue(),
            final(self).default_config() == old(self).default_config(),
            final(self).spec_id() == old(self).spec_id(),
    {
        match self.connections.remove(&handle) {
            None => Err(QuinnError::new(CODE_UNKNOWN_CONNECTION, "unknown connection")),
            Some(mut actor) => {
                let (res, mark) = actor.accept(dir);
                self.connections.insert(handle, actor);
                proof {
                    assert(self.connections@.dom() =~= old(self).connections_map().dom());
                    Self::lemma_wf_value_update(*old(self), *self, handle);
                }
                if mark {
                    self.register_pollable_connection(handle);
                }
                res
            },
        }
    }

    /// Opens a stream of the given direction on a registered connection.
    pub fn open_stream(&mut self, handle: u64, dir: StreamDir) -> (r: Result<u64, QuinnError>)
        requires
            old(self).wf(),
        ensures
            final(self).wf(),
            final(self).connections_map().dom() =~= old(self).connections_map().dom(),
            (r matches Err(e) && e.code == CODE_UNKNOWN_CONNECTION) <==> !old(self).connections_map().dom().contains(handle),
            r matches Ok(id) ==> id <= VARINT_MAX,
            old(self).connections_map().dom().contains(handle) ==> (r matches Err(e) ==> e.code == CODE_STREAMS_EXHAUSTED),
            final(self).pollable() == old(self).pollable(),
            forall|h: u64| h != handle && old(self).connections_map().dom().contains(h) ==> final(self).connections_map()[h] == #[trigger] old(self).connections_map()[h],
            final(self).inbox() == old(self).inbox(),
            final(self).transmit_queue() == old(self).transmit_queue(),
            final(self).app_event_queue() == old(self).app_event_queue(),
            final(self).new_conn_queue() == old(self).new_conn_queue(),
            final(self).default_config() == old(self).default_config(),
            final(self).spec_id() == old(self).spec_id(),
    {
        match self.connections.remove(&handle) {
            None => Err(QuinnError::new(CODE_UNKNOWN_CONNECTION, "unknown connection")),
            Some(mut actor) => {
                let res = actor.open(dir);
                self.connections.insert(handle, actor);
                proof {
                    assert(self.connections@.dom() =~= old(self).connections_map().dom());
                    Self::lemma_wf_value_update(*old(self), *self, handle);
                }
                res
            },
        }
    }

    /// Reads up to `max` bytes from a stream of a registered connection, in
    /// order. A success never carries zero bytes: a stream with nothing
    /// available reports `Blocked`. When the engine wants a transmit
    /// afterwards the connection is flagged pollable.
    pub fn read_stream(&mut self, handle: u64, stream_id: u64, max: usize) -> (r: Result<ReadOutcome, QuinnError>)
        requires
            old(self).wf(),
        ensures
            final(self).wf(),
            final(self).connections_map().dom() =~= old(self).connections_map().dom(),
            (r matches Err(e) && e.code == CODE_UNKNOWN_CONNECTION) <==> !old(self).connections_map().dom().contains(handle),
            r matches Ok(o) ==> (o matches ReadOutcome::Data(d) ==> 0 < d@.len() <= max),
            old(self).connections_map().dom().contains(handle) && stream_id > VARINT_MAX ==> (r matches Err(e) && e.code == CODE_STREAM_ID_RANGE),
            (r matches Err(e) && e.code == CODE_STREAM_ID_RANGE) ==> stream_id > VARINT_MAX,
            forall|x: u64| old(self).pollable().contains(x) ==> #[trigger] final(self).pollable().contains(x),
            forall|x: u64| #[trigger] final(self).pollable().contains(x) ==> old(self).pollable().contains(x) || x == handle,
            (r matches Err(e) && (e.code == CODE_UNKNOWN_CONNECTION || e.code == CODE_STREAM_ID_RANGE || e.code == CODE_STREAM_SIDE)) ==> final(self).pollable() == old(self).pollable(),
            final(self).inbox() == old(self).inbox(),
            final(self).transmit_queue() == old(self).transmit_queue(),
            final(self).app_event_queue() == old(self).app_event_queue(),
            final(self).new_conn_queue() == old(self).new_conn_queue(),
            final(self).default_config() == old(self).default_config(),
            final(self).spec_id() == old(self).spec_id(),
    {
        match self.connections.remove(&handle) {
            None => Err(QuinnError::new(CODE_UNKNOWN_CONNECTION, "unknown connection")),
            Some(mut actor) => {
                let (res, mark) = actor.read(stream_id, max);
                self.connections.insert(handle, actor);
                proof {
                    assert(self.connections@.dom() =~= old(self).connections_map().dom());
                    Self::lemma_wf_value_update(*old(self), *self, handle);
                }
                if mark {
                    self.register_pollable_connection(handle);
                }
                res
            },
        }
    }

    /// Writes a prefix of `data` to a stream of a registered connection,
    /// reporting how many bytes the engine took. Exactly a successful write
    /// leaves the connection flagged pollable, so its
    /// acknowledgment-carrying data is transmitted; a blocked or failed
    /// write changes no flag.
    pub fn write_stream(&mut self, handle: u64, stream_id: u64, data: &[u8]) -> (r: Result<WriteOutcome, QuinnError>)
        requires
            old(self).wf(),
        ensures
            final(self).wf(),
            final(self).connections_map().dom() =~= old(self).connections_map().dom(),
            (r matches Err(e) && e.code == CODE_UNKNOWN_CONNECTION) <==> !old(self).connections_map().dom().contains(handle),
            r matches Ok(o) ==> (o matches WriteOutcome::Written(n) ==> n <= data@.len() && final(self).pollable().contains(handle)),
            !(r matches Ok(WriteOutcome::Written(_))) ==> final(self).pollable() == old(self).pollable(),
            forall|x: u64| #[trigger] final(self).pollable().contains(x) ==> old(self).pollable().contains(x) || x == handle,
            old(self).connections_map().dom().contains(handle) && stream_id > VARINT_MAX ==> (r matches Err(e) && e.code == CODE_STREAM_ID_RANGE),
            (r matches Err(e) && e.code == CODE_STREAM_ID_RANGE) ==> stream_id > VARINT_MAX,
            forall|x: u64| old(self).pollable().contains(x) ==> #[trigger] final(self).pollable().contains(x),
            final(self).inbox() == old(self).inbox(),
            final(self).transmit_queue() == old(self).transmit_queue(),
            final(self).app_event_queue() == old(self).app_event_queue(),
            final(self).new_conn_queue() == old(self).new_conn_queue(),
            final(self).default_config() == old(self).default_config(),
            final(self).spec_id() == old(self).spec_id(),
    {
        match self.connections.remove(&handle) {
            None => Err(QuinnError::new(CODE_UNKNOWN_CONNECTION, "unknown connection")),
            Some(mut actor) => {
                let (res, mark) = actor.write(stream_id, data);
                self.connections.insert(handle, actor);
                proof {
                    assert(self.connections@.dom() =~= old(self).connections_map().dom());
                    Self::lemma_wf_value_update(*old(self), *self, handle);
                }
                if mark {
                    self.register_pollable_connection(handle);
                }
                res
            },
        }
    }

    /// Moves everything one connection's poll pass produced onto the
    /// endpoint: the engine-facing events onto the endpoint's inbox and the
    /// application events onto the host-facing queue, each tagged with the
    /// connection's handle, in the order the connection produced them, none
    /// dropped.
    pub fn absorb_connection_output(&mut self, handle: u64, output: ConnPollOutput)
        requires
            old(self).wf(),
        ensures
            final(self).wf(),
            final(self).inbox() == old(self).inbox() + tag_events(handle, output.endpoint_events@),
            final(self).app_event_queue() == old(self).app_event_queue() + tag_app_events(handle, output.app_events@),
            final(self).connections_map() == old(self).connections_map(),
            final(self).refs_map() == old(self).refs_map(),
            final(self).pollable() == old(self).pollable(),
            final(self).transmit_queue() == old(self).transmit_queue(),
            final(self).new_conn_queue() == old(self).new_conn_queue(),
            final(self).default_config() == old(self).default_config(),
            final(self).spec_id() == old(self).spec_id(),
            final(self).engine() == old(self).engine(),
    {
        let ConnPollOutput { mut endpoint_events, mut app_events, needs_repoll: _ } = output;
        let ghost evs0 = endpoint_events@;
        let ghost inboxq0 = self.endpoint_events@;
        let n = endpoint_events.len();
        let mut i: usize = 0;
        while i < n
            invariant
                i <= n,
                n == evs0.len(),
                endpoint_events@ == evs0.skip(i as int),
                self.endpoint_events@ == inboxq0 + tag_events(handle, evs0.take(i as int)),
                app_events@ == output.app_events@,
                self.connections@ == old(self).connections_map(),
                self.connection_refs@ == old(self).refs_map(),
                self.pollable_queue@ == old(self).pollable(),
                self.transmits@ == old(self).transmit_queue(),
                self.app_events@ == old(self).app_event_queue(),
                self.new_connections@ == old(self).new_conn_queue(),
                self.default_client_config == old(self).default_config(),
                self.id == old(self).spec_id(),
                self.inner == old(self).engine(),
                self.engine_registry() == old(self).engine_registry(),
            decreases n - i,
        {
            let e = endpoint_events.remove(0);
            proof {
                assert(e == evs0[i as int]);
            }
            self.endpoint_events.push((handle, e));
            proof {
                assert(self.endpoint_events@ =~= inboxq0 + tag_events(
                    handle,
                    evs0.take(i + 1 as int),
                ));
            }
            i = i + 1;
        }
        proof {
            assert(evs0.take(n as int) =~= evs0);
        }
        let ghost apps0 = app_events@;
        let ghost appq0 = self.app_events@;
        let m = app_events.len();
        let mut j: usize = 0;
        while j < m
            invariant
                j <= m,
                m == apps0.len(),
                app_events@ == apps0.skip(j as int),
                self.app_events@ == appq0 + tag_app_events(handle, apps0.take(j as int)),
                self.endpoint_events@ == inboxq0 + tag_events(handle, evs0),
                self.connections@ == old(self).connections_map(),
                self.connection_refs@ == old(self).refs_map(),
                self.pollable_queue@ == old(self).pollable(),
                self.transmits@ == old(self).transmit_queue(),
                self.new_connections@ == old(self).new_conn_queue(),
                self.default_client_config == old(self).default_config(),
                self.id == old(self).spec_id(),
                self.inner == old(self).engine(),
                self.engine_registry() == old(self).engine_registry(),
            decreases m - j,
        {
            let e = app_events.remove(0);
            proof {
                assert(e == apps0[j as int]);
            }
            self.app_events.push((handle, e));
            proof {
                assert(self.app_events@ =~= appq0 + tag_app_events(
                    handle,
                    apps0.take(j + 1 as int),
                ));
            }
            j = j + 1;
        }
        proof {
            assert(apps0.take(m as int) =~= apps0);
        }
    }

    /// Polls one registered connection: drains a bounded batch of its inbox
    /// into its engine instance and absorbs everything the engine produced
    /// onto the endpoint's inbox and the host-facing event queue, each
    /// entry tagged with the connection's handle. A connection with
    /// possible work left is flagged pollable again.
    pub fn poll_connection(&mut self, handle: u64) -> (r: Result<(), QuinnError>)
        requires
            old(self).wf(),
        ensures
            final(self).wf(),
            final(self).connections_map().dom() =~= old(self).connections_map().dom(),
            r is Ok <==> old(self).connections_map().dom().contains(handle),
            r matches Err(e) ==> e.code == CODE_UNKNOWN_CONNECTION,
            old(self).inbox().is_prefix_of(final(self).inbox()),
            old(self).app_event_queue().is_prefix_of(final(self).app_event_queue()),
            forall|i: int| old(self).inbox().len() <= i < final(self).inbox().len() ==> (#[trigger] final(self).inbox()[i]).0 == handle,
            forall|i: int| old(self).app_event_queue().len() <= i < final(self).app_event_queue().len() ==> (#[trigger] final(self).app_event_queue()[i]).0 == handle,
            old(self).connections_map().dom().contains(handle) ==> final(self).connections_map()[handle].inbox_view() == old(self).connections_map()[handle].inbox_view().skip(
                if old(self).connections_map()[handle].inbox_view().len() > IO_LOOP_BOUND { IO_LOOP_BOUND as int } else { old(self).connections_map()[handle].inbox_view().len() as int },
            ),
            old(self).connections_map().dom().contains(handle) && old(self).connections_map()[handle].inbox_view().len() > IO_LOOP_BOUND ==> final(self).pollable().contains(handle),
            forall|h: u64| h != handle && old(self).connections_map().dom().contains(h) ==> final(self).connections_map()[h] == #[trigger] old(self).connections_map()[h],
            forall|x: u64| old(self).pollable().contains(x) ==> #[trigger] final(self).pollable().contains(x),
            final(self).transmit_queue() == old(self).transmit_queue(),
            final(self).new_conn_queue() == old(self).new_conn_queue(),
            final(self).default_config() == old(self).default_config(),
            final(self).spec_id() == old(self).spec_id(),
    {
        match self.connections.remove(&handle) {
            None => Err(QuinnError::new(CODE_UNKNOWN_CONNECTION, "unknown connection")),
            Some(mut actor) => {
                let out = actor.poll();
                let needs_repoll = out.needs_repoll;
                self.connections.insert(handle, actor);
                proof {
                    assert(self.connections@.dom() =~= old(self).connections_map().dom());
                    Self::lemma_wf_value_update(*old(self), *self, handle);
                }
                let ghost evs = out.endpoint_events@;
                let ghost apps = out.app_events@;
                self.absorb_connection_output(handle, out);
                if needs_repoll {
                    self.register_pollable_connection(handle);
                }
                proof {
                    assert(old(self).inbox() =~= self.endpoint_events@.subrange(0, old(self).inbox().len() as int));
                    assert(old(self).app_event_queue() =~= self.app_events@.subrange(0, old(self).app_event_queue().len() as int));
                    assert forall|i: int| old(self).inbox().len() <= i < self.endpoint_events@.len() implies (#[trigger] self.endpoint_events@[i]).0 == handle by {
                        assert(self.endpoint_events@[i] == tag_events(handle, evs)[i - old(self).inbox().len()]);
                    }
                    assert forall|i: int| old(self).app_event_queue().len() <= i < self.app_events@.len() implies (#[trigger] self.app_events@[i]).0 == handle by {
                        assert(self.app_events@[i] == tag_app_events(handle, apps)[i - old(self).app_event_queue().len()]);
                    }
                }
                Ok(())
            },
        }
    }

    /// Drains a bounded FIFO batch of the endpoint's inbox. A drained
    /// notice always purges its connection from both maps, and is then
    /// still delivered to the engine so it can drop its own state; every
    /// other protocol event goes to the engine, whose reply, if any, is
    /// forwarded to the originating connection's inbox; a ready transmit is
    /// queued for the host's transmit callback, none ever dropped. The
    /// engine is consulted only for handles it itself returned and has not
    /// yet drained, as the private engine-handle registry records them;
    /// events outside it are absorbed as logic faults. Returns whether a
    /// full batch was processed, so the poller re-polls at once instead of
    /// waiting for the next signal.
    #[verifier::rlimit(60)]
    pub fn handle_connection_events(&mut self) -> (r: Result<bool, QuinnError>)
        requires
            old(self).wf(),
        ensures
            final(self).wf(),
            ({
                let k = if old(self).inbox().len() > IO_LOOP_BOUND { IO_LOOP_BOUND as int } else { old(self).inbox().len() as int };
                &&& final(self).inbox() == old(self).inbox().skip(k)
                &&& r == Ok::<bool, QuinnError>(k == IO_LOOP_BOUND as int)
                &&& final(self).transmit_queue() == old(self).transmit_queue() + transmits_of(old(self).inbox().take(k))
                &&& forall|h: u64| #[trigger] old(self).connections_map().dom().contains(h) && !final(self).connections_map().dom().contains(h) ==> exists|i: int| 0 <= i < k && drained_for(#[trigger] old(self).inbox()[i], h)
                &&& forall|i: int| 0 <= i < k && is_drained_event((#[trigger] old(self).inbox()[i]).1) ==> !final(self).connections_map().dom().contains(old(self).inbox()[i].0)
            }),
            forall|h: u64| #[trigger] final(self).connections_map().dom().contains(h) ==> old(self).connections_map().dom().contains(h),
            forall|x: u64| #[trigger] final(self).pollable().contains(x) ==> old(self).pollable().contains(x),
            final(self).app_event_queue() == old(self).app_event_queue(),
            final(self).new_conn_queue() == old(self).new_conn_queue(),
            final(self).default_config() == old(self).default_config(),
            final(self).spec_id() == old(self).spec_id(),
    {
        let ghost inbox0 = self.endpoint_events@;
        let ghost pollable0 = self.pollable_queue@;
        let ghost trans0 = self.transmits@;
        let ghost conns0 = self.connections@;
        let mut processed: usize = 0;
        while processed < IO_LOOP_BOUND && self.endpoint_events.len() > 0
            invariant
                self.wf(),
                processed <= IO_LOOP_BOUND,
                processed <= inbox0.len(),
                self.endpoint_events@ == inbox0.skip(processed as int),
                self.transmits@ == trans0 + transmits_of(inbox0.take(processed as int)),
                forall|h: u64| #[trigger] self.connections@.dom().contains(h) ==> conns0.dom().contains(h),
                forall|h: u64| #[trigger] conns0.dom().contains(h) && !self.connections@.dom().contains(h) ==> exists|i: int| 0 <= i < processed && drained_for(#[trigger] inbox0[i], h),
                forall|i: int| 0 <= i < processed && is_drained_event((#[trigger] inbox0[i]).1) ==> !self.connections@.dom().contains(inbox0[i].0),
                forall|x: u64| #[trigger] self.pollable_queue@.contains(x) ==> pollable0.contains(x),
                self.app_events@ == old(self).app_event_queue(),
                self.new_connections@ == old(self).new_conn_queue(),
                self.default_client_config == old(self).default_config(),
                self.id == old(self).spec_id(),
            decreases IO_LOOP_BOUND - processed,
        {
            let (h, event) = self.endpoint_events.remove(0);
            proof {
                assert(inbox0[processed as int] == (h, event));
                assert(inbox0.take(processed + 1 as int) =~= inbox0.take(processed as int).push((h, event)));
                assert(inbox0.take(processed + 1 as int).drop_last() =~= inbox0.take(processed as int));
            }
            match event {
                PendingEvent::Proto(raw, drained) => {
                    if drained {
                        self.remove_connection(h);
                    }
                    if self.engine_handles.contains_key(&h) {
                        let (reply, was_drained) = endpoint_handle_event(&mut self.inner, h, raw);
                        if was_drained {
                            self.engine_handles.remove(&h);
                        }
                        proof {
                            assert forall|x: u64| self.engine_handles@.dom().contains(x) implies
                                engine_handles_of(self.inner).contains(x) by {}
                        }
                        match reply {
                            Some(event_back) => {
                                let _ = self.forward_event_to_connection(h, event_back);
                            },
                            None => {},
                        }
                    }
                },
                PendingEvent::Transmit(destination, payload) => {
                    self.notify_transmit((destination, payload));
                },
            }
            processed = processed + 1;
        }
        proof {
            if self.endpoint_events@.len() == 0 {
                assert(inbox0.skip(processed as int).len() == 0);
            }
            let k: int = if inbox0.len() > IO_LOOP_BOUND {
                IO_LOOP_BOUND as int
            } else {
                inbox0.len() as int
            };
            assert(processed as int == k);
            assert forall|i: int|
                0 <= i < k && is_drained_event((#[trigger] inbox0[i]).1) implies !self.connections@
                .dom().contains(inbox0[i].0) by {}
        }
        Ok(processed == IO_LOOP_BOUND)
    }

    /// One poll pass of the endpoint: drains pending outbound transmits
    /// from the engine into the transmit queue (bounded batch), then drains
    /// a bounded batch of the inbox. The two maps' key sets are equal again
    /// when the pass returns. An `Ok(true)` says more work may remain, so
    /// the poller re-signals itself at once.
    pub fn poll(&mut self) -> (r: Result<bool, QuinnError>)
        requires
            old(self).wf(),
        ensures
            final(self).wf(),
            final(self).connections_map().dom() =~= final(self).refs_map().dom(),
            r is Ok,
            old(self).transmit_queue().is_prefix_of(final(self).transmit_queue()),
            ({
                let k = if old(self).inbox().len() > IO_LOOP_BOUND { IO_LOOP_BOUND as int } else { old(self).inbox().len() as int };
                exists|engine_yield: Seq<(core::net::SocketAddr, Vec<u8>)>|
                    final(self).transmit_queue() == old(self).transmit_queue() + engine_yield + transmits_of(old(self).inbox().take(k))
            }),
            final(self).inbox() == old(self).inbox().skip(
                if old(self).inbox().len() > IO_LOOP_BOUND { IO_LOOP_BOUND as int } else { old(self).inbox().len() as int },
            ),
            old(self).inbox().len() > IO_LOOP_BOUND ==> r == Ok::<bool, QuinnError>(true),
            forall|h: u64| #[trigger] final(self).connections_map().dom().contains(h) ==> old(self).connections_map().dom().contains(h),
            forall|x: u64| #[trigger] final(self).pollable().contains(x) ==> old(self).pollable().contains(x),
            final(self).app_event_queue() == old(self).app_event_queue(),
            final(self).new_conn_queue() == old(self).new_conn_queue(),
            final(self).default_config() == old(self).default_config(),
            final(self).spec_id() == old(self).spec_id(),
    {
        let ghost mut engine_yield: Seq<(core::net::SocketAddr, Vec<u8>)> = Seq::empty();
        let mut i: usize = 0;
        let mut drained_all: bool = false;
        while i < IO_LOOP_BOUND && !drained_all
            invariant
                self.wf(),
                i <= IO_LOOP_BOUND,
                self.connections@ == old(self).connections_map(),
                self.connection_refs@ == old(self).refs_map(),
                self.pollable_queue@ == old(self).pollable(),
                self.endpoint_events@ == old(self).inbox(),
                self.transmits@ == old(self).transmit_queue() + engine_yield,
                self.app_events@ == old(self).app_event_queue(),
                self.new_connections@ == old(self).new_conn_queue(),
                self.default_client_config == old(self).default_config(),
                self.id == old(self).spec_id(),
            decreases IO_LOOP_BOUND - i,
        {
            match endpoint_poll_transmit(&mut self.inner) {
                Some(t) => {
                    proof {
                        engine_yield = engine_yield.push(t);
                    }
                    self.notify_transmit(t);
                    proof {
                        assert(self.transmits@ =~= old(self).transmit_queue() + engine_yield);
                    }
                },
                None => {
                    drained_all = true;
                },
            }
            i = i + 1;
        }
        let more_events = match self.handle_connection_events() {
            Ok(b) => b,
            Err(e) => {
                return Err(e);
            },
        };
        proof {
            assert(old(self).transmit_queue() =~= self.transmits@.subrange(0, old(self).transmit_queue().len() as int));
            let k: int = if old(self).inbox().len() > IO_LOOP_BOUND {
                IO_LOOP_BOUND as int
            } else {
                old(self).inbox().len() as int
            };
            assert(self.transmits@ == old(self).transmit_queue() + engine_yield + transmits_of(old(self).inbox().take(k)));
        }
        Ok(more_events || !drained_all)
    }

    /// Feeds one inbound datagram to the engine. A datagram that starts a
    /// brand-new connection registers it in both maps, queues the
    /// new-connection notification for the host and polls the connection at
    /// once; one destined for an existing connection is forwarded to that
    /// connection's inbox and the connection is polled; anything else is
    /// silently ignored. Only a datagram routed to a connection that is no
    /// longer registered fails.
    pub fn handle_datagram(&mut self, remote: core::net::SocketAddr, data: &[u8]) -> (r: Result<
        DatagramDisposition,
        QuinnError,
    >)
        requires
            old(self).wf(),
        ensures
            final(self).wf(),
            r matches Ok(d) ==> {
                &&& d matches DatagramDisposition::Ignored ==> final(self).connections_map()
                    == old(self).connections_map()
                &&& d matches DatagramDisposition::Accepted(h) ==> final(self).connections_map().dom() =~= old(self).connections_map().dom().insert(h) && final(self).new_conn_queue() == old(self).new_conn_queue().push(h)
                &&& d matches DatagramDisposition::Routed(h) ==> final(self).connections_map().dom() =~= old(self).connections_map().dom() && old(self).connections_map().dom().contains(h) && final(self).new_conn_queue() == old(self).new_conn_queue()
            },
            r matches Err(e) ==> e.code == CODE_UNKNOWN_CONNECTION && final(self).connections_map().dom() =~= old(self).connections_map().dom(),
            final(self).transmit_queue() == old(self).transmit_queue(),
            final(self).default_config() == old(self).default_config(),
            final(self).spec_id() == old(self).spec_id(),
    {
        match endpoint_handle_datagram(&mut self.inner, remote, data) {
            None => Ok(DatagramDisposition::Ignored),
            Some((handle, DatagramOutcome::NewConnection(connection))) => {
                self.engine_handles.insert(handle, true);
                proof {
                    assert forall|x: u64| self.engine_handles@.dom().contains(x) implies
                        engine_handles_of(self.inner).contains(x) by {}
                }
                self.add_connection(handle, connection, false);
                self.new_connections.push(handle);
                let polled = self.poll_connection(handle);
                assert(polled is Ok);
                Ok(DatagramDisposition::Accepted(handle))
            },
            Some((handle, DatagramOutcome::ConnEvent(event))) => {
                self.engine_handles.insert(handle, true);
                proof {
                    assert forall|x: u64| self.engine_handles@.dom().contains(x) implies
                        engine_handles_of(self.inner).contains(x) by {}
                }
                match self.forward_event_to_connection(handle, event) {
                    Ok(()) => {
                        let polled = self.poll_connection(handle);
                        assert(polled is Ok);
                        Ok(DatagramDisposition::Routed(handle))
                    },
                    Err(e) => Err(e),
                }
            },
        }
    }

    /// Queues one connection-originated engine event on the endpoint's
    /// inbox, tagging it with whether it is the connection's last; the tag
    /// is returned. Insertion order is preserved.
    pub fn push_endpoint_event(&mut self, handle: u64, event: quinn_proto::EndpointEvent) -> (r:
        bool)
        ensures
            final(self).inbox() == old(self).inbox().push(
                (handle, PendingEvent::Proto(event, r)),
            ),
            final(self).connections_map() == old(self).connections_map(),
            final(self).refs_map() == old(self).refs_map(),
            final(self).pollable() == old(self).pollable(),
            final(self).transmit_queue() == old(self).transmit_queue(),
            final(self).app_event_queue() == old(self).app_event_queue(),
            final(self).new_conn_queue() == old(self).new_conn_queue(),
            final(self).default_config() == old(self).default_config(),
            final(self).spec_id() == old(self).spec_id(),
            final(self).engine() == old(self).engine(),
            final(self).wf() == old(self).wf(),
    {
        let drained = event_is_drained(&event);
        self.endpoint_events.push((handle, PendingEvent::Proto(event, drained)));
        drained
    }

    /// Queues one outbound transmit, as its destination address and payload
    /// bytes, for the host's transmit callback.
    pub fn notify_transmit(&mut self, transmit: (core::net::SocketAddr, Vec<u8>))
        ensures
            final(self).transmit_queue() == old(self).transmit_queue().push(transmit),
            final(self).connections_map() == old(self).connections_map(),
            final(self).refs_map() == old(self).refs_map(),
            final(self).pollable() == old(self).pollable(),
            final(self).inbox() == old(self).inbox(),
            final(self).app_event_queue() == old(self).app_event_queue(),
            final(self).new_conn_queue() == old(self).new_conn_queue(),
            final(self).default_config() == old(self).default_config(),
            final(self).spec_id() == old(self).spec_id(),
            final(self).engine() == old(self).engine(),
            final(self).wf() == old(self).wf(),
    {
        self.transmits.push(transmit);
    }
}

} // verus!
