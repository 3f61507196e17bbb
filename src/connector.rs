//! The connector: on each connection attempt it waits for the handler factory
//! to produce a handler, and only then creates a duplex stream pair, hands the
//! server half and the handler over to be served, and returns the client half.
use hyper::client::connect::Connected;
use memsocket::UnboundedSocket;
use std::sync::Arc;
use vstd::prelude::*;

verus! {

/// Where one connection attempt stands.
#[derive(Clone, Copy, Debug, PartialEq, Eq, Structural)]
pub enum Phase {
    /// The factory has not produced a handler yet.
    Pending,
    /// The factory failed; nothing was wired, and nothing ever will be.
    Failed,
    /// The factory produced a handler and the connection was wired.
    Wired,
}

/// What one poll of the factory's instantiation future gave.
pub enum FactoryPoll<S, E> {
    /// Not ready yet: the attempt stays suspended.
    NotReady,
    /// The handler for this connection.
    Ready(S),
    /// The factory's error.
    Failed(E),
}

/// What the connection is made of once wired: the server half goes to a
/// background task together with the handler and the shared engine, the
/// client half and the metadata go back to the client stack.
pub struct Wiring<S, P> {
    /// The handler the factory produced for this connection.
    pub service: S,
    /// The protocol engine shared by all connections of the connector.
    pub server: Arc<P>,
    /// The half the background task serves.
    pub server_io: UnboundedSocket,
    /// The half the client stack talks over.
    pub client_io: UnboundedSocket,
    /// Metadata marking the transport as proxied rather than networked.
    pub connected: Connected,
}

/// What one poll of a connection attempt gives.
pub enum ConnectPoll<S, P, E> {
    /// Still waiting for the factory.
    NotReady,
    /// Wired: a fresh duplex pair exists, ready to be served.
    Wired(Wiring<S, P>),
    /// The factory's error, unchanged.
    Failed(E),
}

/// The phase after one poll from `phase`: only a pending attempt moves.
pub open spec fn next_phase<S, E>(phase: Phase, poll: FactoryPoll<S, E>) -> Phase {
    match phase {
        Phase::Pending => match poll {
            FactoryPoll::NotReady => Phase::Pending,
            FactoryPoll::Ready(_) => Phase::Wired,
            FactoryPoll::Failed(_) => Phase::Failed,
        },
        _ => phase,
    }
}

/// Whether one poll from `phase` wires a connection (creates a duplex pair and
/// hands a handler over to be served).
pub open spec fn wires<S, E>(phase: Phase, poll: FactoryPoll<S, E>) -> bool {
    phase == Phase::Pending && poll is Ready
}

/// The phase after a run of polls from `phase`. A finished attempt is polled
/// no further, so later polls leave it as it is.
pub open spec fn run_phase<S, E>(phase: Phase, polls: Seq<FactoryPoll<S, E>>) -> Phase
    decreases polls.len(),
{
    if polls.len() == 0 {
        phase
    } else {
        run_phase(next_phase(phase, polls[0]), polls.drop_first())
    }
}

/// How many connections a run of polls from `phase` wires.
pub open spec fn run_wirings<S, E>(phase: Phase, polls: Seq<FactoryPoll<S, E>>) -> nat
    decreases polls.len(),
{
    if polls.len() == 0 {
        0
    } else {
        (if wires(phase, polls[0]) { 1nat } else { 0nat }) + run_wirings(
            next_phase(phase, polls[0]),
            polls.drop_first(),
        )
    }
}

/// The connection-attempt outcome that one poll of the factory gives from
/// `phase`, as far as it can be said of values: the handler goes to the wiring
/// and an error comes back unchanged.
pub open spec fn poll_matches<S, P, E>(
    phase: Phase,
    poll: FactoryPoll<S, E>,
    server: Arc<P>,
    r: ConnectPoll<S, P, E>,
) -> bool {
    match poll {
        FactoryPoll::NotReady => r is NotReady,
        FactoryPoll::Ready(s) => r is Wired && r->Wired_0.service == s
            && r->Wired_0.server == server,
        FactoryPoll::Failed(e) => r == ConnectPoll::<S, P, E>::Failed(e),
    }
}

/// A finished attempt stays as it is and wires nothing more, whatever polls follow.
proof fn lemma_finished_stays<S, E>(phase: Phase, polls: Seq<FactoryPoll<S, E>>)
    requires
        phase != Phase::Pending,
    ensures
        run_phase(phase, polls) == phase,
        run_wirings(phase, polls) == 0,
    decreases polls.len(),
{
    if polls.len() > 0 {
        lemma_finished_stays(next_phase(phase, polls[0]), polls.drop_first());
    }
}

/// Polling once more after a run moves the attempt exactly as one `advance`
/// does: the run's phase steps by `next_phase`, and its wiring count grows by
/// one exactly when that poll wires.
pub proof fn lemma_run_then_poll<S, E>(
    phase: Phase,
    polls: Seq<FactoryPoll<S, E>>,
    poll: FactoryPoll<S, E>,
)
    ensures
        run_phase(phase, polls.push(poll)) == next_phase(run_phase(phase, polls), poll),
        run_wirings(phase, polls.push(poll)) == run_wirings(phase, polls) + (if wires(
            run_phase(phase, polls),
            poll,
        ) {
            1nat
        } else {
            0nat
        }),
    decreases polls.len(),
{
    let extended = polls.push(poll);
    if polls.len() == 0 {
        let rest = extended.drop_first();
        assert(rest =~= Seq::<FactoryPoll<S, E>>::empty());
        assert(extended[0] == poll);
        assert(run_phase(next_phase(phase, poll), rest) == next_phase(phase, poll));
        assert(run_wirings(next_phase(phase, poll), rest) == 0);
    } else {
        assert(extended[0] == polls[0]);
        assert(extended.drop_first() =~= polls.drop_first().push(poll));
        lemma_run_then_poll(next_phase(phase, polls[0]), polls.drop_first(), poll);
    }
}

/// An attempt wires at most one connection, and it wires one exactly when it
/// ends up wired: one duplex pair per handler the factory produced, none
/// otherwise, and the wiring is never repeated.
pub proof fn lemma_wires_at_most_once<S, E>(polls: Seq<FactoryPoll<S, E>>)
    ensures
        run_wirings(Phase::Pending, polls) <= 1,
        run_wirings(Phase::Pending, polls) == 1 <==> run_phase(Phase::Pending, polls)
            == Phase::Wired,
    decreases polls.len(),
{
    if polls.len() > 0 {
        let next = next_phase(Phase::Pending, polls[0]);
        if next == Phase::Pending {
            lemma_wires_at_most_once(polls.drop_first());
        } else {
            lemma_finished_stays(next, polls.drop_first());
        }
    }
}

/// When the factory never produces a handler, no connection is ever wired: no
/// duplex pair is created and nothing is handed over to be served.
pub proof fn lemma_failing_factory_never_wires<S, E>(polls: Seq<FactoryPoll<S, E>>)
    requires
        forall|i: int| 0 <= i < polls.len() ==> !(#[trigger] polls[i] is Ready),
    ensures
        run_wirings(Phase::Pending, polls) == 0,
        run_phase(Phase::Pending, polls) != Phase::Wired,
    decreases polls.len(),
{
    if polls.len() > 0 {
        let next = next_phase(Phase::Pending, polls[0]);
        let rest = polls.drop_first();
        assert forall|i: int| 0 <= i < rest.len() implies !(#[trigger] rest[i] is Ready) by {
            assert(rest[i] == polls[i + 1]);
        }
        if next == Phase::Pending {
            lemma_failing_factory_never_wires(rest);
        } else {
            lemma_finished_stays(next, rest);
        }
    }
}

/// An attempt that has not resolved yet has wired nothing, so dropping it then
/// leaves no background work behind.
pub proof fn lemma_unresolved_attempt_never_wires<S, E>(polls: Seq<FactoryPoll<S, E>>)
    requires
        run_phase(Phase::Pending, polls) == Phase::Pending,
    ensures
        run_wirings(Phase::Pending, polls) == 0,
    decreases polls.len(),
{
    if polls.len() > 0 {
        let next = next_phase(Phase::Pending, polls[0]);
        if next == Phase::Pending {
            lemma_unresolved_attempt_never_wires(polls.drop_first());
        } else {
            lemma_finished_stays(next, polls.drop_first());
        }
    }
}

/// Creates transports for connection attempts. It holds the handler factory
/// and the protocol engine that serves every connection; neither changes
/// after creation.
pub struct Connector<N, P> {
    pub new_service: N,
    pub server: Arc<P>,
}

impl<N, P> Connector<N, P> {
    /// A connector around a handler factory and the engine that will serve
    /// each connection it wires.
    pub fn new(new_service: N, server: P) -> (r: Self)
        ensures
            r.new_service == new_service,
            r.server == server,
    {
        Connector { new_service, server: Arc::new(server) }
    }

    /// Starts a connection attempt around the future in which the factory
    /// produces this attempt's handler. Nothing is created or spawned until
    /// the attempt is polled and that future has resolved.
    pub fn connect<F>(&self, service_future: F) -> (r: ConnectorConnectFuture<F, P>)
        ensures
            r.phase == Phase::Pending,
            r.service_future == service_future,
            r.server == self.server,
    {
        ConnectorConnectFuture { server: self.server.clone(), service_future, phase: Phase::Pending }
    }
}

/// One connection attempt: the factory's instantiation future, the shared
/// engine, and where the attempt stands.
pub struct ConnectorConnectFuture<F, P> {
    pub server: Arc<P>,
    pub service_future: F,
    pub phase: Phase,
}

impl<F, P> ConnectorConnectFuture<F, P> {
    /// Advances the attempt by what one poll of the factory's future gave.
    /// While that future is not ready, neither is the attempt. On an error the
    /// attempt fails with that same error, creating nothing. On a handler, and
    /// only then, a fresh duplex pair is created and the attempt resolves to
    /// the wiring, with metadata that marks the transport as proxied.
    pub fn advance<S, E>(&mut self, poll: FactoryPoll<S, E>) -> (r: ConnectPoll<S, P, E>)
        requires
            old(self).phase == Phase::Pending,
        ensures
            final(self).phase == next_phase(old(self).phase, poll),
            final(self).server == old(self).server,
            final(self).service_future == old(self).service_future,
            (r is Wired) == wires(old(self).phase, poll),
            poll_matches(old(self).phase, poll, old(self).server, r),
    {
        match poll {
            FactoryPoll::NotReady => ConnectPoll::NotReady,
            FactoryPoll::Failed(e) => {
                self.phase = Phase::Failed;
                ConnectPoll::Failed(e)
            },
            FactoryPoll::Ready(service) => {
                let (client_io, server_io) = memsocket::unbounded();
                let connected = Connected::new().proxy(true);
                self.phase = Phase::Wired;
                ConnectPoll::Wired(
                    Wiring { service, server: self.server.clone(), server_io, client_io, connected },
                )
            },
        }
    }
}

} // verus!
