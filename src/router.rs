use vstd::prelude::*;
use crate::lifecycle::PipelinePhase;
use crate::routes::RouteTable;
use crate::stream::StreamKind;

verus! {

/// What reading the packet source gave.
pub enum SourceEvent<P> {
    /// A packet of the stream with the given index.
    Packet(usize, P),
    /// The source has no more packets.
    Exhausted,
    /// The source failed; this ends the stream like exhaustion.
    ReadFailed,
}

/// What the router asks for before each read.
#[derive(Clone, Copy, Debug, PartialEq, Eq, Structural)]
pub enum RouterCommand {
    /// Read the next packet and hand the result to `dispatch`.
    Read,
    /// Close every inbound queue, then join every worker and call `joined`.
    CloseQueues,
    /// The queues are closed already: nothing more to read.
    Idle,
}

/// What becomes of a packet read.
pub enum Dispatch<P> {
    /// Enqueue the packet for the worker of this kind; a failed enqueue is ignored.
    Deliver(StreamKind, P),
    /// No worker takes this stream: drop the packet.
    Discard(P),
    /// The source ended: close every inbound queue, then join every worker.
    CloseQueues,
}

/// The packets of `read` that the routes `routes` send to the worker of `kind`,
/// in the order they were read.
pub open spec fn routed_to<P>(
    routes: Map<usize, StreamKind>,
    read: Seq<(usize, P)>,
    kind: StreamKind,
) -> Seq<P>
    decreases read.len(),
{
    if read.len() == 0 {
        Seq::empty()
    } else {
        let prev = routed_to(routes, read.drop_last(), kind);
        let last = read.last();
        if routes.contains_key(last.0) && routes[last.0] == kind {
            prev.push(last.1)
        } else {
            prev
        }
    }
}

/// The packets of `read` whose stream has a route, in order.
pub open spec fn mapped_only<P>(routes: Map<usize, StreamKind>, read: Seq<(usize, P)>) -> Seq<
    (usize, P),
>
    decreases read.len(),
{
    if read.len() == 0 {
        Seq::empty()
    } else {
        let prev = mapped_only(routes, read.drop_last());
        if routes.contains_key(read.last().0) {
            prev.push(read.last())
        } else {
            prev
        }
    }
}

/// Order preservation: routing a source read in two parts gives, for every
/// worker kind, the packets of the first part followed by those of the second,
/// each in the order they were read. What a worker receives for the later part
/// depends on that part and the routes alone, not on anything that happened to
/// another worker.
pub proof fn lemma_routing_preserves_order<P>(
    routes: Map<usize, StreamKind>,
    first: Seq<(usize, P)>,
    second: Seq<(usize, P)>,
    kind: StreamKind,
)
    ensures
        routed_to(routes, first + second, kind) == routed_to(routes, first, kind) + routed_to(
            routes,
            second,
            kind,
        ),
    decreases second.len(),
{
    if second.len() == 0 {
        assert(first + second =~= first);
        assert(routed_to(routes, first, kind) + routed_to(routes, second, kind) =~= routed_to(
            routes,
            first,
            kind,
        ));
    } else {
        let rest = second.drop_last();
        lemma_routing_preserves_order(routes, first, rest, kind);
        assert((first + second).drop_last() =~= first + rest);
        assert((first + second).last() == second.last());
        let a = routed_to(routes, first, kind);
        let b = routed_to(routes, rest, kind);
        assert((a + b).push(second.last().1) =~= a + b.push(second.last().1));
    }
}

/// Unmapped streams are dropped: removing from a read every packet whose
/// stream has no route leaves what each worker receives unchanged, so such a
/// packet never reaches any worker.
pub proof fn lemma_unmapped_dropped<P>(
    routes: Map<usize, StreamKind>,
    read: Seq<(usize, P)>,
    kind: StreamKind,
)
    ensures
        routed_to(routes, read, kind) == routed_to(routes, mapped_only(routes, read), kind),
    decreases read.len(),
{
    if read.len() > 0 {
        lemma_unmapped_dropped(routes, read.drop_last(), kind);
        let m = mapped_only(routes, read.drop_last());
        if routes.contains_key(read.last().0) {
            assert(m.push(read.last()).drop_last() =~= m);
        }
    }
}

/// The decisions of the packet router, which owns the packet source and the
/// inbound queues.
///
/// It keeps, as ghost state, every packet read, in order.
pub struct Router<P> {
    routes: RouteTable,
    phase: PipelinePhase,
    read: Ghost<Seq<(usize, P)>>,
}

impl<P> Router<P> {
    pub closed spec fn phase_spec(&self) -> PipelinePhase {
        self.phase
    }

    /// The routes, as a map from stream index to worker kind.
    pub closed spec fn routes_spec(&self) -> Map<usize, StreamKind> {
        self.routes@
    }

    /// The packets read from the source so far, with their stream indices.
    pub closed spec fn packets_read(&self) -> Seq<(usize, P)> {
        self.read@
    }

    /// The packets handed to the worker of `kind` so far, in order.
    pub open spec fn queued_for(&self, kind: StreamKind) -> Seq<P> {
        routed_to(self.routes_spec(), self.packets_read(), kind)
    }

    pub closed spec fn wf(&self) -> bool {
        &&& self.routes.wf()
        &&& self.phase != PipelinePhase::Stopped
    }

    /// A router about to read its first packet.
    pub fn new(routes: RouteTable) -> (r: Router<P>)
        requires
            routes.wf(),
        ensures
            r.wf(),
            r.phase_spec() == PipelinePhase::Running,
            r.routes_spec() == routes@,
            r.packets_read() == Seq::<(usize, P)>::empty(),
    {
        Router { routes, phase: PipelinePhase::Running, read: Ghost(Seq::empty()) }
    }

    /// The router's phase: `Running`, `Draining` or `Joined`.
    pub fn phase(&self) -> (r: PipelinePhase)
        ensures
            r == self.phase_spec(),
    {
        self.phase
    }

    /// Called before each read, with the current state of the cancellation
    /// signal. Once cancellation is seen, reading stops for good.
    pub fn next_command(&mut self, cancelled: bool) -> (r: RouterCommand)
        requires
            old(self).wf(),
        ensures
            final(self).wf(),
            final(self).routes_spec() == old(self).routes_spec(),
            final(self).packets_read() == old(self).packets_read(),
            r == (if old(self).phase_spec() != PipelinePhase::Running {
                RouterCommand::Idle
            } else if cancelled {
                RouterCommand::CloseQueues
            } else {
                RouterCommand::Read
            }),
            final(self).phase_spec() == (if r == RouterCommand::CloseQueues {
                PipelinePhase::Draining
            } else {
                old(self).phase_spec()
            }),
    {
        if self.phase != PipelinePhase::Running {
            RouterCommand::Idle
        } else if cancelled {
            self.phase = PipelinePhase::Draining;
            RouterCommand::CloseQueues
        } else {
            RouterCommand::Read
        }
    }

    /// Decides what becomes of what the read returned.
    pub fn dispatch(&mut self, ev: SourceEvent<P>) -> (r: Dispatch<P>)
        requires
            old(self).wf(),
            old(self).phase_spec() == PipelinePhase::Running,
        ensures
            final(self).wf(),
            final(self).routes_spec() == old(self).routes_spec(),
            match ev {
                SourceEvent::Packet(idx, p) => {
                    &&& final(self).phase_spec() == PipelinePhase::Running
                    &&& final(self).packets_read() == old(self).packets_read().push((idx, p))
                    &&& r == (if old(self).routes_spec().contains_key(idx) {
                        Dispatch::Deliver(old(self).routes_spec()[idx], p)
                    } else {
                        Dispatch::Discard(p)
                    })
                },
                _ => {
                    &&& final(self).phase_spec() == PipelinePhase::Draining
                    &&& final(self).packets_read() == old(self).packets_read()
                    &&& r == Dispatch::<P>::CloseQueues
                },
            },
    {
        match ev {
            SourceEvent::Packet(idx, p) => {
                proof {
                    self.read = Ghost(self.read@.push((idx, p)));
                }
                match self.routes.lookup(idx) {
                    Some(kind) => Dispatch::Deliver(kind, p),
                    None => Dispatch::Discard(p),
                }
            },
            _ => {
                self.phase = PipelinePhase::Draining;
                Dispatch::CloseQueues
            },
        }
    }

    /// Records that every worker has been joined after the queues were closed.
    pub fn joined(&mut self)
        requires
            old(self).wf(),
            old(self).phase_spec() == PipelinePhase::Draining,
        ensures
            final(self).wf(),
            final(self).phase_spec() == PipelinePhase::Joined,
            final(self).routes_spec() == old(self).routes_spec(),
            final(self).packets_read() == old(self).packets_read(),
    {
        self.phase = self.phase.advance();
    }
}

} // verus!
