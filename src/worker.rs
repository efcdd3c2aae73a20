use vstd::prelude::*;
use crate::lifecycle::PipelinePhase;
use crate::router::Router;
use crate::stream::StreamKind;

verus! {

/// How a decode worker ended.
#[derive(Clone, Copy, Debug, PartialEq, Eq, Structural)]
pub enum WorkerOutcome {
    /// The inbound queue closed and the flushed transform was fully drained.
    Done,
    /// The aggregation channel's consumer went away: a quiet stop.
    ConsumerGone,
    /// The transform reported an error: fatal to this worker only.
    Failed,
}

/// What the worker waits for next.
#[derive(Clone, Copy, Debug, PartialEq, Eq, Structural)]
pub enum WorkerPhase {
    /// The next packet from the inbound queue, or its closure.
    Receiving,
    /// The transform's answer to a submitted packet (or to the flush).
    Submitting { flushing: bool },
    /// The transform's answer to a request for its next unit.
    Polling { flushing: bool },
    /// The outcome of forwarding a unit to the aggregation channel.
    Sending { flushing: bool },
    /// The worker has terminated.
    Finished(WorkerOutcome),
}

/// What happened since the worker's last action.
pub enum WorkerEvent<P, U> {
    /// A packet arrived on the inbound queue.
    Packet(P),
    /// The inbound queue is closed and empty.
    Closed,
    /// The transform took the submitted packet, or the flush request.
    Accepted,
    /// The transform reported an error.
    TransformFailed,
    /// The transform produced a unit.
    Produced(U),
    /// The transform has no more units for now.
    Empty,
    /// The forwarded unit reached the aggregation channel.
    Sent,
    /// The aggregation channel has no consumer any more.
    Disconnected,
}

/// What the worker asks to be done next.
pub enum WorkerAction<P, U> {
    /// Wait for the next packet of the inbound queue.
    Receive,
    /// Feed the packet to the transform.
    Submit(P),
    /// Ask the transform to drain what it buffers (end of stream).
    Flush,
    /// Pull the transform's next unit.
    Poll,
    /// Send the unit, tagged with the worker's kind, to the aggregation channel.
    Forward(U),
    /// Terminate with the given outcome.
    Stop(WorkerOutcome),
}

/// The worker's protocol: the phase and action that follow `ev` in `before`.
pub open spec fn worker_transition<P, U>(
    before: WorkerPhase,
    ev: WorkerEvent<P, U>,
    after: WorkerPhase,
    act: WorkerAction<P, U>,
) -> bool {
    match before {
        WorkerPhase::Finished(o) => after == before && act == WorkerAction::<P, U>::Stop(o),
        WorkerPhase::Receiving => match ev {
            WorkerEvent::Packet(p) => after == (WorkerPhase::Submitting { flushing: false })
                && act == WorkerAction::<P, U>::Submit(p),
            _ => after == (WorkerPhase::Submitting { flushing: true }) && act
                == WorkerAction::<P, U>::Flush,
        },
        WorkerPhase::Submitting { flushing } => match ev {
            WorkerEvent::Accepted => after == (WorkerPhase::Polling { flushing }) && act
                == WorkerAction::<P, U>::Poll,
            _ => after == WorkerPhase::Finished(WorkerOutcome::Failed) && act
                == WorkerAction::<P, U>::Stop(WorkerOutcome::Failed),
        },
        WorkerPhase::Polling { flushing } => match ev {
            WorkerEvent::Produced(u) => after == (WorkerPhase::Sending { flushing }) && act
                == WorkerAction::<P, U>::Forward(u),
            WorkerEvent::Empty => if flushing {
                after == WorkerPhase::Finished(WorkerOutcome::Done) && act
                    == WorkerAction::<P, U>::Stop(WorkerOutcome::Done)
            } else {
                after == WorkerPhase::Receiving && act == WorkerAction::<P, U>::Receive
            },
            _ => after == WorkerPhase::Finished(WorkerOutcome::Failed) && act
                == WorkerAction::<P, U>::Stop(WorkerOutcome::Failed),
        },
        WorkerPhase::Sending { flushing } => match ev {
            WorkerEvent::Sent => after == (WorkerPhase::Polling { flushing }) && act
                == WorkerAction::<P, U>::Poll,
            _ => after == WorkerPhase::Finished(WorkerOutcome::ConsumerGone) && act
                == WorkerAction::<P, U>::Stop(WorkerOutcome::ConsumerGone),
        },
    }
}

/// The decisions of one decode worker, which owns one stream transform.
///
/// Besides its phase it keeps, as ghost state, the packets received and
/// submitted, the units the transform produced and those delivered to the
/// aggregation channel, and how often the transform was flushed.
pub struct Worker<P, U> {
    phase: WorkerPhase,
    received: Ghost<Seq<P>>,
    submitted: Ghost<Seq<P>>,
    produced: Ghost<Seq<U>>,
    delivered: Ghost<Seq<U>>,
    flushes: Ghost<nat>,
}

impl WorkerPhase {
    /// True when the phase belongs to the end-of-stream drain.
    pub open spec fn is_flushing(self) -> bool {
        match self {
            WorkerPhase::Submitting { flushing } => flushing,
            WorkerPhase::Polling { flushing } => flushing,
            WorkerPhase::Sending { flushing } => flushing,
            WorkerPhase::Receiving => false,
            WorkerPhase::Finished(_) => false,
        }
    }
}

impl<P, U> WorkerEvent<P, U> {
    /// The events that may follow an action taken in `phase`.
    pub open spec fn fits(&self, phase: WorkerPhase) -> bool {
        match phase {
            WorkerPhase::Receiving => self is Packet || self is Closed,
            WorkerPhase::Submitting { .. } => self is Accepted || self is TransformFailed,
            WorkerPhase::Polling { .. } => self is Produced || self is Empty || self
                is TransformFailed,
            WorkerPhase::Sending { .. } => self is Sent || self is Disconnected,
            WorkerPhase::Finished(_) => true,
        }
    }
}

impl<P, U> WorkerAction<P, U> {
    /// True of the actions that call into the transform.
    pub open spec fn enters_transform(&self) -> bool {
        self is Submit || self is Flush || self is Poll
    }
}

impl<P, U> Worker<P, U> {
    pub closed spec fn phase_spec(&self) -> WorkerPhase {
        self.phase
    }

    /// The packets taken from the inbound queue, in order.
    pub closed spec fn packets_received(&self) -> Seq<P> {
        self.received@
    }

    /// The packets fed to the transform, in order.
    pub closed spec fn packets_submitted(&self) -> Seq<P> {
        self.submitted@
    }

    /// The units the transform produced, in order.
    pub closed spec fn units_produced(&self) -> Seq<U> {
        self.produced@
    }

    /// The units that reached the aggregation channel, in order.
    pub closed spec fn units_delivered(&self) -> Seq<U> {
        self.delivered@
    }

    /// How many times the transform was asked to flush.
    pub closed spec fn flush_count(&self) -> nat {
        self.flushes@
    }

    /// The ghost records agree with the phase.
    pub closed spec fn wf(&self) -> bool {
        &&& self.submitted@ == self.received@
        &&& self.flushes@ <= 1
        &&& (self.phase.is_flushing() || self.phase == WorkerPhase::Finished(WorkerOutcome::Done)
            ==> self.flushes@ == 1)
        &&& (!self.phase.is_flushing() && !(self.phase is Finished) ==> self.flushes@ == 0)
        &&& (self.phase is Sending ==> self.produced@.len() == self.delivered@.len() + 1
            && self.produced@.take(self.delivered@.len() as int) == self.delivered@)
        &&& (!(self.phase is Sending) && self.phase != WorkerPhase::Finished(
            WorkerOutcome::ConsumerGone) ==> self.produced@ == self.delivered@)
        &&& (self.phase == WorkerPhase::Finished(WorkerOutcome::ConsumerGone)
            ==> self.produced@.len() == self.delivered@.len() + 1 && self.produced@.take(
            self.delivered@.len() as int) == self.delivered@)
    }

    /// The worker has ended normally: its queue closed, the transform was
    /// flushed once and drained, and every unit it produced was delivered.
    pub open spec fn drained(&self) -> bool {
        &&& self.phase_spec() == WorkerPhase::Finished(WorkerOutcome::Done)
        &&& self.flush_count() == 1
        &&& self.units_delivered() == self.units_produced()
        &&& self.packets_submitted() == self.packets_received()
    }

    /// What holds in every state of a worker: the packets are fed to the
    /// transform in the order they were received, the units reach the
    /// aggregation channel in the order they were produced (all but the one
    /// being sent, or lost when the consumer left), the transform is flushed at
    /// most once, and a worker that ended normally lost nothing.
    pub proof fn lemma_invariant(&self)
        requires
            self.wf(),
        ensures
            self.packets_submitted() == self.packets_received(),
            self.units_delivered().len() <= self.units_produced().len(),
            self.units_produced().take(self.units_delivered().len() as int)
                == self.units_delivered(),
            self.units_produced().len() <= self.units_delivered().len() + 1,
            self.flush_count() <= 1,
            self.phase_spec() == WorkerPhase::Finished(WorkerOutcome::Done) ==> self.drained(),
    {
        if !(self.phase is Sending) && self.phase != WorkerPhase::Finished(
            WorkerOutcome::ConsumerGone) {
            assert(self.produced@.take(self.delivered@.len() as int) =~= self.delivered@);
        }
    }

    /// A worker about to receive its first packet.
    pub fn new() -> (r: Worker<P, U>)
        ensures
            r.wf(),
            r.phase_spec() == WorkerPhase::Receiving,
            r.packets_received() == Seq::<P>::empty(),
            r.packets_submitted() == Seq::<P>::empty(),
            r.units_produced() == Seq::<U>::empty(),
            r.units_delivered() == Seq::<U>::empty(),
            r.flush_count() == 0,
    {
        Worker {
            phase: WorkerPhase::Receiving,
            received: Ghost(Seq::empty()),
            submitted: Ghost(Seq::empty()),
            produced: Ghost(Seq::empty()),
            delivered: Ghost(Seq::empty()),
            flushes: Ghost(0),
        }
    }

    /// The worker's phase.
    pub fn phase(&self) -> (r: WorkerPhase)
        ensures
            r == self.phase_spec(),
    {
        self.phase
    }

    /// Whether `ev` may follow the worker's last action.
    pub fn accepts(&self, ev: &WorkerEvent<P, U>) -> (r: bool)
        ensures
            r == ev.fits(self.phase_spec()),
    {
        match self.phase {
            WorkerPhase::Receiving => match ev {
                WorkerEvent::Packet(_) | WorkerEvent::Closed => true,
                _ => false,
            },
            WorkerPhase::Submitting { .. } => match ev {
                WorkerEvent::Accepted | WorkerEvent::TransformFailed => true,
                _ => false,
            },
            WorkerPhase::Polling { .. } => match ev {
                WorkerEvent::Produced(_) | WorkerEvent::Empty | WorkerEvent::TransformFailed => true,
                _ => false,
            },
            WorkerPhase::Sending { .. } => match ev {
                WorkerEvent::Sent | WorkerEvent::Disconnected => true,
                _ => false,
            },
            WorkerPhase::Finished(_) => true,
        }
    }
    /// Decides what follows `ev`, records it in the ghost state, and returns
    /// the next action.
    pub fn step(&mut self, ev: WorkerEvent<P, U>) -> (r: WorkerAction<P, U>)
        requires
            old(self).wf(),
            ev.fits(old(self).phase_spec()),
        ensures
            final(self).wf(),
            worker_transition(old(self).phase_spec(), ev, final(self).phase_spec(), r),
            final(self).packets_received() == (match (old(self).phase_spec(), ev) {
                (WorkerPhase::Receiving, WorkerEvent::Packet(p)) => old(self).packets_received().push(p),
                _ => old(self).packets_received(),
            }),
            final(self).units_produced() == (match (old(self).phase_spec(), ev) {
                (WorkerPhase::Polling { .. }, WorkerEvent::Produced(u)) => old(self).units_produced().push(u),
                _ => old(self).units_produced(),
            }),
            final(self).units_delivered() == (match (old(self).phase_spec(), ev) {
                (WorkerPhase::Sending { .. }, WorkerEvent::Sent) => old(self).units_produced(),
                _ => old(self).units_delivered(),
            }),
            final(self).flush_count() == (match (old(self).phase_spec(), ev) {
                (WorkerPhase::Receiving, WorkerEvent::Closed) => old(self).flush_count() + 1,
                _ => old(self).flush_count(),
            }),
            r is Flush ==> old(self).flush_count() == 0,
            old(self).phase_spec() is Finished ==> !r.enters_transform(),
    {
        match self.phase {
            WorkerPhase::Finished(o) => WorkerAction::Stop(o),
            WorkerPhase::Receiving => match ev {
                WorkerEvent::Packet(p) => {
                    proof {
                        self.received = Ghost(self.received@.push(p));
                        self.submitted = Ghost(self.submitted@.push(p));
                    }
                    self.phase = WorkerPhase::Submitting { flushing: false };
                    WorkerAction::Submit(p)
                },
                _ => {
                    proof {
                        self.flushes = Ghost(self.flushes@ + 1);
                    }
                    self.phase = WorkerPhase::Submitting { flushing: true };
                    WorkerAction::Flush
                },
            },
            WorkerPhase::Submitting { flushing } => match ev {
                WorkerEvent::Accepted => {
                    self.phase = WorkerPhase::Polling { flushing };
                    WorkerAction::Poll
                },
                _ => {
                    self.phase = WorkerPhase::Finished(WorkerOutcome::Failed);
                    WorkerAction::Stop(WorkerOutcome::Failed)
                },
            },
            WorkerPhase::Polling { flushing } => match ev {
                WorkerEvent::Produced(u) => {
                    proof {
                        self.produced = Ghost(self.produced@.push(u));
                        assert(self.produced@.take(self.delivered@.len() as int) =~= self.delivered@);
                    }
                    self.phase = WorkerPhase::Sending { flushing };
                    WorkerAction::Forward(u)
                },
                WorkerEvent::Empty => {
                    if flushing {
                        self.phase = WorkerPhase::Finished(WorkerOutcome::Done);
                        WorkerAction::Stop(WorkerOutcome::Done)
                    } else {
                        self.phase = WorkerPhase::Receiving;
                        WorkerAction::Receive
                    }
                },
                _ => {
                    self.phase = WorkerPhase::Finished(WorkerOutcome::Failed);
                    WorkerAction::Stop(WorkerOutcome::Failed)
                },
            },
            WorkerPhase::Sending { flushing } => match ev {
                WorkerEvent::Sent => {
                    proof {
                        self.delivered = Ghost(self.produced@);
                    }
                    self.phase = WorkerPhase::Polling { flushing };
                    WorkerAction::Poll
                },
                _ => {
                    self.phase = WorkerPhase::Finished(WorkerOutcome::ConsumerGone);
                    WorkerAction::Stop(WorkerOutcome::ConsumerGone)
                },
            },
        }
    }
}

/// Per-stream order: when a worker has taken from its FIFO inbound queue a
/// first part of the packets the router sent to its kind, it has fed exactly
/// those packets to its transform, in the order they were read from the
/// source, and the units it delivered are the first units the transform
/// produced, in the order produced.
pub proof fn lemma_per_stream_order<P, U>(router: &Router<P>, worker: &Worker<P, U>, kind: StreamKind)
    requires
        router.wf(),
        worker.wf(),
        worker.packets_received().len() <= router.queued_for(kind).len(),
        worker.packets_received() == router.queued_for(kind).take(
            worker.packets_received().len() as int,
        ),
    ensures
        worker.packets_submitted() == router.queued_for(kind).take(
            worker.packets_submitted().len() as int,
        ),
        worker.units_delivered() == worker.units_produced().take(
            worker.units_delivered().len() as int,
        ),
{
    worker.lemma_invariant();
}

/// No loss under cancellation: once the router has stopped reading (on
/// cancellation or at the end of the source), a worker whose inbound queue
/// handed over every packet routed to it, and which then ended normally, fed
/// all of those packets to its transform in order, flushed it exactly once,
/// and delivered every unit the transform produced, flush output included.
pub proof fn lemma_no_loss_after_cancel<P, U>(
    router: &Router<P>,
    worker: &Worker<P, U>,
    kind: StreamKind,
)
    requires
        router.wf(),
        router.phase_spec() != PipelinePhase::Running,
        worker.wf(),
        worker.packets_received() == router.queued_for(kind),
        worker.phase_spec() == WorkerPhase::Finished(WorkerOutcome::Done),
    ensures
        worker.packets_submitted() == router.queued_for(kind),
        worker.flush_count() == 1,
        worker.units_delivered() == worker.units_produced(),
{
    worker.lemma_invariant();
}

} // verus!
