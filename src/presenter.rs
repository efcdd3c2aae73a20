use vstd::prelude::*;
use crate::stream::{Decoded, StreamKind};

verus! {

/// What the presentation loop waits for next.
#[derive(Clone, Copy, Debug, PartialEq, Eq, Structural)]
pub enum PresenterPhase {
    /// A unit from the aggregation channel, or its closure.
    Receiving,
    /// The result of polling the cancellation event source.
    Polling,
    /// The aggregation channel is closed and drained: the loop is over.
    Stopped,
}

/// What the presentation loop asks for after receiving from the channel.
pub enum Presentation<A, V> {
    /// Queue the samples on the audio sink.
    PlayAudio(A),
    /// Show the picture on the video sink.
    ShowVideo(V),
    /// The channel is closed: every worker is gone; leave the loop.
    Stop,
}

/// What the presentation loop asks for after polling for a stop request.
#[derive(Clone, Copy, Debug, PartialEq, Eq, Structural)]
pub enum PollDecision {
    /// Set the cancellation signal, then keep draining the channel.
    RaiseCancel,
    /// Go on receiving.
    Continue,
}

/// The decisions of the presentation loop.
///
/// It keeps, as ghost state, how many units of each kind it sent to their sink.
pub struct Presenter {
    phase: PresenterPhase,
    cancel_raised: bool,
    received: Ghost<Map<StreamKind, nat>>,
}

impl Presenter {
    pub closed spec fn phase_spec(&self) -> PresenterPhase {
        self.phase
    }

    /// Whether the cancellation signal has been raised.
    pub closed spec fn cancel_raised_spec(&self) -> bool {
        self.cancel_raised
    }

    /// How many units of `kind` came from the aggregation channel and went to
    /// their sink.
    pub closed spec fn received_count(&self, kind: StreamKind) -> nat {
        self.received@[kind]
    }

    pub closed spec fn wf(&self) -> bool {
        &&& self.received@.contains_key(StreamKind::Audio)
        &&& self.received@.contains_key(StreamKind::Video)
    }

    /// A loop about to receive its first unit.
    pub fn new() -> (r: Presenter)
        ensures
            r.wf(),
            r.phase_spec() == PresenterPhase::Receiving,
            !r.cancel_raised_spec(),
            r.received_count(StreamKind::Audio) == 0,
            r.received_count(StreamKind::Video) == 0,
    {
        let ghost zero = map![StreamKind::Audio => 0nat, StreamKind::Video => 0nat];
        Presenter {
            phase: PresenterPhase::Receiving,
            cancel_raised: false,
            received: Ghost(zero),
        }
    }

    /// The loop's phase.
    pub fn phase(&self) -> (r: PresenterPhase)
        ensures
            r == self.phase_spec(),
    {
        self.phase
    }

    /// Whether the cancellation signal has been raised.
    pub fn cancel_raised(&self) -> (r: bool)
        ensures
            r == self.cancel_raised_spec(),
    {
        self.cancel_raised
    }

    /// Decides what becomes of what a receive on the aggregation channel gave:
    /// `Some` unit, or `None` once the channel is closed and empty. Every unit
    /// goes to the sink of its kind, also after cancellation, so that nothing
    /// in flight is lost.
    pub fn on_receive<A, V>(&mut self, unit: Option<Decoded<A, V>>) -> (r: Presentation<A, V>)
        requires
            old(self).wf(),
            old(self).phase_spec() == PresenterPhase::Receiving,
        ensures
            final(self).wf(),
            final(self).cancel_raised_spec() == old(self).cancel_raised_spec(),
            match unit {
                Some(u) => {
                    &&& final(self).phase_spec() == PresenterPhase::Polling
                    &&& r == (match u {
                        Decoded::Audio(a) => Presentation::<A, V>::PlayAudio(a),
                        Decoded::Video(v) => Presentation::<A, V>::ShowVideo(v),
                    })
                },
                None => {
                    &&& final(self).phase_spec() == PresenterPhase::Stopped
                    &&& r == Presentation::<A, V>::Stop
                },
            },
            forall|k: StreamKind|
                #![trigger final(self).received_count(k)]
                final(self).received_count(k) == old(self).received_count(k) + (if unit is Some
                    && unit->0.kind_spec() == k {
                    1nat
                } else {
                    0nat
                }),
    {
        match unit {
            Some(u) => {
                let kind = u.kind();
                proof {
                    self.received = Ghost(self.received@.insert(kind, self.received@[kind] + 1));
                }
                self.phase = PresenterPhase::Polling;
                match u {
                    Decoded::Audio(a) => Presentation::PlayAudio(a),
                    Decoded::Video(v) => Presentation::ShowVideo(v),
                }
            },
            None => {
                self.phase = PresenterPhase::Stopped;
                Presentation::Stop
            },
        }
    }

    /// Decides what follows a poll of the cancellation event source, where
    /// `quit` tells whether a stop was requested. The signal is raised once,
    /// at the first request, and never lowered.
    pub fn on_poll(&mut self, quit: bool) -> (r: PollDecision)
        requires
            old(self).wf(),
            old(self).phase_spec() == PresenterPhase::Polling,
        ensures
            final(self).wf(),
            final(self).phase_spec() == PresenterPhase::Receiving,
            r == (if quit && !old(self).cancel_raised_spec() {
                PollDecision::RaiseCancel
            } else {
                PollDecision::Continue
            }),
            final(self).cancel_raised_spec() == (old(self).cancel_raised_spec() || quit),
            forall|k: StreamKind|
                #![trigger final(self).received_count(k)]
                final(self).received_count(k) == old(self).received_count(k),
    {
        self.phase = PresenterPhase::Receiving;
        if quit && !self.cancel_raised {
            self.cancel_raised = true;
            PollDecision::RaiseCancel
        } else {
            PollDecision::Continue
        }
    }
}

} // verus!
