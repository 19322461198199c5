//! Redeeming an upload token, step by step.
//!
//! A redemption reserves the declared length under the config lock, lets
//! the files stream in with the lock released, and then gives back under
//! the lock what was reserved and not written. The caller does the work:
//! it takes the lock, reads and writes the config, streams the files, and
//! reports each outcome as an [`Event`]. The redemption answers with the
//! next [`Action`].

use vstd::prelude::*;
use crate::bytes::ByteCount;
use crate::config::{is_expired, refunded, reserved, unused};
use crate::config::{UploadConfig, UploadConfigView};
use crate::error::Error;
use crate::timestamp::{Civil, Timestamp};

verus! {

/// What the caller reports.
#[derive(Debug)]
pub enum Event {
    /// Nothing yet: the redemption is to start.
    Begin,
    /// The config was read, at the moment `now`.
    Loaded { config: UploadConfig, now: Timestamp },
    /// The config was written, and the lock released.
    Stored,
    /// The lock was released.
    Released,
    /// The files were streamed: `written` bytes reached the disk as whole
    /// files, and the stream ended as `outcome` says.
    Ingested { written: ByteCount, outcome: Result<(), Error> },
    /// The action failed. Where it was to release the lock in the end, the
    /// lock has been released.
    Failed(Error),
}

/// What the caller is to do next.
#[derive(Debug)]
pub enum Action {
    /// Take the config lock, then read the config.
    Load,
    /// Write this config, then release the lock.
    Store(UploadConfig),
    /// Release the lock and write nothing.
    Release,
    /// Stream the files into the files directory.
    Ingest,
    /// Answer the request.
    Finish(Result<(), Error>),
}

/// An event as plain values.
pub enum EventView {
    Begin,
    Loaded { config: UploadConfigView, now: Civil },
    Stored,
    Released,
    Ingested { written: ByteCount, outcome: Result<(), Error> },
    Failed(Error),
}

/// An action as plain values.
pub enum ActionView {
    Load,
    Store(UploadConfigView),
    Release,
    Ingest,
    Finish(Result<(), Error>),
}

impl View for Event {
    type V = EventView;

    open spec fn view(&self) -> EventView {
        match *self {
            Event::Begin => EventView::Begin,
            Event::Loaded { config, now } => EventView::Loaded { config: config@, now: now@ },
            Event::Stored => EventView::Stored,
            Event::Released => EventView::Released,
            Event::Ingested { written, outcome } => EventView::Ingested { written, outcome },
            Event::Failed(e) => EventView::Failed(e),
        }
    }
}

impl View for Action {
    type V = ActionView;

    open spec fn view(&self) -> ActionView {
        match *self {
            Action::Load => ActionView::Load,
            Action::Store(config) => ActionView::Store(config@),
            Action::Release => ActionView::Release,
            Action::Ingest => ActionView::Ingest,
            Action::Finish(outcome) => ActionView::Finish(outcome),
        }
    }
}

/// How far a redemption has come.
#[derive(Debug, Clone, Copy, PartialEq, Eq)]
pub enum Phase {
    /// Not started.
    Idle,
    /// The config is being read, for the reservation.
    Reserving,
    /// The config with the reservation is being written.
    StoringReservation { reserved: ByteCount },
    /// The files are streaming in.
    Ingesting { reserved: ByteCount },
    /// The config is being read, for the refund.
    Refunding { reserved: ByteCount, written: ByteCount, outcome: Result<(), Error> },
    /// The config with the refund is being written.
    StoringRefund { outcome: Result<(), Error> },
    /// The lock is being released, with nothing written.
    Releasing { outcome: Result<(), Error> },
    /// The request has its answer.
    Finished { outcome: Result<(), Error> },
}

/// The redemption of one upload token by one request.
#[derive(Debug, Clone, Copy, PartialEq, Eq)]
pub struct Redemption {
    /// The length that the request declared.
    pub declared: u64,
    pub phase: Phase,
}

impl Phase {
    /// Whether the caller holds the config lock while it does what this
    /// phase waits for.
    pub open spec fn holds_lock(self) -> bool {
        self is Reserving || self is StoringReservation || self is Refunding
            || self is StoringRefund || self is Releasing
    }
}

impl Redemption {
    /// The state and the action that follow an event.
    ///
    /// The reservation is made on the config as it was read, for the moment
    /// at which it was read. A request that is refused leaves the config
    /// unwritten. Once the files have streamed, the refund is made on the
    /// config as it is read then, whatever became of the stream, and the
    /// outcome of the stream is the answer, unless the refund itself fails.
    /// An event that does not answer the pending action ends the redemption
    /// as an I/O failure, after the lock has been released.
    pub open spec fn next(self, event: EventView) -> (Redemption, ActionView) {
        match (self.phase, event) {
            (Phase::Idle, EventView::Begin) => (self.at(Phase::Reserving), ActionView::Load),
            (Phase::Reserving, EventView::Loaded { config, now }) => match reserved(
                config,
                is_expired(now, config.expiry),
                self.declared as int,
            ) {
                Ok(left) => (
                    self.at(Phase::StoringReservation { reserved: ByteCount(self.declared as usize) }),
                    ActionView::Store(left),
                ),
                Err(e) => (self.at(Phase::Releasing { outcome: Err(e) }), ActionView::Release),
            },
            (Phase::Reserving, EventView::Failed(e)) => (
                self.at(Phase::Releasing { outcome: Err(e) }),
                ActionView::Release,
            ),
            (Phase::StoringReservation { reserved }, EventView::Stored) => (
                self.at(Phase::Ingesting { reserved }),
                ActionView::Ingest,
            ),
            (Phase::StoringReservation { .. }, EventView::Failed(e)) => (
                self.at(Phase::Finished { outcome: Err(e) }),
                ActionView::Finish(Err(e)),
            ),
            (Phase::Ingesting { reserved }, EventView::Ingested { written, outcome }) => (
                self.at(Phase::Refunding { reserved, written, outcome }),
                ActionView::Load,
            ),
            (Phase::Refunding { reserved, written, outcome }, EventView::Loaded { config, .. }) => (
                self.at(Phase::StoringRefund { outcome }),
                ActionView::Store(refunded(config, reserved@, written@)),
            ),
            (Phase::Refunding { .. }, EventView::Failed(e)) => (
                self.at(Phase::Releasing { outcome: Err(e) }),
                ActionView::Release,
            ),
            (Phase::StoringRefund { outcome }, EventView::Stored) => (
                self.at(Phase::Finished { outcome }),
                ActionView::Finish(outcome),
            ),
            (Phase::StoringRefund { .. }, EventView::Failed(e)) => (
                self.at(Phase::Finished { outcome: Err(e) }),
                ActionView::Finish(Err(e)),
            ),
            (Phase::Releasing { outcome }, EventView::Released) => (
                self.at(Phase::Finished { outcome }),
                ActionView::Finish(outcome),
            ),
            (Phase::Releasing { .. }, _) => (self, ActionView::Release),
            (Phase::Finished { outcome }, _) => (self, ActionView::Finish(outcome)),
            _ => if self.phase.holds_lock() {
                (
                    self.at(Phase::Releasing { outcome: Err(Error::IoFailure) }),
                    ActionView::Release,
                )
            } else {
                (
                    self.at(Phase::Finished { outcome: Err(Error::IoFailure) }),
                    ActionView::Finish(Err(Error::IoFailure)),
                )
            },
        }
    }

    /// This redemption in another phase.
    pub open spec fn at(self, phase: Phase) -> Redemption {
        Redemption { phase, ..self }
    }

    /// Whether the refund that `event` asks for stays in the range of the
    /// machine word. It does whenever the quota that is read is no more
    /// than what this redemption left of the quota that it read first.
    pub open spec fn in_range(self, event: EventView) -> bool {
        match (self.phase, event) {
            (Phase::Refunding { reserved, written, .. }, EventView::Loaded { config, .. }) => {
                config.space_quota + unused(reserved@, written@) <= usize::MAX
            },
            _ => true,
        }
    }

    /// A redemption that has not started.
    pub open spec fn new_spec(declared: u64) -> Redemption {
        Redemption { declared, phase: Phase::Idle }
    }

    /// The redemption of a request that declares `declared` bytes.
    pub fn new(declared: u64) -> (r: Redemption)
        ensures
            r == Redemption::new_spec(declared),
    {
        Redemption { declared, phase: Phase::Idle }
    }

    /// Whether `step` can take `event`: see `in_range`.
    pub fn accepts(&self, event: &Event) -> (r: bool)
        ensures
            r == self.in_range(event@),
    {
        match (&self.phase, event) {
            (Phase::Refunding { reserved, written, .. }, Event::Loaded { config, .. }) => {
                config.refund_fits(*reserved, *written)
            },
            _ => true,
        }
    }

    /// Takes an event and says what to do next.
    pub fn step(&mut self, event: Event) -> (action: Action)
        requires
            old(self).in_range(event@),
        ensures
            (*final(self), action@) == old(self).next(event@),
    {
        let phase = self.phase;
        if let Phase::Finished { outcome } = phase {
            return Action::Finish(outcome);
        }
        if let Phase::Releasing { outcome } = phase {
            return match event {
                Event::Released => {
                    self.phase = Phase::Finished { outcome };
                    Action::Finish(outcome)
                },
                _ => Action::Release,
            };
        }
        match event {
            Event::Begin => match phase {
                Phase::Idle => {
                    self.phase = Phase::Reserving;
                    Action::Load
                },
                _ => self.give_up(),
            },
            Event::Loaded { config, now } => match phase {
                Phase::Reserving => match config.reserve_at(&now, self.declared) {
                    Ok(left) => {
                        self.phase = Phase::StoringReservation {
                            reserved: ByteCount(self.declared as usize),
                        };
                        Action::Store(left)
                    },
                    Err(e) => {
                        self.phase = Phase::Releasing { outcome: Err(e) };
                        Action::Release
                    },
                },
                Phase::Refunding { reserved, written, outcome } => {
                    self.phase = Phase::StoringRefund { outcome };
                    Action::Store(config.refund(reserved, written))
                },
                _ => self.give_up(),
            },
            Event::Stored => match phase {
                Phase::StoringReservation { reserved } => {
                    self.phase = Phase::Ingesting { reserved };
                    Action::Ingest
                },
                Phase::StoringRefund { outcome } => {
                    self.phase = Phase::Finished { outcome };
                    Action::Finish(outcome)
                },
                _ => self.give_up(),
            },
            Event::Released => self.give_up(),
            Event::Ingested { written, outcome } => match phase {
                Phase::Ingesting { reserved } => {
                    self.phase = Phase::Refunding { reserved, written, outcome };
                    Action::Load
                },
                _ => self.give_up(),
            },
            Event::Failed(e) => match phase {
                Phase::Reserving | Phase::Refunding { .. } => {
                    self.phase = Phase::Releasing { outcome: Err(e) };
                    Action::Release
                },
                Phase::StoringReservation { .. } | Phase::StoringRefund { .. } => {
                    self.phase = Phase::Finished { outcome: Err(e) };
                    Action::Finish(Err(e))
                },
                _ => self.give_up(),
            },
        }
    }

    /// Ends the redemption as an I/O failure, by way of releasing the lock
    /// where it is held.
    fn give_up(&mut self) -> (action: Action)
        ensures
            old(self).phase.holds_lock() ==> final(self).phase == (Phase::Releasing {
                outcome: Err(Error::IoFailure),
            }) && action@ == ActionView::Release,
            !old(self).phase.holds_lock() ==> final(self).phase == (Phase::Finished {
                outcome: Err(Error::IoFailure),
            }) && action@ == ActionView::Finish(Err(Error::IoFailure)),
            final(self).declared == old(self).declared,
    {
        let held = match self.phase {
            Phase::Reserving => true,
            Phase::StoringReservation { .. } => true,
            Phase::Refunding { .. } => true,
            Phase::StoringRefund { .. } => true,
            Phase::Releasing { .. } => true,
            _ => false,
        };
        if held {
            self.phase = Phase::Releasing { outcome: Err(Error::IoFailure) };
            Action::Release
        } else {
            self.phase = Phase::Finished { outcome: Err(Error::IoFailure) };
            Action::Finish(Err(Error::IoFailure))
        }
    }
}

/// The lock is held for one reading and writing of the config at a time,
/// and never while the files stream in: a step that starts to read takes
/// the lock from a state without it, a step that asks to write or to
/// release is made with the lock held, and a step that asks to stream the
/// files or to answer the request leaves the lock released.
pub proof fn lemma_lock_discipline(state: Redemption, event: EventView)
    ensures
        ({
            let (after, action) = state.next(event);
            &&& action is Load ==> !state.phase.holds_lock() && after.phase.holds_lock()
            &&& action is Store ==> state.phase.holds_lock() && after.phase.holds_lock()
            &&& action is Release ==> state.phase.holds_lock() && after.phase.holds_lock()
            &&& action is Ingest ==> !after.phase.holds_lock()
            &&& action is Finish ==> !after.phase.holds_lock()
        }),
{
}

/// Files stream in only after a reservation has been stored, and whatever
/// becomes of the stream, the next step is to read the config for the
/// refund.
pub proof fn lemma_refund_follows_the_stream(state: Redemption, event: EventView)
    ensures
        state.next(event).1 is Ingest ==> state.phase is StoringReservation && event is Stored,
        state.phase is Ingesting && event is Ingested ==> state.next(event).1 is Load
            && state.next(event).0.phase is Refunding,
        state.phase is Refunding && event is Loaded ==> state.next(event).1 is Store,
{
}

/// A redemption that nothing disturbs: the reservation is stored, the files
/// stream in, the refund is stored, and the answer is the outcome of the
/// stream. What is stored first is the config that was read less the
/// declared length; what is stored last is the config that was read then
/// plus what was reserved and not written.
pub proof fn lemma_redemption_runs(
    declared: u64,
    first: UploadConfigView,
    now: Civil,
    written: ByteCount,
    outcome: Result<(), Error>,
    second: UploadConfigView,
    later: Civil,
)
    requires
        !is_expired(now, first.expiry),
        declared <= first.space_quota <= usize::MAX,
    ensures
        ({
            let start = Redemption { declared, phase: Phase::Idle };
            let (s1, a1) = start.next(EventView::Begin);
            let (s2, a2) = s1.next(EventView::Loaded { config: first, now });
            let (s3, a3) = s2.next(EventView::Stored);
            let (s4, a4) = s3.next(EventView::Ingested { written, outcome });
            let (s5, a5) = s4.next(EventView::Loaded { config: second, now: later });
            let (s6, a6) = s5.next(EventView::Stored);
            &&& a1 == ActionView::Load
            &&& a2 == ActionView::Store(
                UploadConfigView { space_quota: first.space_quota - declared, ..first },
            )
            &&& a3 == ActionView::Ingest
            &&& a4 == ActionView::Load
            &&& a5 == ActionView::Store(
                UploadConfigView {
                    space_quota: second.space_quota + unused(declared as int, written@),
                    ..second
                },
            )
            &&& a6 == ActionView::Finish(outcome)
        }),
{
}

/// A redemption that comes after the expiry, or that declares more than
/// the quota, writes nothing and streams nothing: the lock is released and
/// the request refused.
pub proof fn lemma_refused_redemption(declared: u64, config: UploadConfigView, now: Civil)
    requires
        is_expired(now, config.expiry) || declared > config.space_quota,
    ensures
        ({
            let start = Redemption { declared, phase: Phase::Idle };
            let (s1, a1) = start.next(EventView::Begin);
            let (s2, a2) = s1.next(EventView::Loaded { config, now });
            let (s3, a3) = s2.next(EventView::Released);
            let refusal = if is_expired(now, config.expiry) {
                Error::Expired
            } else {
                Error::OutOfSpace
            };
            &&& a1 == ActionView::Load
            &&& a2 == ActionView::Release
            &&& a3 == ActionView::Finish(Err(refusal))
        }),
{
}

} // verus!
