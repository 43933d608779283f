//! The polling scheduler as a state machine. The caller performs each
//! [`Action`] (waiting, asking the player registry, reading one player,
//! writing the published identity) and feeds the outcome back as an
//! [`Event`]; [`Monitor::step`] makes every decision in between.
use vstd::prelude::*;

use crate::detect::{emits, should_emit};
use crate::track::{format_identity, identity_of, TrackMetadata, TrackMetadataView};

verus! {

/// Default wait between two scans, in seconds.
pub const TICK_SECS: u64 = 2;

/// Default recovery delay after a failed scan, in seconds.
pub const BACKOFF_SECS: u64 = 5;

/// Where the scheduler stands within its cycle.
#[derive(Clone, Copy, PartialEq, Eq, Structural, Debug)]
pub enum Phase {
    /// Waiting for the next tick.
    Idle,
    /// Waiting for the registry to list the players.
    Finding,
    /// Waiting for the metadata of player `index` out of `count`.
    Reading { count: usize, index: usize },
    /// Waiting for the identity read from player `index` to be written.
    Publishing { count: usize, index: usize },
    /// Waiting out the recovery delay after a failed scan.
    Backoff,
}

/// What the caller must do next.
pub enum Action {
    /// Sleep for this many seconds, then report [`Event::TimerElapsed`].
    Wait(u64),
    /// List the active players; report [`Event::PlayersFound`] or
    /// [`Event::RegistryFailed`].
    FindPlayers,
    /// Read the metadata of the player at this position of the current list;
    /// report [`Event::MetadataRead`] or [`Event::ReadFailed`].
    ReadPlayer(usize),
    /// Overwrite the published location with this identity; report
    /// [`Event::Published`] or [`Event::PublishFailed`].
    Publish(String),
}

/// Mathematical view of [`Action`].
pub enum ActionView {
    Wait(u64),
    FindPlayers,
    ReadPlayer(usize),
    Publish(Seq<char>),
}

impl View for Action {
    type V = ActionView;

    open spec fn view(&self) -> ActionView {
        match self {
            Action::Wait(s) => ActionView::Wait(*s),
            Action::FindPlayers => ActionView::FindPlayers,
            Action::ReadPlayer(i) => ActionView::ReadPlayer(*i),
            Action::Publish(id) => ActionView::Publish(id@),
        }
    }
}

/// The outcome of the last action.
pub enum Event {
    TimerElapsed,
    /// The registry listed this many players.
    PlayersFound(usize),
    RegistryFailed,
    MetadataRead(TrackMetadata),
    ReadFailed,
    Published,
    PublishFailed,
}

/// Mathematical view of [`Event`].
pub enum EventView {
    TimerElapsed,
    PlayersFound(usize),
    RegistryFailed,
    MetadataRead(TrackMetadataView),
    ReadFailed,
    Published,
    PublishFailed,
}

impl View for Event {
    type V = EventView;

    open spec fn view(&self) -> EventView {
        match self {
            Event::TimerElapsed => EventView::TimerElapsed,
            Event::PlayersFound(n) => EventView::PlayersFound(*n),
            Event::RegistryFailed => EventView::RegistryFailed,
            Event::MetadataRead(m) => EventView::MetadataRead(m@),
            Event::ReadFailed => EventView::ReadFailed,
            Event::Published => EventView::Published,
            Event::PublishFailed => EventView::PublishFailed,
        }
    }
}

/// Why a pair of intervals was refused.
#[derive(Clone, Copy, PartialEq, Eq, Structural, Debug)]
pub enum ConfigError {
    /// The recovery delay must be strictly longer than the tick interval.
    BackoffNotLonger,
}

/// Mathematical view of [`Monitor`].
pub struct MonitorView {
    /// The identity last written successfully; empty until the first write.
    pub last_published: Seq<char>,
    /// The identity handed out in the latest [`Action::Publish`].
    pub pending: Seq<char>,
    pub phase: Phase,
    pub tick_secs: u64,
    pub backoff_secs: u64,
}

impl MonitorView {
    /// The state invariant.
    pub open spec fn wf(self) -> bool {
        &&& self.tick_secs < self.backoff_secs
        &&& match self.phase {
            Phase::Reading { count, index } => index < count,
            Phase::Publishing { count, index } => index < count && emits(
                self.pending,
                self.last_published,
            ),
            _ => true,
        }
    }

    /// The same state in another phase.
    pub open spec fn with_phase(self, phase: Phase) -> MonitorView {
        MonitorView { phase, ..self }
    }
}

/// Moves on from player `index` of `count`: to the next player, or back to
/// `Idle` once the list is done.
pub open spec fn advance(s: MonitorView, count: usize, index: usize) -> (MonitorView, ActionView) {
    if index + 1 < count {
        (
            s.with_phase(Phase::Reading { count, index: (index + 1) as usize }),
            ActionView::ReadPlayer((index + 1) as usize),
        )
    } else {
        (s.with_phase(Phase::Idle), ActionView::Wait(s.tick_secs))
    }
}

/// The transition relation: the next state and action after event `e` in
/// state `s`, or `None` where the phase does not wait for such an event.
pub open spec fn next(s: MonitorView, e: EventView) -> Option<(MonitorView, ActionView)> {
    match (s.phase, e) {
        (Phase::Idle, EventView::TimerElapsed) => Some(
            (s.with_phase(Phase::Finding), ActionView::FindPlayers),
        ),
        (Phase::Backoff, EventView::TimerElapsed) => Some(
            (s.with_phase(Phase::Idle), ActionView::Wait(s.tick_secs)),
        ),
        (Phase::Finding, EventView::RegistryFailed) => Some(
            (s.with_phase(Phase::Backoff), ActionView::Wait(s.backoff_secs)),
        ),
        (Phase::Finding, EventView::PlayersFound(n)) => if n > 0 {
            Some(
                (
                    s.with_phase(Phase::Reading { count: n, index: 0 }),
                    ActionView::ReadPlayer(0),
                ),
            )
        } else {
            Some((s.with_phase(Phase::Idle), ActionView::Wait(s.tick_secs)))
        },
        (Phase::Reading { count, index }, EventView::ReadFailed) => Some(advance(s, count, index)),
        (Phase::Reading { count, index }, EventView::MetadataRead(m)) => {
            let id = identity_of(m);
            if emits(id, s.last_published) {
                Some(
                    (
                        MonitorView { pending: id, phase: Phase::Publishing { count, index }, ..s },
                        ActionView::Publish(id),
                    ),
                )
            } else {
                Some(advance(s, count, index))
            }
        },
        (Phase::Publishing { count, index }, EventView::Published) => Some(
            advance(MonitorView { last_published: s.pending, ..s }, count, index),
        ),
        (Phase::Publishing { .. }, EventView::PublishFailed) => Some(
            (s.with_phase(Phase::Backoff), ActionView::Wait(s.backoff_secs)),
        ),
        _ => None,
    }
}

/// A failed metadata read isolates the player it concerns: the scan goes on
/// with the next player of the same list, and the published identity stays.
pub proof fn lemma_read_failure_isolated(s: MonitorView, count: usize, index: usize)
    requires
        s.wf(),
        s.phase == (Phase::Reading { count, index }),
        index + 1 < count,
    ensures
        next(s, EventView::ReadFailed) == Some(
            (
                s.with_phase(Phase::Reading { count, index: (index + 1) as usize }),
                ActionView::ReadPlayer((index + 1) as usize),
            ),
        ),
{
}

/// A failed registry lookup never ends the loop: the monitor waits out the
/// recovery delay, which is longer than a tick, then a tick, and then scans
/// again with the published identity untouched.
pub proof fn lemma_registry_failure_rescans(s: MonitorView)
    requires
        s.wf(),
        s.phase == Phase::Finding,
    ensures
        ({
            let (s1, a1) = next(s, EventView::RegistryFailed).unwrap();
            let (s2, a2) = next(s1, EventView::TimerElapsed).unwrap();
            &&& next(s, EventView::RegistryFailed) is Some
            &&& a1 == ActionView::Wait(s.backoff_secs)
            &&& s.backoff_secs > s.tick_secs
            &&& next(s1, EventView::TimerElapsed) is Some
            &&& a2 == ActionView::Wait(s.tick_secs)
            &&& next(s2, EventView::TimerElapsed) == Some((s, ActionView::FindPlayers))
        }),
{
}

/// A failed write leaves the published identity as it was, so that the
/// same track is tried again on a later tick.
pub proof fn lemma_publish_failure_keeps_last(s: MonitorView)
    requires
        s.wf(),
        s.phase is Publishing,
    ensures
        next(s, EventView::PublishFailed) is Some,
        next(s, EventView::PublishFailed).unwrap().0.last_published == s.last_published,
        next(s, EventView::PublishFailed).unwrap().1 == ActionView::Wait(s.backoff_secs),
{
}

/// The polling scheduler and the one piece of state it keeps: the identity
/// it last published.
pub struct Monitor {
    last_published: String,
    pending: String,
    phase: Phase,
    tick_secs: u64,
    backoff_secs: u64,
}

impl View for Monitor {
    type V = MonitorView;

    closed spec fn view(&self) -> MonitorView {
        MonitorView {
            last_published: self.last_published@,
            pending: self.pending@,
            phase: self.phase,
            tick_secs: self.tick_secs,
            backoff_secs: self.backoff_secs,
        }
    }
}

impl Monitor {
    /// Every monitor is well formed.
    #[verifier::type_invariant]
    spec fn inv(self) -> bool {
        self@.wf()
    }

    /// A monitor with the given tick interval and recovery delay, both in
    /// seconds, idle and with nothing published yet. Refused unless the
    /// recovery delay is strictly longer than the tick interval.
    pub fn with_intervals(tick_secs: u64, backoff_secs: u64) -> (r: Result<Monitor, ConfigError>)
        ensures
            match r {
                Ok(m) => {
                    &&& tick_secs < backoff_secs
                    &&& m@ == (MonitorView {
                        last_published: Seq::empty(),
                        pending: Seq::empty(),
                        phase: Phase::Idle,
                        tick_secs,
                        backoff_secs,
                    })
                },
                Err(e) => backoff_secs <= tick_secs && e == ConfigError::BackoffNotLonger,
            },
    {
        if backoff_secs <= tick_secs {
            return Err(ConfigError::BackoffNotLonger);
        }
        Ok(
            Monitor {
                last_published: String::new(),
                pending: String::new(),
                phase: Phase::Idle,
                tick_secs,
                backoff_secs,
            },
        )
    }

    /// A monitor with the default intervals, idle and with nothing published
    /// yet. Feed it [`Event::TimerElapsed`] to start the first scan.
    pub fn new() -> (r: Monitor)
        ensures
            r@ == (MonitorView {
                last_published: Seq::empty(),
                pending: Seq::empty(),
                phase: Phase::Idle,
                tick_secs: TICK_SECS,
                backoff_secs: BACKOFF_SECS,
            }),
            r@.wf(),
    {
        Monitor {
            last_published: String::new(),
            pending: String::new(),
            phase: Phase::Idle,
            tick_secs: TICK_SECS,
            backoff_secs: BACKOFF_SECS,
        }
    }

    /// The state after returning to the player list at `index` of `count`.
    fn advance(&mut self, count: usize, index: usize) -> (r: Action)
        requires
            index < count,
        ensures
            (final(self)@, r@) == advance(old(self)@, count, index),
    {
        proof {
            use_type_invariant(&*self);
        }
        if index + 1 < count {
            self.phase = Phase::Reading { count, index: index + 1 };
            Action::ReadPlayer(index + 1)
        } else {
            self.phase = Phase::Idle;
            Action::Wait(self.tick_secs)
        }
    }

    /// Takes the outcome of the last action and returns the next action,
    /// following [`next`]. An event that the current phase does not wait for
    /// is refused with `None`, and the state is left as it was.
    pub fn step(&mut self, event: Event) -> (r: Option<Action>)
        ensures
            final(self)@.wf(),
            match r {
                Some(a) => next(old(self)@, event@) == Some((final(self)@, a@)),
                None => next(old(self)@, event@) is None && final(self)@ == old(self)@,
            },
    {
        proof {
            use_type_invariant(&*self);
        }
        match (self.phase, event) {
            (Phase::Idle, Event::TimerElapsed) => {
                self.phase = Phase::Finding;
                Some(Action::FindPlayers)
            },
            (Phase::Backoff, Event::TimerElapsed) => {
                self.phase = Phase::Idle;
                Some(Action::Wait(self.tick_secs))
            },
            (Phase::Finding, Event::RegistryFailed) => {
                self.phase = Phase::Backoff;
                Some(Action::Wait(self.backoff_secs))
            },
            (Phase::Finding, Event::PlayersFound(n)) => {
                if n > 0 {
                    self.phase = Phase::Reading { count: n, index: 0 };
                    Some(Action::ReadPlayer(0))
                } else {
                    self.phase = Phase::Idle;
                    Some(Action::Wait(self.tick_secs))
                }
            },
            (Phase::Reading { count, index }, Event::ReadFailed) => Some(self.advance(count, index)),
            (Phase::Reading { count, index }, Event::MetadataRead(m)) => {
                let id = format_identity(&m);
                if should_emit(&id, &self.last_published) {
                    self.pending = id.clone();
                    self.phase = Phase::Publishing { count, index };
                    Some(Action::Publish(id))
                } else {
                    Some(self.advance(count, index))
                }
            },
            (Phase::Publishing { count, index }, Event::Published) => {
                let action = self.advance(count, index);
                self.last_published = self.pending.clone();
                Some(action)
            },
            (Phase::Publishing { .. }, Event::PublishFailed) => {
                self.phase = Phase::Backoff;
                Some(Action::Wait(self.backoff_secs))
            },
            _ => None,
        }
    }

    /// The identity last written successfully; empty until the first write.
    pub fn last_published(&self) -> (r: &String)
        ensures
            r@ == self@.last_published,
    {
        &self.last_published
    }

    /// Where the monitor stands within its cycle.
    pub fn phase(&self) -> (r: Phase)
        ensures
            r == self@.phase,
    {
        self.phase
    }
}

} // verus!
