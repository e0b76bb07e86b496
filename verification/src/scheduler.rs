//! The poll scheduler: a state machine that drives read/detect cycles on a
//! timing policy — a base interval while reads succeed, exponential backoff
//! capped at a configured bound under repeated read errors, and an immediate
//! reset to the base interval on the first success.

use vstd::prelude::*;
use crate::config::{Config, ConfigError, validation_of};
use crate::content::{ClipContent, ClipboardSnapshot, ReadError, SinkError, SnapshotView};
use crate::detector::{WatcherState, WatcherStateView, is_change, kept_after, note_of, observe};

verus! {

/// Where the watcher stands in its lifecycle. `Stopped` is terminal: no
/// further reads occur after it.
#[derive(Clone, Copy, Debug, PartialEq, Eq, Structural)]
pub enum Phase {
    Idle,
    Polling,
    Backoff,
    Stopped,
}

/// The interval after one more error at or past the threshold: doubled, but
/// never past the cap.
pub open spec fn escalated(interval_ms: u64, cap_ms: u64) -> u64 {
    if 2 * (interval_ms as int) <= cap_ms as int {
        (2 * interval_ms) as u64
    } else {
        cap_ms
    }
}

/// A counter bump that stays put at the largest representable value.
pub open spec fn sat_inc(n: u64) -> u64 {
    if n < u64::MAX {
        (n + 1) as u64
    } else {
        n
    }
}

/// The characters of a notification, if one was produced.
pub open spec fn text_view(note: Option<String>) -> Option<Seq<char>> {
    match note {
        Some(s) => Some(s@),
        None => None,
    }
}

/// The watcher: configuration, lifecycle phase, and the polling task's state.
/// It decides what each cycle does; the embedding application performs the
/// clipboard read, the wait, and the delivery, and hands the outcomes back.
#[derive(Debug)]
pub struct Watcher {
    config: Config,
    phase: Phase,
    state: WatcherState,
    next_sequence: u64,
    sink_error_count: u64,
}

impl Watcher {
    /// The timing policy the watcher was started with.
    pub closed spec fn spec_config(self) -> Config {
        self.config
    }

    /// The lifecycle phase.
    pub closed spec fn spec_phase(self) -> Phase {
        self.phase
    }

    /// The polling state: last snapshot kept, error run, current interval.
    pub closed spec fn spec_state(self) -> WatcherStateView {
        self.state@
    }

    /// The sequence number the next kept snapshot will carry.
    pub closed spec fn spec_next_sequence(self) -> u64 {
        self.next_sequence
    }

    /// How many notifications failed to deliver so far.
    pub closed spec fn spec_sink_error_count(self) -> u64 {
        self.sink_error_count
    }

    /// The watcher's invariant: a valid configuration; an interval between the
    /// base and the cap; before the first read and while reads succeed, the
    /// base interval; backoff only at or past the error threshold.
    pub closed spec fn wf(self) -> bool {
        &&& self.config.wf()
        &&& self.config.base_interval_ms <= self.state@.current_interval_ms
        &&& self.state@.current_interval_ms <= self.config.max_backoff_ms
        &&& self.phase == Phase::Idle ==> {
            &&& self.state@.last_snapshot is None
            &&& self.state@.consecutive_error_count == 0
            &&& self.state@.current_interval_ms == self.config.base_interval_ms
        }
        &&& self.phase == Phase::Polling ==> {
            &&& self.state@.consecutive_error_count < self.config.error_threshold
            &&& self.state@.current_interval_ms == self.config.base_interval_ms
        }
        &&& self.phase == Phase::Backoff ==> self.state@.consecutive_error_count
            >= self.config.error_threshold
    }

    /// Builds an idle watcher, rejecting an invalid configuration before any
    /// polling can begin.
    pub fn new(config: Config) -> (r: Result<Watcher, ConfigError>)
        ensures
            r is Ok <==> config.wf(),
            r matches Err(e) ==> validation_of(config) == Result::<(), ConfigError>::Err(e),
            r matches Ok(w) ==> {
                &&& w.wf()
                &&& w.spec_config() == config
                &&& w.spec_phase() == Phase::Idle
                &&& w.spec_state().last_snapshot is None
                &&& w.spec_state().consecutive_error_count == 0
                &&& w.spec_state().current_interval_ms == config.base_interval_ms
                &&& w.spec_next_sequence() == 0
                &&& w.spec_sink_error_count() == 0
            },
    {
        match config.validate() {
            Ok(()) => Ok(Watcher {
                config,
                phase: Phase::Idle,
                state: WatcherState {
                    last_snapshot: None,
                    consecutive_error_count: 0,
                    current_interval_ms: config.base_interval_ms,
                },
                next_sequence: 0,
                sink_error_count: 0,
            }),
            Err(e) => Err(e),
        }
    }

    /// Begins polling: an idle watcher moves to `Polling`; on any other phase
    /// this changes nothing, so starting twice is harmless.
    pub fn start(&mut self)
        requires
            old(self).wf(),
        ensures
            final(self).wf(),
            old(self).spec_phase() == Phase::Idle ==> final(self).spec_phase() == Phase::Polling,
            old(self).spec_phase() != Phase::Idle ==> final(self).spec_phase() == old(self).spec_phase(),
            final(self).spec_config() == old(self).spec_config(),
            final(self).spec_state() == old(self).spec_state(),
            final(self).spec_next_sequence() == old(self).spec_next_sequence(),
            final(self).spec_sink_error_count() == old(self).spec_sink_error_count(),
    {
        if self.phase == Phase::Idle {
            self.phase = Phase::Polling;
        }
    }

    /// Stops the watcher from any phase; stopping an already-stopped watcher
    /// is a no-op, not an error. After this no further reads are owed.
    pub fn stop(&mut self)
        requires
            old(self).wf(),
        ensures
            final(self).wf(),
            final(self).spec_phase() == Phase::Stopped,
            final(self).spec_config() == old(self).spec_config(),
            final(self).spec_state() == old(self).spec_state(),
            final(self).spec_next_sequence() == old(self).spec_next_sequence(),
            final(self).spec_sink_error_count() == old(self).spec_sink_error_count(),
    {
        self.phase = Phase::Stopped;
    }

    /// Feeds the outcome of one clipboard read into the watcher and returns
    /// the text to notify, if this cycle produced one.
    ///
    /// On a successful read the error run and the interval reset at once, the
    /// phase returns to `Polling`, and the change detector decides: a changed
    /// value is kept as a new snapshot (stamped with `timestamp_ms` and the
    /// next sequence number) and, when it is text, notified; an unchanged
    /// value produces nothing. On a failed read nothing is notified and the
    /// error run grows; once it reaches the threshold the watcher is in
    /// `Backoff` and the interval doubles, capped at the configured bound.
    pub fn on_read(&mut self, outcome: Result<ClipContent, ReadError>, timestamp_ms: u64) -> (note: Option<
        String,
    >)
        requires
            old(self).wf(),
            old(self).spec_phase() == Phase::Polling || old(self).spec_phase() == Phase::Backoff,
        ensures
            final(self).wf(),
            final(self).spec_config() == old(self).spec_config(),
            final(self).spec_sink_error_count() == old(self).spec_sink_error_count(),
            match outcome {
                Ok(content) => {
                    &&& final(self).spec_phase() == Phase::Polling
                    &&& final(self).spec_state().consecutive_error_count == 0
                    &&& final(self).spec_state().current_interval_ms == old(
                        self,
                    ).spec_config().base_interval_ms
                    &&& final(self).spec_state().last_content() == kept_after(
                        old(self).spec_state().last_content(),
                        content@,
                    )
                    &&& text_view(note) == note_of(old(self).spec_state().last_content(), content@)
                    &&& is_change(old(self).spec_state().last_content(), content@) ==> {
                        &&& final(self).spec_state().last_snapshot == Some(
                            SnapshotView {
                                content: content@,
                                timestamp_ms,
                                sequence: old(self).spec_next_sequence(),
                            },
                        )
                        &&& final(self).spec_next_sequence() == sat_inc(
                            old(self).spec_next_sequence(),
                        )
                    }
                    &&& !is_change(old(self).spec_state().last_content(), content@) ==> {
                        &&& final(self).spec_state().last_snapshot == old(
                            self,
                        ).spec_state().last_snapshot
                        &&& final(self).spec_next_sequence() == old(self).spec_next_sequence()
                    }
                },
                Err(_) => {
                    &&& note is None
                    &&& final(self).spec_state().last_snapshot == old(self).spec_state().last_snapshot
                    &&& final(self).spec_next_sequence() == old(self).spec_next_sequence()
                    &&& final(self).spec_state().consecutive_error_count == sat_inc(
                        old(self).spec_state().consecutive_error_count,
                    )
                    &&& sat_inc(old(self).spec_state().consecutive_error_count) >= old(
                        self,
                    ).spec_config().error_threshold ==> {
                        &&& final(self).spec_phase() == Phase::Backoff
                        &&& final(self).spec_state().current_interval_ms == escalated(
                            old(self).spec_state().current_interval_ms,
                            old(self).spec_config().max_backoff_ms,
                        )
                    }
                    &&& sat_inc(old(self).spec_state().consecutive_error_count) < old(
                        self,
                    ).spec_config().error_threshold ==> {
                        &&& final(self).spec_phase() == old(self).spec_phase()
                        &&& final(self).spec_state().current_interval_ms == old(
                            self,
                        ).spec_state().current_interval_ms
                    }
                },
            },
    {
        match outcome {
            Ok(content) => {
                self.state.consecutive_error_count = 0;
                self.state.current_interval_ms = self.config.base_interval_ms;
                self.phase = Phase::Polling;
                let snapshot = ClipboardSnapshot {
                    content,
                    timestamp_ms,
                    sequence: self.next_sequence,
                };
                match observe(snapshot, &mut self.state) {
                    Some(kept) => {
                        self.next_sequence = if self.next_sequence < u64::MAX {
                            self.next_sequence + 1
                        } else {
                            self.next_sequence
                        };
                        match kept.content {
                            ClipContent::Text(t) => Some(t),
                            ClipContent::NonText => None,
                        }
                    },
                    None => None,
                }
            },
            Err(_) => {
                self.state.consecutive_error_count = if self.state.consecutive_error_count
                    < u64::MAX {
                    self.state.consecutive_error_count + 1
                } else {
                    self.state.consecutive_error_count
                };
                if self.state.consecutive_error_count >= self.config.error_threshold {
                    self.phase = Phase::Backoff;
                    let cap = self.config.max_backoff_ms;
                    let cur = self.state.current_interval_ms;
                    self.state.current_interval_ms = if cur <= cap / 2 {
                        cur * 2
                    } else {
                        cap
                    };
                }
                None
            },
        }
    }

    /// Records one failed delivery. Delivery failures are counted for
    /// observability and never stop polling: phase and state are untouched.
    pub fn on_sink_error(&mut self, _error: SinkError) -> (count: u64)
        requires
            old(self).wf(),
        ensures
            final(self).wf(),
            count == sat_inc(old(self).spec_sink_error_count()),
            final(self).spec_sink_error_count() == sat_inc(old(self).spec_sink_error_count()),
            final(self).spec_phase() == old(self).spec_phase(),
            final(self).spec_config() == old(self).spec_config(),
            final(self).spec_state() == old(self).spec_state(),
            final(self).spec_next_sequence() == old(self).spec_next_sequence(),
    {
        self.sink_error_count = if self.sink_error_count < u64::MAX {
            self.sink_error_count + 1
        } else {
            self.sink_error_count
        };
        self.sink_error_count
    }

    /// The current lifecycle phase.
    pub fn phase(&self) -> (p: Phase)
        ensures
            p == self.spec_phase(),
    {
        self.phase
    }

    /// Whether the terminal phase has been reached.
    pub fn is_stopped(&self) -> (r: bool)
        ensures
            r == (self.spec_phase() == Phase::Stopped),
    {
        self.phase == Phase::Stopped
    }

    /// Whether a read cycle is due: only a polling or backed-off watcher reads.
    pub fn is_running(&self) -> (r: bool)
        ensures
            r == (self.spec_phase() == Phase::Polling || self.spec_phase() == Phase::Backoff),
    {
        self.phase == Phase::Polling || self.phase == Phase::Backoff
    }

    /// How long to wait before the next read attempt, in milliseconds.
    pub fn current_interval_ms(&self) -> (r: u64)
        ensures
            r == self.spec_state().current_interval_ms,
    {
        self.state.current_interval_ms
    }

    /// The length of the current run of consecutive read errors.
    pub fn consecutive_errors(&self) -> (r: u64)
        ensures
            r == self.spec_state().consecutive_error_count,
    {
        self.state.consecutive_error_count
    }

    /// How many notifications failed to deliver so far.
    pub fn sink_errors(&self) -> (r: u64)
        ensures
            r == self.spec_sink_error_count(),
    {
        self.sink_error_count
    }

    /// The snapshot the detector currently compares against, if any.
    pub fn last_snapshot(&self) -> (r: &Option<ClipboardSnapshot>)
        ensures
            match r {
                Some(sn) => self.spec_state().last_snapshot == Some(sn@),
                None => self.spec_state().last_snapshot is None,
            },
    {
        &self.state.last_snapshot
    }
}

} // verus!
