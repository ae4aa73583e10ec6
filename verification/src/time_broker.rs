//! The time broker: owns the cancel latch and the search duration
//! computed from the time control.
//!
//! Starting the deferred timer task itself needs a runtime, so it lives
//! with the surrounding program; the broker computes the duration and
//! owns the latch.

use vstd::prelude::*;
use crate::types::Color;
use crate::channel::{new_cancel_channel, send_stop_signal, clone_receiver};

verus! {

/// The search duration substituted when a time control gives none or a
/// nonsensical one: ten seconds.
pub const DEFAULT_MOVE_TIME_MS: u64 = 10000;

/// A time control, as the `go` command carries it: milliseconds as
/// signed numbers, negative ones denoting nonsensical controls that are
/// replaced by the default.
#[derive(Copy, Clone, Debug)]
pub enum TimeControl {
    Ponder,
    Infinite,
    TimeLeft {
        white_time_ms: i64,
        black_time_ms: i64,
        white_increment_ms: Option<i64>,
        black_increment_ms: Option<i64>,
        moves_to_go: Option<u64>,
    },
    MoveTime { millis: i64 },
}

/// The search duration a time control allots to the given side:
/// `MoveTime` uses its duration; `TimeLeft` uses this side's increment,
/// the default standing in for a missing or negative one; any other
/// control gives none.  A zero duration becomes the default.
pub open spec fn spec_seed_duration(own_color: Color, tc: TimeControl) -> Option<u64> {
    let raw = match tc {
        TimeControl::MoveTime { millis } => if millis >= 0 {
            Some(millis as u64)
        } else {
            None
        },
        TimeControl::TimeLeft { white_increment_ms, black_increment_ms, .. } => {
            let inc = match own_color {
                Color::White => white_increment_ms,
                Color::Black => black_increment_ms,
            };
            match inc {
                Some(ms) => if ms >= 0 {
                    Some(ms as u64)
                } else {
                    Some(DEFAULT_MOVE_TIME_MS)
                },
                None => Some(DEFAULT_MOVE_TIME_MS),
            }
        },
        _ => None,
    };
    if raw == Some(0u64) {
        Some(DEFAULT_MOVE_TIME_MS)
    } else {
        raw
    }
}

/// Whether a time control asks for the deferred stop timer.
pub open spec fn spec_wants_timer(tc: TimeControl) -> bool {
    tc is TimeLeft || tc is MoveTime
}

pub struct TimeBroker {
    pub cancel_sender: tokio::sync::watch::Sender<bool>,
    pub cancel_receiver: tokio::sync::watch::Receiver<bool>,
    pub duration_ms: Option<u64>,
}

impl TimeBroker {
    /// A fresh broker with its own latch and no duration.
    pub fn new() -> (r: TimeBroker)
        ensures
            r.duration_ms is None,
    {
        let (cancel_sender, cancel_receiver) = new_cancel_channel();
        TimeBroker { cancel_sender, cancel_receiver, duration_ms: None }
    }

    /// Compute and store the duration the time control allots to the
    /// side the engine plays.
    pub fn seed_time_control(&mut self, own_color: Color, time_control: &TimeControl)
        ensures
            final(self).duration_ms == spec_seed_duration(own_color, *time_control),
            final(self).cancel_sender == old(self).cancel_sender,
            final(self).cancel_receiver == old(self).cancel_receiver,
    {
        let raw: Option<u64> = match time_control {
            TimeControl::MoveTime { millis } => {
                if *millis >= 0 {
                    Some(*millis as u64)
                } else {
                    None
                }
            },
            TimeControl::TimeLeft { white_increment_ms, black_increment_ms, .. } => {
                let inc = match own_color {
                    Color::White => white_increment_ms,
                    Color::Black => black_increment_ms,
                };
                match inc {
                    Some(ms) => {
                        if *ms >= 0 {
                            Some(*ms as u64)
                        } else {
                            Some(DEFAULT_MOVE_TIME_MS)
                        }
                    },
                    None => Some(DEFAULT_MOVE_TIME_MS),
                }
            },
            _ => None,
        };
        self.duration_ms = match raw {
            Some(0u64) => Some(DEFAULT_MOVE_TIME_MS),
            other => other,
        };
    }

    /// Replace the latch with a fresh one for the next search; a stop
    /// signalled to an earlier search no longer cancels the new one.
    pub fn reset_latch(&mut self)
        ensures
            final(self).duration_ms == old(self).duration_ms,
    {
        let (cancel_sender, cancel_receiver) = new_cancel_channel();
        self.cancel_sender = cancel_sender;
        self.cancel_receiver = cancel_receiver;
    }

    /// Signal cancellation at once.
    pub fn send_stop(&self) {
        send_stop_signal(&self.cancel_sender);
    }

    /// Another receiver of the broker's latch.
    pub fn get_cancel_receiver(&self) -> tokio::sync::watch::Receiver<bool> {
        clone_receiver(&self.cancel_receiver)
    }
}

} // verus!
