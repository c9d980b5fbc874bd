use vstd::prelude::*;

verus! {

/// Milliseconds between consecutive data-frame emissions: ten frames a second.
pub const FRAME_PERIOD_MS: u64 = 100;

/// The delay, in milliseconds, that the pacer asks for before the next
/// data-frame emission, given the period, the time of the last emission
/// (if any) and the current time. A clock that went backwards earns a
/// full period of delay.
pub open spec fn spec_delay(period_ms: u64, last_emit_ms: Option<u64>, now_ms: u64) -> int {
    match last_emit_ms {
        None => 0,
        Some(last) => {
            if now_ms < last {
                period_ms as int
            } else if now_ms - last < period_ms {
                period_ms - (now_ms - last)
            } else {
                0
            }
        },
    }
}

/// Enforces a minimum spacing between consecutive data-frame emissions.
///
/// The pacer only computes delays from timestamps handed to it; it never
/// reads a clock and never sleeps itself, so the caller can substitute a
/// fake clock and a no-op wait for deterministic runs.
pub struct Pacer {
    period_ms: u64,
    last_emit_ms: Option<u64>,
}

impl Pacer {
    /// The minimum spacing this pacer enforces, in milliseconds.
    pub closed spec fn spec_period_ms(self) -> u64 {
        self.period_ms
    }

    /// The time of the last recorded emission, if one has happened.
    pub closed spec fn spec_last_emit_ms(self) -> Option<u64> {
        self.last_emit_ms
    }

    /// A fresh pacer that has seen no emission yet.
    pub fn new(period_ms: u64) -> (p: Pacer)
        ensures
            p.spec_period_ms() == period_ms,
            p.spec_last_emit_ms() is None,
    {
        Pacer { period_ms, last_emit_ms: None }
    }

    /// How long to wait, from `now_ms`, before emitting the next data frame.
    ///
    /// The very first frame, and a frame due after a full period has already
    /// elapsed, may go out at once. The delay never exceeds one period.
    pub fn delay_before_data_ms(&self, now_ms: u64) -> (d: u64)
        ensures
            d == spec_delay(self.spec_period_ms(), self.spec_last_emit_ms(), now_ms),
            d <= self.spec_period_ms(),
            self.spec_last_emit_ms() matches Some(last) ==> (last <= now_ms
                ==> now_ms + d >= last + self.spec_period_ms()),
    {
        match self.last_emit_ms {
            None => 0,
            Some(last) => {
                if now_ms < last {
                    self.period_ms
                } else {
                    let elapsed: u64 = now_ms - last;
                    if elapsed < self.period_ms {
                        self.period_ms - elapsed
                    } else {
                        0
                    }
                }
            },
        }
    }

    /// Record that a frame went out at `now_ms`.
    pub fn record_emit(&mut self, now_ms: u64)
        ensures
            final(self).spec_period_ms() == old(self).spec_period_ms(),
            final(self).spec_last_emit_ms() == Some(now_ms),
    {
        self.last_emit_ms = Some(now_ms);
    }
}

/// Law: under active pacing, consecutive data emissions are at least one
/// period apart. If the previous frame went out at `last` and the next one
/// goes out at or after `now` plus the delay the pacer asked for, then the
/// spacing between the two is at least the period.
pub proof fn lemma_paced_spacing(period_ms: u64, last: u64, now_ms: u64, emit: int)
    requires
        last <= now_ms,
        emit >= now_ms + spec_delay(period_ms, Some(last), now_ms),
    ensures
        emit - last >= period_ms,
{
}

} // verus!
