//! The countdown state machine: a timer is either running towards an absolute
//! end instant or paused with a frozen remaining span. All instants and spans
//! are milliseconds; remaining time is recomputed from the current instant
//! while running, so no drift accumulates across pause/resume cycles.

use vstd::prelude::*;

use crate::clock;

verus! {

/// Mathematical model of a timer: running timers store the absolute instant
/// at which they reach zero, paused timers store the remaining span.
pub enum TimerModel {
    Running { end_at: int },
    Paused { remaining: int },
}

/// A paused timer never stores a negative remaining span: pausing clamps at
/// zero, and a timer is created running.
pub open spec fn model_wf(m: TimerModel) -> bool {
    m matches TimerModel::Paused { remaining } ==> remaining >= 0
}

/// A fresh timer runs towards `now + duration`; a negative duration starts
/// already expired.
pub open spec fn spec_new(duration: int, now: int) -> TimerModel {
    TimerModel::Running { end_at: now + duration }
}

/// The span still left at instant `now`: recomputed from the end instant and
/// clamped at zero while running, read back unchanged while paused.
pub open spec fn spec_remaining(m: TimerModel, now: int) -> int {
    match m {
        TimerModel::Running { end_at } => if end_at <= now { 0 } else { end_at - now },
        TimerModel::Paused { remaining } => remaining,
    }
}

/// Pausing at `now` freezes the remaining span; pausing a paused timer is a
/// no-op.
pub open spec fn spec_pause(m: TimerModel, now: int) -> TimerModel {
    match m {
        TimerModel::Running { .. } => TimerModel::Paused { remaining: spec_remaining(m, now) },
        TimerModel::Paused { .. } => m,
    }
}

/// Resuming at `now` restarts the countdown from the frozen span; resuming a
/// running timer is a no-op.
pub open spec fn spec_resume(m: TimerModel, now: int) -> TimerModel {
    match m {
        TimerModel::Running { .. } => m,
        TimerModel::Paused { remaining } => TimerModel::Running { end_at: now + remaining },
    }
}

/// The single state-mutating command dispatched from the key handler: pause a
/// running timer, resume a paused one.
pub open spec fn spec_toggle(m: TimerModel, now: int) -> TimerModel {
    if m is Running {
        spec_pause(m, now)
    } else {
        spec_resume(m, now)
    }
}

/// Machine limit: while running, the gap from `now` to the end instant must
/// fit a signed 64-bit span before it can be computed.
pub open spec fn remaining_fits(m: TimerModel, now: int) -> bool {
    m matches TimerModel::Running { end_at } ==> end_at - now <= i64::MAX as int
}

/// Machine limit: resuming must place the new end instant within range.
pub open spec fn resume_fits(m: TimerModel, now: int) -> bool {
    m matches TimerModel::Paused { remaining } ==> now + remaining <= i64::MAX as int
}

enum TimerState {
    Running { end_at_ms: i64 },
    Paused { remaining_ms: i64 },
}

/// A countdown timer with pause/resume, queried and mutated at caller-supplied
/// wall-clock instants so that elapsed time can be simulated deterministically.
pub struct Timer {
    state: TimerState,
}

impl View for Timer {
    type V = TimerModel;

    closed spec fn view(&self) -> TimerModel {
        match self.state {
            TimerState::Running { end_at_ms } => TimerModel::Running { end_at: end_at_ms as int },
            TimerState::Paused { remaining_ms } => TimerModel::Paused {
                remaining: remaining_ms as int,
            },
        }
    }
}

impl Timer {
    pub open spec fn wf(&self) -> bool {
        model_wf(self@)
    }

    /// Start a countdown of `duration_ms` at instant `now_ms`. The timer is
    /// created running; a negative duration starts already expired.
    pub fn new(duration_ms: i64, now_ms: i64) -> (t: Timer)
        requires
            i64::MIN <= now_ms + duration_ms <= i64::MAX,
        ensures
            t@ == spec_new(duration_ms as int, now_ms as int),
            t.wf(),
    {
        Timer { state: TimerState::Running { end_at_ms: now_ms + duration_ms } }
    }

    /// True iff no end instant is stored.
    pub fn is_paused(&self) -> (r: bool)
        ensures
            r == (self@ is Paused),
    {
        match self.state {
            TimerState::Running { .. } => false,
            TimerState::Paused { .. } => true,
        }
    }

    /// Freeze the remaining span, clamped at zero; no-op while paused.
    pub fn pause(&mut self, now_ms: i64)
        requires
            old(self).wf(),
            remaining_fits(old(self)@, now_ms as int),
        ensures
            final(self)@ == spec_pause(old(self)@, now_ms as int),
            final(self).wf(),
    {
        match self.state {
            TimerState::Running { end_at_ms } => {
                let remaining_ms: i64 = if end_at_ms <= now_ms {
                    0
                } else {
                    end_at_ms - now_ms
                };
                self.state = TimerState::Paused { remaining_ms };
            },
            TimerState::Paused { .. } => {},
        }
    }

    /// Restart the countdown from the frozen span; no-op while running.
    pub fn resume(&mut self, now_ms: i64)
        requires
            old(self).wf(),
            resume_fits(old(self)@, now_ms as int),
        ensures
            final(self)@ == spec_resume(old(self)@, now_ms as int),
            final(self).wf(),
    {
        match self.state {
            TimerState::Running { .. } => {},
            TimerState::Paused { remaining_ms } => {
                self.state = TimerState::Running { end_at_ms: now_ms + remaining_ms };
            },
        }
    }

    /// The span still left at instant `now_ms`; never negative.
    pub fn remaining_time(&self, now_ms: i64) -> (r: i64)
        requires
            self.wf(),
            remaining_fits(self@, now_ms as int),
        ensures
            r == spec_remaining(self@, now_ms as int),
            r >= 0,
    {
        match self.state {
            TimerState::Running { end_at_ms } => {
                if end_at_ms <= now_ms {
                    0
                } else {
                    end_at_ms - now_ms
                }
            },
            TimerState::Paused { remaining_ms } => remaining_ms,
        }
    }

    /// Start a countdown of `duration_ms` at the current wall-clock instant,
    /// saturating the end instant if the clock reading would push it out of
    /// range. Whatever the clock returned, the result is a fresh running timer.
    pub fn new_now(duration_ms: i64) -> (t: Timer)
        ensures
            t@ is Running,
            t.wf(),
            exists|now: int| t@ == spec_new(duration_ms as int, now),
    {
        let now = clock::now_millis();
        let end_at_ms: i64 = if duration_ms >= 0 {
            if now <= i64::MAX - duration_ms {
                now + duration_ms
            } else {
                i64::MAX
            }
        } else {
            if now >= i64::MIN - duration_ms {
                now + duration_ms
            } else {
                i64::MIN
            }
        };
        proof {
            assert(spec_new(duration_ms as int, end_at_ms - duration_ms) == TimerModel::Running {
                end_at: end_at_ms as int,
            });
        }
        Timer { state: TimerState::Running { end_at_ms } }
    }

    /// Pause at the current wall-clock instant, saturating the frozen span if
    /// the clock reading would push it out of range. Whatever the clock
    /// returned, the result is paused and is some instant's pause of the old
    /// state; a paused timer is left unchanged.
    pub fn pause_now(&mut self)
        requires
            old(self).wf(),
        ensures
            final(self).wf(),
            final(self)@ is Paused,
            old(self)@ is Paused ==> final(self)@ == old(self)@,
            exists|now: int| final(self)@ == spec_pause(old(self)@, now),
    {
        let now = clock::now_millis();
        match self.state {
            TimerState::Running { end_at_ms } => {
                if now >= 0 || end_at_ms <= i64::MAX + now {
                    self.pause(now);
                } else {
                    self.state = TimerState::Paused { remaining_ms: i64::MAX };
                    proof {
                        assert(spec_pause(old(self)@, end_at_ms - i64::MAX) == TimerModel::Paused {
                            remaining: i64::MAX as int,
                        });
                    }
                }
            },
            TimerState::Paused { .. } => {
                proof {
                    assert(spec_pause(old(self)@, 0) == old(self)@);
                }
            },
        }
    }

    /// Resume at the current wall-clock instant, saturating the new end
    /// instant if the clock reading would push it out of range. Whatever the
    /// clock returned, the result is running and is some instant's resume of
    /// the old state; a running timer is left unchanged.
    pub fn resume_now(&mut self)
        requires
            old(self).wf(),
        ensures
            final(self).wf(),
            final(self)@ is Running,
            old(self)@ is Running ==> final(self)@ == old(self)@,
            exists|now: int| final(self)@ == spec_resume(old(self)@, now),
    {
        let now = clock::now_millis();
        match self.state {
            TimerState::Running { .. } => {
                proof {
                    assert(spec_resume(old(self)@, 0) == old(self)@);
                }
            },
            TimerState::Paused { remaining_ms } => {
                if now <= 0 || remaining_ms <= i64::MAX - now {
                    self.resume(now);
                } else {
                    self.state = TimerState::Running { end_at_ms: i64::MAX };
                    proof {
                        assert(spec_resume(old(self)@, i64::MAX - remaining_ms)
                            == TimerModel::Running { end_at: i64::MAX as int });
                    }
                }
            },
        }
    }

    /// The span still left at the current wall-clock instant, saturating if
    /// the gap to the end instant overflows. Never negative; while paused it
    /// is exactly the frozen span, whatever the clock returned.
    pub fn remaining_time_now(&self) -> (r: i64)
        requires
            self.wf(),
        ensures
            r >= 0,
            self@ matches TimerModel::Paused { remaining } ==> r == remaining,
            exists|now: int| r == spec_remaining(self@, now),
    {
        let now = clock::now_millis();
        match self.state {
            TimerState::Running { end_at_ms } => {
                if now >= 0 || end_at_ms <= i64::MAX + now {
                    self.remaining_time(now)
                } else {
                    proof {
                        assert(spec_remaining(self@, end_at_ms - i64::MAX) == i64::MAX as int);
                    }
                    i64::MAX
                }
            },
            TimerState::Paused { remaining_ms } => {
                proof {
                    assert(spec_remaining(self@, 0) == remaining_ms as int);
                }
                remaining_ms
            },
        }
    }

    /// Pause if running, resume if paused: the command a recognized key maps to.
    pub fn toggle(&mut self, now_ms: i64)
        requires
            old(self).wf(),
            remaining_fits(old(self)@, now_ms as int),
            resume_fits(old(self)@, now_ms as int),
        ensures
            final(self)@ == spec_toggle(old(self)@, now_ms as int),
            final(self).wf(),
    {
        if self.is_paused() {
            self.resume(now_ms);
        } else {
            self.pause(now_ms);
        }
    }
}

/// A timer freshly started with a non-negative duration is running, and its
/// remaining time read at the instant of construction is exactly that
/// duration.
pub proof fn lemma_new_remaining(duration: int, now: int)
    requires
        duration >= 0,
    ensures
        spec_new(duration, now) is Running,
        spec_remaining(spec_new(duration, now), now) == duration,
        model_wf(spec_new(duration, now)),
{
}

/// Pausing and immediately resuming at the same instant leaves the remaining
/// time unchanged and the timer running.
pub proof fn lemma_pause_resume_preserves_remaining(m: TimerModel, now: int)
    requires
        model_wf(m),
    ensures
        spec_resume(spec_pause(m, now), now) is Running,
        spec_remaining(spec_resume(spec_pause(m, now), now), now) == spec_remaining(m, now),
{
}

/// Pausing twice, at any two instants, is the same as pausing once: the
/// second pause is a no-op.
pub proof fn lemma_pause_idempotent(m: TimerModel, now1: int, now2: int)
    ensures
        spec_pause(spec_pause(m, now1), now2) == spec_pause(m, now1),
{
}

/// Resuming twice, at any two instants, is the same as resuming once: the
/// second resume is a no-op.
pub proof fn lemma_resume_idempotent(m: TimerModel, now1: int, now2: int)
    ensures
        spec_resume(spec_resume(m, now1), now2) == spec_resume(m, now1),
{
}

/// While running with no pause in between, remaining time never increases
/// from one observation instant to a later one.
pub proof fn lemma_remaining_monotonic(m: TimerModel, now1: int, now2: int)
    requires
        m is Running,
        now1 <= now2,
    ensures
        spec_remaining(m, now2) <= spec_remaining(m, now1),
{
}

/// Once a running countdown has reached zero it stays at exactly zero at
/// every later observation, and still reads zero after being paused then
/// observed at any instant whatever.
pub proof fn lemma_expired_stays_zero(m: TimerModel, now1: int, now2: int, now3: int)
    requires
        m is Running,
        spec_remaining(m, now1) == 0,
        now1 <= now2,
    ensures
        spec_remaining(m, now2) == 0,
        spec_remaining(spec_pause(m, now2), now3) == 0,
{
}

/// While paused, remaining time reads the same at any two instants however
/// far apart: real elapsed time does not count down.
pub proof fn lemma_paused_frozen(m: TimerModel, now1: int, now2: int)
    requires
        m is Paused,
    ensures
        spec_remaining(m, now1) == spec_remaining(m, now2),
{
}

} // verus!
