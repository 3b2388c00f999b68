//! Decisions of the tick-driven render/input loop. The shell around the
//! library renders, blocks for input up to the budget computed here, and
//! hands each key event to the dispatcher; the loop keeps running until the
//! dispatcher answers `Terminated` on the quit key.

use vstd::prelude::*;

use crate::timer::{
    remaining_fits, resume_fits, spec_toggle, Timer,
};

verus! {

/// The key that terminates the loop.
pub const QUIT_KEY: char = 'q';

/// The key that pauses a running timer and resumes a paused one.
pub const TOGGLE_KEY: char = ' ';

/// The two states of the loop: it keeps iterating until the quit key arrives,
/// then returns control to the caller.
pub enum LoopStatus {
    Running,
    Terminated,
}

/// How long the loop may still block for input within the current tick: the
/// tick rate minus the time already elapsed since the last tick boundary,
/// clamped at zero once overdue. Never more than one tick rate, so with no
/// input the loop reaches its next render within one tick interval.
pub fn poll_budget(tick_rate_ms: u64, elapsed_ms: u64) -> (budget: u64)
    ensures
        budget == if elapsed_ms >= tick_rate_ms {
            0int
        } else {
            tick_rate_ms - elapsed_ms
        },
        budget <= tick_rate_ms,
{
    if elapsed_ms >= tick_rate_ms {
        0
    } else {
        tick_rate_ms - elapsed_ms
    }
}

/// Tick bookkeeping at the end of an iteration: once a full tick rate has
/// elapsed since the last boundary, the boundary moves to `now_ms`; otherwise
/// it stays.
pub fn next_tick_origin(last_tick_ms: u64, now_ms: u64, tick_rate_ms: u64) -> (origin: u64)
    requires
        last_tick_ms <= now_ms,
    ensures
        origin == if now_ms - last_tick_ms >= tick_rate_ms {
            now_ms as int
        } else {
            last_tick_ms as int
        },
{
    if now_ms - last_tick_ms >= tick_rate_ms {
        now_ms
    } else {
        last_tick_ms
    }
}

/// Route one key event observed at instant `now_ms`: the quit key terminates
/// the loop and leaves the timer alone, the toggle key pauses or resumes the
/// timer, and every other key is ignored. The loop terminates on the quit key
/// and on nothing else.
pub fn dispatch_key(timer: &mut Timer, key: char, now_ms: i64) -> (status: LoopStatus)
    requires
        old(timer).wf(),
        key == TOGGLE_KEY ==> remaining_fits(old(timer)@, now_ms as int),
        key == TOGGLE_KEY ==> resume_fits(old(timer)@, now_ms as int),
    ensures
        final(timer).wf(),
        status is Terminated <==> key == QUIT_KEY,
        key == TOGGLE_KEY ==> final(timer)@ == spec_toggle(old(timer)@, now_ms as int),
        key != TOGGLE_KEY ==> final(timer)@ == old(timer)@,
{
    if key == QUIT_KEY {
        LoopStatus::Terminated
    } else if key == TOGGLE_KEY {
        timer.toggle(now_ms);
        LoopStatus::Running
    } else {
        LoopStatus::Running
    }
}

} // verus!
