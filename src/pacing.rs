//! Frame pacing: the time step of a frame and when the render loop wakes next.
//! Times are in nanoseconds.

use vstd::prelude::*;

verus! {

pub const NANOS_PER_SECOND: u64 = 1_000_000_000;

/// Length of one frame at the given refresh rate.
pub open spec fn frame_budget_spec(refresh_rate: u64) -> u64
    recommends
        refresh_rate > 0,
{
    (NANOS_PER_SECOND / refresh_rate) as u64
}

/// What the render loop does at the start of a tick.
pub struct TickStart {
    /// The loop ends instead of drawing.
    pub exit: bool,
    /// Time step handed to animations this frame.
    pub dt_ns: u64,
}

/// Length of one frame at `refresh_rate` frames per second.
pub fn frame_budget_ns(refresh_rate: u64) -> (r: u64)
    requires
        refresh_rate > 0,
    ensures
        r == frame_budget_spec(refresh_rate),
        r as int * refresh_rate as int <= NANOS_PER_SECOND,
{
    let r = NANOS_PER_SECOND / refresh_rate;
    assert(r as int * refresh_rate as int <= NANOS_PER_SECOND) by (nonlinear_arith)
        requires
            r == NANOS_PER_SECOND / refresh_rate,
            refresh_rate > 0,
    ;
    r
}

/// Time step of a frame: the measured time since the previous frame while
/// animating, the nominal frame length while idle.
pub fn frame_delta_ns(was_animating: bool, since_previous_ns: u64, refresh_rate: u64) -> (r: u64)
    requires
        refresh_rate > 0,
    ensures
        r == if was_animating {
            since_previous_ns
        } else {
            frame_budget_spec(refresh_rate)
        },
{
    if was_animating {
        since_previous_ns
    } else {
        frame_budget_ns(refresh_rate)
    }
}

/// Start of a render tick: exit once the running flag is down, else the
/// frame's time step.
pub fn begin_tick(running: bool, was_animating: bool, since_previous_ns: u64, refresh_rate: u64) -> (r: TickStart)
    requires
        refresh_rate > 0,
    ensures
        r.exit == !running,
        running ==> r.dt_ns == (if was_animating {
            since_previous_ns
        } else {
            frame_budget_spec(refresh_rate)
        }),
{
    if !running {
        return TickStart { exit: true, dt_ns: 0 };
    }
    TickStart { exit: false, dt_ns: frame_delta_ns(was_animating, since_previous_ns, refresh_rate) }
}

/// How long to wait after a frame that took `elapsed_ns`: what is left of the
/// frame's budget, or nothing once it is spent.
pub fn remaining_budget_ns(refresh_rate: u64, elapsed_ns: u64) -> (r: u64)
    requires
        refresh_rate > 0,
    ensures
        r == if elapsed_ns < frame_budget_spec(refresh_rate) {
            (frame_budget_spec(refresh_rate) - elapsed_ns) as u64
        } else {
            0
        },
{
    let budget = frame_budget_ns(refresh_rate);
    if elapsed_ns < budget {
        budget - elapsed_ns
    } else {
        0
    }
}

/// The wake deadline after a frame: `now` plus what is left of the budget,
/// held at the largest representable time.
pub fn next_wake_ns(now_ns: u64, refresh_rate: u64, elapsed_ns: u64) -> (r: u64)
    requires
        refresh_rate > 0,
    ensures
        elapsed_ns >= frame_budget_spec(refresh_rate) ==> r == now_ns,
        r as int == if now_ns as int + (frame_budget_spec(refresh_rate) as int - elapsed_ns as int)
            > u64::MAX as int {
            u64::MAX as int
        } else if elapsed_ns < frame_budget_spec(refresh_rate) {
            now_ns as int + (frame_budget_spec(refresh_rate) as int - elapsed_ns as int)
        } else {
            now_ns as int
        },
{
    now_ns.saturating_add(remaining_budget_ns(refresh_rate, elapsed_ns))
}

} // verus!
