//! The redraw scheduler: decides, once per render tick, whether a frame is drawn.

use vstd::prelude::*;

verus! {

/// The three states of the scheduler.
pub enum SchedulerState {
    Idle,
    FrameQueued,
    Animating,
}

/// Abstract value of a scheduler: a queued frame and the animation flag.
pub struct SchedulerModel {
    pub pending_frame: bool,
    pub animating: bool,
}

/// One operation that a caller can perform on the scheduler without drawing.
pub enum SchedulerOp {
    Queue,
    FinishFrame(bool),
}

/// Decides when the render loop must redraw.
pub struct RedrawScheduler {
    pending_frame: bool,
    animating: bool,
}

pub open spec fn state_of(m: SchedulerModel) -> SchedulerState {
    if m.animating {
        SchedulerState::Animating
    } else if m.pending_frame {
        SchedulerState::FrameQueued
    } else {
        SchedulerState::Idle
    }
}

/// Effect of `queue_next_frame`: a frame becomes due. While a frame is already
/// due or the scheduler is animating, the state (`state_of`) does not change.
pub open spec fn queue_spec(m: SchedulerModel) -> SchedulerModel {
    SchedulerModel { pending_frame: true, animating: m.animating }
}

/// Whether `should_draw` answers true.
pub open spec fn draws_spec(m: SchedulerModel, no_idle: bool) -> bool {
    no_idle || m.pending_frame || m.animating
}

/// State after `should_draw`: the queued flag is cleared.
pub open spec fn after_draw_check_spec(m: SchedulerModel) -> SchedulerModel {
    SchedulerModel { pending_frame: false, animating: m.animating }
}

/// State after the render loop reports whether animation goes on.
pub open spec fn finish_spec(m: SchedulerModel, animating: bool) -> SchedulerModel {
    SchedulerModel { pending_frame: m.pending_frame, animating }
}

pub open spec fn apply_op(m: SchedulerModel, op: SchedulerOp) -> SchedulerModel {
    match op {
        SchedulerOp::Queue => queue_spec(m),
        SchedulerOp::FinishFrame(a) => finish_spec(m, a),
    }
}

/// State after a sequence of operations, none of which is a draw check.
pub open spec fn apply_ops(m: SchedulerModel, ops: Seq<SchedulerOp>) -> SchedulerModel
    decreases ops.len(),
{
    if ops.len() == 0 {
        m
    } else {
        apply_op(apply_ops(m, ops.drop_last()), ops.last())
    }
}

/// State after `k` consecutive `queue_next_frame` calls.
pub open spec fn queue_times(m: SchedulerModel, k: nat) -> SchedulerModel
    decreases k,
{
    if k == 0 {
        m
    } else {
        queue_spec(queue_times(m, (k - 1) as nat))
    }
}

impl View for RedrawScheduler {
    type V = SchedulerModel;

    closed spec fn view(&self) -> SchedulerModel {
        SchedulerModel { pending_frame: self.pending_frame, animating: self.animating }
    }
}

impl RedrawScheduler {
    /// A scheduler in the `Idle` state.
    pub fn new() -> (r: RedrawScheduler)
        ensures
            r@ == (SchedulerModel { pending_frame: false, animating: false }),
            state_of(r@) == SchedulerState::Idle,
    {
        RedrawScheduler { pending_frame: false, animating: false }
    }

    /// Marks that the screen changed and a frame is due.
    pub fn queue_next_frame(&mut self)
        ensures
            final(self)@ == queue_spec(old(self)@),
            state_of(final(self)@) != SchedulerState::Idle,
    {
        self.pending_frame = true;
    }

    /// Whether a frame is drawn on this tick; clears the queued flag.
    /// With `no_idle` a frame is drawn on every tick.
    pub fn should_draw(&mut self, no_idle: bool) -> (r: bool)
        ensures
            r == draws_spec(old(self)@, no_idle),
            final(self)@ == after_draw_check_spec(old(self)@),
    {
        let r = no_idle || self.pending_frame || self.animating;
        self.pending_frame = false;
        r
    }

    /// Feeds back whether the last draw asked for continued animation.
    pub fn finish_frame(&mut self, animating: bool)
        ensures
            final(self)@ == finish_spec(old(self)@, animating),
    {
        self.animating = animating;
    }

    /// Whether the scheduler currently has nothing to draw.
    pub fn is_idle(&self) -> (r: bool)
        ensures
            r == (state_of(self@) == SchedulerState::Idle),
    {
        !self.animating && !self.pending_frame
    }
}

/// Queueing a frame any number of times before a draw check yields exactly one
/// drawn frame: the check after the queued ones answers true, and a second
/// check right after it answers false when the scheduler was not animating and
/// frames are not forced.
pub proof fn lemma_queue_idempotent(m: SchedulerModel, k: nat)
    requires
        k >= 1,
        !m.animating,
    ensures
        queue_times(m, k) == queue_spec(m),
        draws_spec(queue_times(m, k), false),
        !draws_spec(after_draw_check_spec(queue_times(m, k)), false),
    decreases k,
{
    if k > 1 {
        lemma_queue_idempotent(m, (k - 1) as nat);
        assert(queue_times(m, k) == queue_spec(queue_times(m, (k - 1) as nat)));
    } else {
        assert(queue_times(m, 0) == m);
    }
}

/// After a frame is queued, the next draw check answers true, whatever
/// queueing and frame reports happened in between.
pub proof fn lemma_queue_then_draw(m: SchedulerModel, ops: Seq<SchedulerOp>, no_idle: bool)
    ensures
        draws_spec(apply_ops(queue_spec(m), ops), no_idle),
    decreases ops.len(),
{
    if ops.len() > 0 {
        lemma_queue_then_draw(m, ops.drop_last(), no_idle);
        lemma_queue_then_draw_pending(m, ops);
    }
}

proof fn lemma_queue_then_draw_pending(m: SchedulerModel, ops: Seq<SchedulerOp>)
    ensures
        apply_ops(queue_spec(m), ops).pending_frame,
    decreases ops.len(),
{
    if ops.len() > 0 {
        lemma_queue_then_draw_pending(m, ops.drop_last());
    }
}

} // verus!
