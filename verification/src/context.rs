//! The evaluation context: render area, lifecycle phase, and the handle of
//! the one evaluation task that may be running.
//!
//! Every way of starting new work first cancels the current task, so at any
//! time at most one task is alive; the spinner reads the phase and never
//! touches the finished view while the context is idle.

use vstd::prelude::*;

use crate::render::Pane;

verus! {

/// The lifecycle of the result view.
#[derive(Clone, Copy, PartialEq, Eq, Structural, Debug)]
pub enum Phase {
    Idle,
    Loading,
    Processing,
}

/// One recorded lifecycle step of the task instrumentation.
#[derive(Clone, Copy, PartialEq, Eq, Structural, Debug)]
pub enum TaskEvent {
    Spawned(u64),
    Cancelled(u64),
}

/// The tasks still alive after a history of spawns and cancellations.
pub open spec fn alive_after(h: Seq<TaskEvent>) -> Set<u64>
    decreases h.len(),
{
    if h.len() == 0 {
        Set::empty()
    } else {
        let rest = alive_after(h.drop_last());
        match h.last() {
            TaskEvent::Spawned(i) => rest.insert(i),
            TaskEvent::Cancelled(i) => rest.remove(i),
        }
    }
}

/// Shared state of the evaluator: the area to render into, the phase, and
/// the currently running task, with a ghost history of every spawn and
/// cancellation.
pub struct Context {
    pub phase: Phase,
    pub area: (u16, u16),
    pub current_task: Option<u64>,
    pub next_id: u64,
    pub history: Ghost<Seq<TaskEvent>>,
}

impl Context {
    /// The live set of the recorded history is exactly the current task:
    /// empty when none is running, one handle otherwise.
    pub open spec fn wf(self) -> bool {
        &&& match self.current_task {
            Some(t) => alive_after(self.history@) == Set::empty().insert(t)
                && t < self.next_id,
            None => alive_after(self.history@) == Set::<u64>::empty(),
        }
    }

    pub fn new(area: (u16, u16)) -> (r: Context)
        ensures
            r.wf(),
            r.phase == Phase::Idle,
            r.area == area,
            r.current_task is None,
            r.history@.len() == 0,
    {
        Context {
            phase: Phase::Idle,
            area,
            current_task: None,
            next_id: 0,
            history: Ghost(Seq::empty()),
        }
    }

    /// Cancels the running task, if any; afterwards nothing is alive.
    pub fn cancel_current(&mut self)
        requires
            old(self).wf(),
        ensures
            final(self).wf(),
            final(self).current_task is None,
            alive_after(final(self).history@) == Set::<u64>::empty(),
            final(self).phase == old(self).phase,
            final(self).area == old(self).area,
            final(self).next_id == old(self).next_id,
    {
        match self.current_task {
            Some(t) => {
                proof {
                    let h = self.history@.push(TaskEvent::Cancelled(t));
                    assert(h.drop_last() =~= self.history@);
                    assert(alive_after(h) == alive_after(self.history@).remove(t));
                    assert(Set::empty().insert(t).remove(t) =~= Set::<u64>::empty());
                }
                self.history = Ghost(self.history@.push(TaskEvent::Cancelled(t)));
                self.current_task = None;
            },
            None => {},
        }
    }

    /// Cancels the running task and spawns the successor: the only way a
    /// task ever starts, so at every point at most one is alive.
    pub fn start_task(&mut self) -> (id: u64)
        requires
            old(self).wf(),
            old(self).next_id < u64::MAX,
        ensures
            final(self).wf(),
            final(self).current_task == Some(id),
            alive_after(final(self).history@) == Set::empty().insert(id),
            final(self).phase == old(self).phase,
            final(self).area == old(self).area,
    {
        self.cancel_current();
        let id = self.next_id;
        self.next_id = id + 1;
        proof {
            let h = self.history@.push(TaskEvent::Spawned(id));
            assert(h.drop_last() =~= self.history@);
            assert(alive_after(h) == alive_after(self.history@).insert(id));
        }
        self.history = Ghost(self.history@.push(TaskEvent::Spawned(id)));
        self.current_task = Some(id);
        id
    }

    /// Starts the evaluation of a changed query: cancel, then spawn.
    pub fn render_result(&mut self) -> (id: u64)
        requires
            old(self).wf(),
            old(self).next_id < u64::MAX,
        ensures
            final(self).wf(),
            final(self).current_task == Some(id),
            alive_after(final(self).history@) == Set::empty().insert(id),
            final(self).area == old(self).area,
    {
        self.start_task()
    }

    /// Starts the evaluation after a resize: record the new area, cancel,
    /// then spawn.
    pub fn render_on_resize(&mut self, area: (u16, u16)) -> (id: u64)
        requires
            old(self).wf(),
            old(self).next_id < u64::MAX,
        ensures
            final(self).wf(),
            final(self).current_task == Some(id),
            alive_after(final(self).history@) == Set::empty().insert(id),
            final(self).area == area,
    {
        self.area = area;
        self.start_task()
    }

    /// The running task marks the view busy.
    pub fn begin_processing(&mut self)
        requires
            old(self).wf(),
        ensures
            final(self).wf(),
            *final(self) == (Context { phase: Phase::Processing, ..*old(self) }),
    {
        self.phase = Phase::Processing;
    }

    /// The initializer marks the first view build.
    pub fn begin_loading(&mut self)
        requires
            old(self).wf(),
        ensures
            final(self).wf(),
            *final(self) == (Context { phase: Phase::Loading, ..*old(self) }),
    {
        self.phase = Phase::Loading;
    }

    /// Work is done: the view may be written and the spinner must stop.
    pub fn finish(&mut self)
        requires
            old(self).wf(),
        ensures
            final(self).wf(),
            *final(self) == (Context { phase: Phase::Idle, ..*old(self) }),
    {
        self.phase = Phase::Idle;
    }

    /// Whether the evaluator is between tasks.
    pub fn is_idle(&self) -> (r: bool)
        ensures
            r == (self.phase == Phase::Idle),
    {
        matches!(self.phase, Phase::Idle)
    }

    /// However the context has been driven, at most one task is alive.
    pub proof fn lemma_single_live_task(self)
        requires
            self.wf(),
        ensures
            alive_after(self.history@).len() <= 1,
    {
        match self.current_task {
            Some(t) => {
                assert(alive_after(self.history@) == Set::empty().insert(t));
                assert(Set::empty().insert(t).len() == 1) by {
                    broadcast use vstd::set::axiom_set_empty_len;

                    vstd::set::axiom_set_insert_len(Set::<u64>::empty(), t);
                }
            },
            None => {
                assert(Set::<u64>::empty().len() == 0) by {
                    broadcast use vstd::set::axiom_set_empty_len;

                }
            },
        }
    }
}

/// The glyph of one spinner frame.
pub open spec fn spinner_glyph(i: int) -> Seq<char> {
    if i == 0 { "\u{280b}"@ }
    else if i == 1 { "\u{2819}"@ }
    else if i == 2 { "\u{2839}"@ }
    else if i == 3 { "\u{2838}"@ }
    else if i == 4 { "\u{283c}"@ }
    else if i == 5 { "\u{2834}"@ }
    else if i == 6 { "\u{2826}"@ }
    else if i == 7 { "\u{2827}"@ }
    else if i == 8 { "\u{2807}"@ }
    else { "\u{280f}"@ }
}

/// One spinner tick: while the context is busy it advances the frame and
/// hands back the pane that overwrites the result view; while the context
/// is idle it hands back nothing, so a finished view is never overwritten.
pub fn spinner_tick(ctx: &Context, frame_index: &mut usize) -> (r: Option<Pane>)
    ensures
        ctx.phase == Phase::Idle ==> r is None && *final(frame_index) == *old(frame_index),
        ctx.phase != Phase::Idle ==> {
            &&& *final(frame_index) == ((*old(frame_index) % 10) + 1) % 10
            &&& r is Some
            &&& r->0.rows@.len() == 1
            &&& r->0.rows@[0]@ == spinner_glyph(*final(frame_index) as int)
        },
{
    if matches!(ctx.phase, Phase::Idle) {
        return None;
    }
    let cur = *frame_index % 10;
    let next = (cur + 1) % 10;
    *frame_index = next;
    let glyph = if next == 0 { "\u{280b}" }
    else if next == 1 { "\u{2819}" }
    else if next == 2 { "\u{2839}" }
    else if next == 3 { "\u{2838}" }
    else if next == 4 { "\u{283c}" }
    else if next == 5 { "\u{2834}" }
    else if next == 6 { "\u{2826}" }
    else if next == 7 { "\u{2827}" }
    else if next == 8 { "\u{2807}" }
    else { "\u{280f}" };
    let mut rows: Vec<String> = Vec::new();
    rows.push(glyph.to_owned());
    Some(Pane { rows })
}

/// The write model of the evaluator: which query's output the result pane
/// shows, and which query a pending task would render.  Starting a new
/// evaluation replaces the pending task (the predecessor is cancelled
/// before the successor exists); completion renders the pending query.
pub struct EvalWrites {
    pub pending: Option<Seq<char>>,
    pub shown: Option<Seq<char>>,
}

/// Starting the evaluation of `q` cancels whatever was pending.
pub open spec fn start_write(m: EvalWrites, q: Seq<char>) -> EvalWrites {
    EvalWrites { pending: Some(q), shown: m.shown }
}

/// A completed task renders its query; a cancelled one never writes.
pub open spec fn complete_write(m: EvalWrites) -> EvalWrites {
    match m.pending {
        Some(q) => EvalWrites { pending: None, shown: Some(q) },
        None => m,
    }
}

/// All of `qs` started, in order.
pub open spec fn start_all(m: EvalWrites, qs: Seq<Seq<char>>) -> EvalWrites
    decreases qs.len(),
{
    if qs.len() == 0 {
        m
    } else {
        start_all(start_write(m, qs[0]), qs.drop_first())
    }
}

/// Last writer wins: when any number of query changes arrive and the
/// evaluator then runs to quiescence, the result pane shows the output of
/// the last query alone; every earlier task was cancelled before it could
/// write.
pub proof fn lemma_last_writer_wins(m: EvalWrites, qs: Seq<Seq<char>>)
    requires
        qs.len() > 0,
    ensures
        complete_write(start_all(m, qs)).shown == Some(qs.last()),
    decreases qs.len(),
{
    if qs.len() == 1 {
        assert(start_all(m, qs) == start_write(m, qs[0]));
    } else {
        lemma_last_writer_wins(start_write(m, qs[0]), qs.drop_first());
        assert(qs.drop_first().last() == qs.last());
    }
}

} // verus!
