//! The multi-pane terminal renderer, modelled on its observable content.
//!
//! The renderer owns one pane per fixed role and redraws the whole stack on
//! every update.  Styling and the terminal writer itself live outside; what
//! is verified here is which rows each pane holds after a batch of updates,
//! and that hint panes are silently dropped when hints are disabled.

use vstd::prelude::*;

verus! {

/// A rectangular chunk of terminal content, one string per row.
pub struct Pane {
    pub rows: Vec<String>,
}

impl Pane {
    pub fn empty() -> (r: Pane)
        ensures
            r.rows@.len() == 0,
    {
        Pane { rows: Vec::new() }
    }

    pub fn of_rows(rows: Vec<String>) -> (r: Pane)
        ensures
            r.rows@ == rows@,
    {
        Pane { rows }
    }
}

/// The fixed role of each pane in the stack, top to bottom.
#[derive(Clone, Copy, PartialEq, Eq, Structural, Debug)]
pub enum PaneIndex {
    Editor,
    Guide,
    ProcessorGuide,
    Search,
    Processor,
}

/// The renderer's whole observable state: one pane per role.
pub struct Renderer {
    pub editor: Pane,
    pub guide: Pane,
    pub processor_guide: Pane,
    pub search: Pane,
    pub processor: Pane,
    pub no_hint: bool,
}

impl Renderer {
    /// The rows currently held by the pane with the given role.
    pub open spec fn pane_at(self, idx: PaneIndex) -> Seq<String> {
        match idx {
            PaneIndex::Editor => self.editor.rows@,
            PaneIndex::Guide => self.guide.rows@,
            PaneIndex::ProcessorGuide => self.processor_guide.rows@,
            PaneIndex::Search => self.search.rows@,
            PaneIndex::Processor => self.processor.rows@,
        }
    }

    /// Updates to these roles are dropped when hints are disabled.
    pub open spec fn is_hint_pane(idx: PaneIndex) -> bool {
        idx == PaneIndex::Guide || idx == PaneIndex::ProcessorGuide
    }

    pub fn new(init: Pane, no_hint: bool) -> (r: Renderer)
        ensures
            r.pane_at(PaneIndex::Editor) == init.rows@,
            r.pane_at(PaneIndex::Guide).len() == 0,
            r.pane_at(PaneIndex::ProcessorGuide).len() == 0,
            r.pane_at(PaneIndex::Search).len() == 0,
            r.pane_at(PaneIndex::Processor).len() == 0,
            r.no_hint == no_hint,
    {
        Renderer {
            editor: init,
            guide: Pane::empty(),
            processor_guide: Pane::empty(),
            search: Pane::empty(),
            processor: Pane::empty(),
            no_hint,
        }
    }

    /// Overwrites one pane; a hint pane stays as it was when hints are
    /// disabled.  Redrawing the stack is the caller's concern.
    pub fn update_pane(&mut self, idx: PaneIndex, pane: Pane)
        ensures
            final(self).no_hint == old(self).no_hint,
            old(self).no_hint && Self::is_hint_pane(idx) ==> final(self).pane_at(idx)
                == old(self).pane_at(idx),
            !(old(self).no_hint && Self::is_hint_pane(idx)) ==> final(self).pane_at(idx)
                == pane.rows@,
            forall|other: PaneIndex|
                other != idx ==> final(self).pane_at(other) == old(self).pane_at(other),
    {
        if self.no_hint && (matches!(idx, PaneIndex::Guide) || matches!(
            idx,
            PaneIndex::ProcessorGuide,
        )) {
            return ;
        }
        match idx {
            PaneIndex::Editor => {
                self.editor = pane;
            },
            PaneIndex::Guide => {
                self.guide = pane;
            },
            PaneIndex::ProcessorGuide => {
                self.processor_guide = pane;
            },
            PaneIndex::Search => {
                self.search = pane;
            },
            PaneIndex::Processor => {
                self.processor = pane;
            },
        }
    }

    /// The full stack, top to bottom, for the terminal writer to draw.
    pub fn stack(&self) -> (r: Vec<&Pane>)
        ensures
            r@.len() == 5,
            r@[0].rows@ == self.pane_at(PaneIndex::Editor),
            r@[1].rows@ == self.pane_at(PaneIndex::Guide),
            r@[2].rows@ == self.pane_at(PaneIndex::ProcessorGuide),
            r@[3].rows@ == self.pane_at(PaneIndex::Search),
            r@[4].rows@ == self.pane_at(PaneIndex::Processor),
    {
        let mut v: Vec<&Pane> = Vec::new();
        v.push(&self.editor);
        v.push(&self.guide);
        v.push(&self.processor_guide);
        v.push(&self.search);
        v.push(&self.processor);
        v
    }
}

/// The rows of the last update aimed at `idx`, if any.
pub open spec fn last_rows_for(updates: Seq<(PaneIndex, Pane)>, idx: PaneIndex) -> Option<
    Seq<String>,
>
    decreases updates.len(),
{
    if updates.len() == 0 {
        None
    } else if updates.last().0 == idx {
        Some(updates.last().1.rows@)
    } else {
        last_rows_for(updates.drop_last(), idx)
    }
}

impl Renderer {
    /// Overwrites the named panes in order, so the last update aimed at a
    /// role wins; hint panes stay as they were when hints are disabled.
    /// Redrawing the resulting stack is the caller's concern.
    pub fn update_and_draw(&mut self, updates: Vec<(PaneIndex, Pane)>)
        ensures
            final(self).no_hint == old(self).no_hint,
            forall|idx: PaneIndex|
                #[trigger] final(self).pane_at(idx) == if !(old(self).no_hint
                    && Self::is_hint_pane(idx)) && last_rows_for(updates@, idx) is Some {
                    last_rows_for(updates@, idx)->0
                } else {
                    old(self).pane_at(idx)
                },
    {
        let ghost start = *self;
        let ghost ups = updates@;
        let mut k: usize = 0;
        let n = updates.len();
        while k < n
            invariant
                k <= n,
                n == ups.len(),
                updates@ == ups,
                self.no_hint == start.no_hint,
                forall|idx: PaneIndex|
                    #[trigger] self.pane_at(idx) == if !(start.no_hint && Self::is_hint_pane(
                        idx,
                    )) && last_rows_for(ups.take(k as int), idx) is Some {
                        last_rows_for(ups.take(k as int), idx)->0
                    } else {
                        start.pane_at(idx)
                    },
            decreases n - k,
        {
            let ghost before = *self;
            let idx = updates[k].0;
            let rows = crate::strutil::clone_strings(&updates[k].1.rows);
            let replacement = Pane { rows };
            proof {
                assert(idx == ups[k as int].0);
                assert(replacement.rows@ == ups[k as int].1.rows@);
            }
            self.update_pane(idx, replacement);
            proof {
                assert forall|j: PaneIndex| #[trigger] self.pane_at(j) == if !(start.no_hint
                    && Self::is_hint_pane(j)) && last_rows_for(ups.take(k as int + 1), j)
                    is Some {
                    last_rows_for(ups.take(k as int + 1), j)->0
                } else {
                    start.pane_at(j)
                } by {
                    let t = ups.take(k as int + 1);
                    assert(t.last() == ups[k as int]);
                    assert(t.drop_last() =~= ups.take(k as int));
                    if j == idx {
                        assert(last_rows_for(t, j) == Some(ups[k as int].1.rows@));
                    } else {
                        assert(last_rows_for(t, j) == last_rows_for(ups.take(k as int), j));
                        assert(self.pane_at(j) == before.pane_at(j));
                    }
                }
            }
            k += 1;
        }
        proof {
            assert(ups.take(n as int) =~= ups);
        }
    }
}

} // verus!
