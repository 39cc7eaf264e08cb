//! Folding of `redraw` notification batches into grid state, in arrival order.

use std::collections::HashMap;
use vstd::prelude::*;
use crate::msg::{Msg, msg_array, msg_str, msg_u64};
use crate::text::str_equals;

verus! {

broadcast use vstd::std_specs::hash::group_hash_axioms;

/// One screen-update instruction that the grid state reacts to.
pub enum RedrawEvent {
    Resize { grid: u64, width: u64, height: u64 },
    Destroy { grid: u64 },
    /// An instruction that does not change the tracked grid sizes.
    Ignored,
}

/// Grid sizes after one event.
pub open spec fn apply_event(g: Map<u64, (u64, u64)>, e: RedrawEvent) -> Map<u64, (u64, u64)> {
    match e {
        RedrawEvent::Resize { grid, width, height } => g.insert(grid, (width, height)),
        RedrawEvent::Destroy { grid } => g.remove(grid),
        RedrawEvent::Ignored => g,
    }
}

/// Grid sizes after a sequence of events, applied first to last.
pub open spec fn apply_events(g: Map<u64, (u64, u64)>, es: Seq<RedrawEvent>) -> Map<u64, (u64, u64)>
    decreases es.len(),
{
    if es.len() == 0 {
        g
    } else {
        apply_event(apply_events(g, es.drop_last()), es.last())
    }
}

/// The event that one parameter tuple of a named update stands for.
pub open spec fn event_of(name: Seq<char>, params: Msg) -> RedrawEvent {
    match msg_array(params) {
        Some(p) => if name == "grid_resize"@ && p.len() >= 3 && msg_u64(p[0]) is Some
            && msg_u64(p[1]) is Some && msg_u64(p[2]) is Some {
            RedrawEvent::Resize {
                grid: msg_u64(p[0])->0,
                width: msg_u64(p[1])->0,
                height: msg_u64(p[2])->0,
            }
        } else if name == "grid_destroy"@ && p.len() >= 1 && msg_u64(p[0]) is Some {
            RedrawEvent::Destroy { grid: msg_u64(p[0])->0 }
        } else {
            RedrawEvent::Ignored
        },
        None => RedrawEvent::Ignored,
    }
}

/// The events of one update group `[name, params, params, ...]`; a group of
/// another shape holds none.
pub open spec fn group_events(group: Msg) -> Seq<RedrawEvent> {
    match msg_array(group) {
        Some(items) => if items.len() >= 1 && msg_str(items[0]) is Some {
            items.drop_first().map_values(|p: Msg| event_of(msg_str(items[0])->0, p))
        } else {
            Seq::empty()
        },
        None => Seq::empty(),
    }
}

/// The events of a whole batch, group after group.
pub open spec fn batch_events(batch: Seq<Msg>) -> Seq<RedrawEvent>
    decreases batch.len(),
{
    if batch.len() == 0 {
        Seq::empty()
    } else {
        batch_events(batch.drop_last()) + group_events(batch.last())
    }
}

/// The events of a sequence of batches, batch after batch.
pub open spec fn batches_events(batches: Seq<Seq<Msg>>) -> Seq<RedrawEvent>
    decreases batches.len(),
{
    if batches.len() == 0 {
        Seq::empty()
    } else {
        batches_events(batches.drop_last()) + batch_events(batches.last())
    }
}

/// The screen state that the render loop reads: the size of each live grid.
pub struct GridState {
    sizes: HashMap<u64, (u64, u64)>,
}

impl View for GridState {
    type V = Map<u64, (u64, u64)>;

    closed spec fn view(&self) -> Map<u64, (u64, u64)> {
        self.sizes@
    }
}

impl GridState {
    /// No grid known yet.
    pub fn new() -> (r: GridState)
        ensures
            r@ == Map::<u64, (u64, u64)>::empty(),
    {
        GridState { sizes: HashMap::new() }
    }

    /// Width and height of a grid, if it is known.
    pub fn size_of(&self, grid: u64) -> (r: Option<(u64, u64)>)
        ensures
            r == (if self@.contains_key(grid) { Some(self@[grid]) } else { None::<(u64, u64)> }),
    {
        match self.sizes.get(&grid) {
            Some(s) => Some(*s),
            None => None,
        }
    }

    /// Applies one event.
    pub fn apply(&mut self, e: &RedrawEvent)
        ensures
            final(self)@ == apply_event(old(self)@, *e),
    {
        match e {
            RedrawEvent::Resize { grid, width, height } => {
                self.sizes.insert(*grid, (*width, *height));
            },
            RedrawEvent::Destroy { grid } => {
                self.sizes.remove(grid);
                assert(self.sizes@ == old(self).sizes@.remove(*grid));
            },
            RedrawEvent::Ignored => {},
        }
    }

    /// Applies one `redraw` batch: every update of every group, in order.
    pub fn apply_batch(&mut self, batch: &Vec<Msg>)
        ensures
            final(self)@ == apply_events(old(self)@, batch_events(batch@)),
    {
        let ghost start = self@;
        let mut i: usize = 0;
        while i < batch.len()
            invariant
                i <= batch@.len(),
                self@ == apply_events(start, batch_events(batch@.subrange(0, i as int))),
            decreases batch@.len() - i,
        {
            let ghost before = batch_events(batch@.subrange(0, i as int));
            assert(batch@.subrange(0, i + 1).drop_last() == batch@.subrange(0, i as int));
            self.apply_group(&batch[i], Ghost(start), Ghost(before));
            i = i + 1;
        }
        assert(batch@.subrange(0, batch@.len() as int) == batch@);
    }

    fn apply_group(&mut self, group: &Msg, Ghost(start): Ghost<Map<u64, (u64, u64)>>, Ghost(
        before,
    ): Ghost<Seq<RedrawEvent>>)
        requires
            old(self)@ == apply_events(start, before),
        ensures
            final(self)@ == apply_events(start, before + group_events(*group)),
    {
        assert(before + Seq::<RedrawEvent>::empty() == before);
        let items = match group.as_array() {
            Some(items) => items,
            None => return,
        };
        if items.len() == 0 {
            return;
        }
        let name = match items[0].as_str() {
            Some(n) => n,
            None => return,
        };
        let ghost evs = group_events(*group);
        assert(evs == items@.drop_first().map_values(|p: Msg| event_of(name@, p)));
        let mut j: usize = 1;
        while j < items.len()
            invariant
                1 <= j <= items@.len(),
                evs.len() == items@.len() - 1,
                forall|k: int| 0 <= k < evs.len() ==> evs[k] == event_of(name@, items@[k + 1]),
                self@ == apply_events(start, before + evs.subrange(0, j - 1)),
            decreases items@.len() - j,
        {
            let e = parse_event(name, &items[j]);
            self.apply(&e);
            assert((before + evs.subrange(0, j as int)).drop_last() == before + evs.subrange(
                0,
                j - 1,
            ));
            j = j + 1;
        }
        assert(evs.subrange(0, evs.len() as int) == evs);
    }
}

/// Decodes the parameters of one update named `name`.
pub fn parse_event(name: &str, params: &Msg) -> (r: RedrawEvent)
    ensures
        r == event_of(name@, *params),
{
    let p = match params.as_array() {
        Some(p) => p,
        None => return RedrawEvent::Ignored,
    };
    let resize = "grid_resize";
    let destroy = "grid_destroy";
    if str_equals(name, resize) && p.len() >= 3 {
        match (p[0].as_u64(), p[1].as_u64(), p[2].as_u64()) {
            (Some(grid), Some(width), Some(height)) => {
                return RedrawEvent::Resize { grid, width, height };
            },
            _ => {},
        }
    }
    if str_equals(name, destroy) && p.len() >= 1 {
        match p[0].as_u64() {
            Some(grid) => {
                proof {
                    reveal_strlit("grid_resize");
                    reveal_strlit("grid_destroy");
                }
                assert(resize@.len() == 11 && destroy@.len() == 12);
                return RedrawEvent::Destroy { grid };
            },
            None => {},
        }
    }
    RedrawEvent::Ignored
}

/// Applying two event sequences one after the other is applying their
/// concatenation: folding keeps the order in which updates arrive.
pub proof fn lemma_apply_concat(g: Map<u64, (u64, u64)>, a: Seq<RedrawEvent>, b: Seq<RedrawEvent>)
    ensures
        apply_events(g, a + b) == apply_events(apply_events(g, a), b),
    decreases b.len(),
{
    if b.len() == 0 {
        assert(a + b == a);
    } else {
        lemma_apply_concat(g, a, b.drop_last());
        assert((a + b).drop_last() == a + b.drop_last());
    }
}

} // verus!
