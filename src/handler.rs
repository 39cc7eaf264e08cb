//! The notification router: maps each inbound notification to its effect on
//! the redraw state, the settings and the scheduler.

use vstd::prelude::*;
use crate::msg::Msg;
use crate::redraw::{GridState, apply_events, batch_events, batches_events, lemma_apply_concat};
use crate::scheduler::{RedrawScheduler, queue_spec};
use crate::settings::{WindowSettings, settings_after};
use crate::text::str_equals;

verus! {

/// The notifications that the core knows, decoded once from their names.
pub enum NotificationKind {
    Redraw,
    SettingChanged,
    /// Register the shell context-menu entries (one platform only).
    RegisterRightClick,
    /// Remove the shell context-menu entries (one platform only).
    UnregisterRightClick,
    Unrecognized,
}

/// What handling a notification did, for the caller to finish.
pub enum NotifyOutcome {
    Redrawn,
    /// A setting notification; whether it changed a setting.
    SettingApplied(bool),
    /// A shell-integration request, performed by the platform layer where it
    /// applies and ignored elsewhere.
    ShellIntegration { register: bool },
    Ignored,
}

pub open spec fn kind_of(name: Seq<char>) -> NotificationKind {
    if name == "redraw"@ {
        NotificationKind::Redraw
    } else if name == "setting_changed"@ {
        NotificationKind::SettingChanged
    } else if name == "neovide.reg_right_click"@ {
        NotificationKind::RegisterRightClick
    } else if name == "neovide.unreg_right_click"@ {
        NotificationKind::UnregisterRightClick
    } else {
        NotificationKind::Unrecognized
    }
}

/// Decodes a notification name.
pub fn classify_notification(name: &str) -> (r: NotificationKind)
    ensures
        r == kind_of(name@),
{
    if str_equals(name, "redraw") {
        NotificationKind::Redraw
    } else if str_equals(name, "setting_changed") {
        NotificationKind::SettingChanged
    } else if str_equals(name, "neovide.reg_right_click") {
        NotificationKind::RegisterRightClick
    } else if str_equals(name, "neovide.unreg_right_click") {
        NotificationKind::UnregisterRightClick
    } else {
        NotificationKind::Unrecognized
    }
}

/// The context that inbound notifications act on: the grid state that the
/// render loop reads and the live settings.
pub struct NeovimHandler {
    grids: GridState,
    settings: WindowSettings,
}

impl NeovimHandler {
    pub closed spec fn grids_view(&self) -> Map<u64, (u64, u64)> {
        self.grids@
    }

    pub closed spec fn settings_view(&self) -> WindowSettings {
        self.settings
    }

    pub open spec fn wf(&self) -> bool {
        self.settings_view().wf()
    }

    /// A handler with no grid and the given settings.
    pub fn new(settings: WindowSettings) -> (r: NeovimHandler)
        requires
            settings.wf(),
        ensures
            r.wf(),
            r.grids_view() == Map::<u64, (u64, u64)>::empty(),
            r.settings_view() == settings,
    {
        NeovimHandler { grids: GridState::new(), settings }
    }

    /// Size of a grid, if the editor has announced it.
    pub fn grid_size(&self, grid: u64) -> (r: Option<(u64, u64)>)
        ensures
            r == (if self.grids_view().contains_key(grid) {
                Some(self.grids_view()[grid])
            } else {
                None::<(u64, u64)>
            }),
    {
        self.grids.size_of(grid)
    }

    pub fn refresh_rate(&self) -> (r: u64)
        ensures
            r == self.settings_view().refresh_rate,
    {
        self.settings.refresh_rate
    }

    pub fn no_idle(&self) -> (r: bool)
        ensures
            r == self.settings_view().no_idle,
    {
        self.settings.no_idle
    }

    pub fn fullscreen(&self) -> (r: bool)
        ensures
            r == self.settings_view().fullscreen,
    {
        self.settings.fullscreen
    }

    /// Handles one notification. A `redraw` folds its batch into the grid state
    /// and queues a frame; a `setting_changed` updates the settings; the shell
    /// integration requests are handed back; anything else is ignored.
    pub fn handle_notify(&mut self, event_name: &str, arguments: &Vec<Msg>, scheduler: &mut RedrawScheduler) -> (r: NotifyOutcome)
        requires
            old(self).wf(),
        ensures
            final(self).wf(),
            kind_of(event_name@) == NotificationKind::Redraw ==> {
                &&& r == NotifyOutcome::Redrawn
                &&& final(self).grids_view() == apply_events(old(self).grids_view(), batch_events(arguments@))
                &&& final(self).settings_view() == old(self).settings_view()
                &&& final(scheduler)@ == queue_spec(old(scheduler)@)
            },
            kind_of(event_name@) == NotificationKind::SettingChanged ==> {
                &&& r == NotifyOutcome::SettingApplied(settings_after(old(self).settings_view(), arguments@) is Some)
                &&& final(self).settings_view() == match settings_after(old(self).settings_view(), arguments@) {
                    Some(s) => s,
                    None => old(self).settings_view(),
                }
                &&& final(self).grids_view() == old(self).grids_view()
                &&& final(scheduler)@ == old(scheduler)@
            },
            kind_of(event_name@) == NotificationKind::RegisterRightClick ==> r == (NotifyOutcome::ShellIntegration { register: true }),
            kind_of(event_name@) == NotificationKind::UnregisterRightClick ==> r == (NotifyOutcome::ShellIntegration { register: false }),
            kind_of(event_name@) == NotificationKind::Unrecognized ==> r == NotifyOutcome::Ignored,
            kind_of(event_name@) != NotificationKind::Redraw ==> final(self).grids_view() == old(self).grids_view(),
            kind_of(event_name@) != NotificationKind::Redraw ==> final(scheduler)@ == old(scheduler)@,
            kind_of(event_name@) != NotificationKind::SettingChanged ==> final(self).settings_view() == old(self).settings_view(),
    {
        match classify_notification(event_name) {
            NotificationKind::Redraw => {
                self.grids.apply_batch(arguments);
                scheduler.queue_next_frame();
                NotifyOutcome::Redrawn
            },
            NotificationKind::SettingChanged => {
                let changed = self.settings.handle_changed_notification(arguments);
                NotifyOutcome::SettingApplied(changed)
            },
            NotificationKind::RegisterRightClick => NotifyOutcome::ShellIntegration { register: true },
            NotificationKind::UnregisterRightClick => NotifyOutcome::ShellIntegration { register: false },
            NotificationKind::Unrecognized => NotifyOutcome::Ignored,
        }
    }

    /// Handles a sequence of `redraw` batches in the order they arrived.
    pub fn handle_redraw_batches(&mut self, batches: &Vec<Vec<Msg>>, scheduler: &mut RedrawScheduler)
        requires
            old(self).wf(),
        ensures
            final(self).wf(),
            final(self).grids_view() == fold_batches(old(self).grids_view(), batches@.map_values(|b: Vec<Msg>| b@)),
            final(self).settings_view() == old(self).settings_view(),
            batches@.len() > 0 ==> final(scheduler)@ == queue_spec(old(scheduler)@),
            batches@.len() == 0 ==> final(scheduler)@ == old(scheduler)@,
    {
        let ghost start = self.grids_view();
        let ghost bs = batches@.map_values(|b: Vec<Msg>| b@);
        let mut i: usize = 0;
        while i < batches.len()
            invariant
                i <= batches@.len(),
                bs == batches@.map_values(|b: Vec<Msg>| b@),
                self.wf(),
                self.settings_view() == old(self).settings_view(),
                self.grids_view() == fold_batches(start, bs.subrange(0, i as int)),
                i > 0 ==> scheduler@ == queue_spec(old(scheduler)@),
                i == 0 ==> scheduler@ == old(scheduler)@,
            decreases batches@.len() - i,
        {
            assert(bs.subrange(0, i + 1).drop_last() == bs.subrange(0, i as int));
            self.grids.apply_batch(&batches[i]);
            scheduler.queue_next_frame();
            i = i + 1;
        }
        assert(bs.subrange(0, bs.len() as int) == bs);
    }
}

/// Grid state after handling `redraw` batches one notification at a time.
pub open spec fn fold_batches(g: Map<u64, (u64, u64)>, batches: Seq<Seq<Msg>>) -> Map<u64, (u64, u64)>
    decreases batches.len(),
{
    if batches.len() == 0 {
        g
    } else {
        apply_events(fold_batches(g, batches.drop_last()), batch_events(batches.last()))
    }
}

/// Handling `redraw` notifications one at a time in arrival order leaves the
/// same grid state as applying all their updates in that one order.
pub proof fn lemma_redraw_in_arrival_order(g: Map<u64, (u64, u64)>, batches: Seq<Seq<Msg>>)
    ensures
        fold_batches(g, batches) == apply_events(g, batches_events(batches)),
    decreases batches.len(),
{
    if batches.len() > 0 {
        lemma_redraw_in_arrival_order(g, batches.drop_last());
        lemma_apply_concat(g, batches_events(batches.drop_last()), batch_events(batches.last()));
    }
}

} // verus!
