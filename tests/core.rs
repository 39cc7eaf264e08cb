use neovide_core::commands::{ButtonAction, ScrollDirection, UiCommand, WindowCommand};
use neovide_core::handler::{classify_notification, NeovimHandler, NotificationKind, NotifyOutcome};
use neovide_core::msg::Msg;
use neovide_core::pacing::{begin_tick, frame_budget_ns, frame_delta_ns, next_wake_ns, remaining_budget_ns};
use neovide_core::redraw::{parse_event, GridState, RedrawEvent};
use neovide_core::scheduler::RedrawScheduler;
use neovide_core::settings::WindowSettings;
use neovide_core::text::str_equals;
use neovide_core::window::{
    find_region, grid_size_command, FullscreenChange, GridGeometry, InputEvent, WindowRegion,
    WinitWindowWrapper,
};

fn s(text: &str) -> Msg {
    Msg::Str(text.to_string())
}

fn resize_group(grid: u64, width: u64, height: u64) -> Msg {
    Msg::Array(vec![
        s("grid_resize"),
        Msg::Array(vec![Msg::UInt(grid), Msg::UInt(width), Msg::UInt(height)]),
    ])
}

fn geometry() -> GridGeometry {
    GridGeometry {
        regions: vec![
            WindowRegion { id: 1, left: 0, top: 0, right: 800, bottom: 600, floating: false },
            WindowRegion { id: 2, left: 100, top: 100, right: 300, bottom: 300, floating: false },
            WindowRegion { id: 3, left: 400, top: 200, right: 600, bottom: 400, floating: true },
        ],
        font_width: 10,
        font_height: 20,
    }
}

fn dragging_window() -> WinitWindowWrapper {
    let mut w = WinitWindowWrapper::new((800, 600), "Neovide".to_string());
    w.mouse_down = true;
    w
}

#[test]
fn queue_many_times_draws_once() {
    let mut sched = RedrawScheduler::new();
    for _ in 0..5 {
        sched.queue_next_frame();
    }
    assert!(sched.should_draw(false));
    assert!(!sched.should_draw(false));
    assert!(sched.is_idle());
}

#[test]
fn queued_frame_survives_frame_reports() {
    let mut sched = RedrawScheduler::new();
    sched.finish_frame(true);
    sched.queue_next_frame();
    sched.finish_frame(false);
    sched.queue_next_frame();
    assert!(sched.should_draw(false));
}

#[test]
fn animating_draws_every_tick_and_no_idle_forces() {
    let mut sched = RedrawScheduler::new();
    assert!(!sched.should_draw(false));
    assert!(sched.should_draw(true));
    sched.finish_frame(true);
    assert!(sched.should_draw(false));
    assert!(sched.should_draw(false));
    sched.finish_frame(false);
    assert!(!sched.should_draw(false));
}

#[test]
fn focus_gained_while_idle_draws_next_tick() {
    let mut sched = RedrawScheduler::new();
    let mut w = WinitWindowWrapper::new((800, 600), "Neovide".to_string());
    assert!(sched.is_idle());
    let cmds = w.handle_event(InputEvent::Focused(true), &geometry(), &mut sched);
    assert_eq!(cmds.len(), 1);
    assert!(matches!(cmds[0], UiCommand::FocusGained));
    let plan = w.draw_frame((800, 600), &geometry(), false, &mut sched);
    assert!(plan.draw);
    assert!(plan.resize.is_none());
}

#[test]
fn focus_lost_sends_command_without_frame() {
    let mut sched = RedrawScheduler::new();
    let mut w = WinitWindowWrapper::new((800, 600), "Neovide".to_string());
    let cmds = w.handle_event(InputEvent::Focused(false), &geometry(), &mut sched);
    assert!(matches!(cmds[0], UiCommand::FocusLost));
    assert!(sched.is_idle());
}

#[test]
fn drag_sent_once_for_same_cell() {
    let g = geometry();
    let mut w = dragging_window();
    // region 1, cell (5, 2)
    let first = w.handle_pointer_motion(55, 45, &g);
    assert!(matches!(first, Some(UiCommand::Drag { grid_id: 1, position: (5, 2) })));
    let second = w.handle_pointer_motion(58, 59, &g);
    assert!(second.is_none());
    let third = w.handle_pointer_motion(61, 59, &g);
    assert!(matches!(third, Some(UiCommand::Drag { grid_id: 1, position: (6, 2) })));
}

#[test]
fn drag_in_split_window_is_offset_by_window_origin() {
    let g = geometry();
    let mut w = dragging_window();
    // region 2 covers (100..300, 100..300); cell (2, 1) inside it
    let c = w.handle_pointer_motion(125, 125, &g);
    assert_eq!(w.grid_id_under_mouse, 2);
    assert_eq!(w.mouse_position, (2, 1));
    assert!(matches!(c, Some(UiCommand::Drag { grid_id: 2, position: (12, 6) })));
}

#[test]
fn drag_in_floating_window_uses_grid_cells() {
    let g = geometry();
    let mut w = dragging_window();
    let c = w.handle_pointer_motion(430, 260, &g);
    assert!(matches!(c, Some(UiCommand::Drag { grid_id: 3, position: (3, 3) })));
}

#[test]
fn motion_without_button_or_outside_regions() {
    let g = geometry();
    let mut w = WinitWindowWrapper::new((800, 600), "Neovide".to_string());
    assert!(w.handle_pointer_motion(55, 45, &g).is_none());
    assert_eq!(w.mouse_position, (5, 2));
    assert!(w.handle_pointer_motion(900, 900, &g).is_none());
    assert_eq!(w.mouse_position, (5, 2));
    assert_eq!(find_region(&g.regions, 900, 900).map(|r| r.id), None);
    assert_eq!(find_region(&g.regions, 150, 150).map(|r| r.id), Some(2));
}

#[test]
fn wheel_splits_into_vertical_then_horizontal() {
    let g = geometry();
    let mut w = WinitWindowWrapper::new((800, 600), "Neovide".to_string());
    w.handle_pointer_motion(125, 125, &g);
    let cmds = w.handle_mouse_wheel(-3, 5);
    assert_eq!(cmds.len(), 2);
    assert!(matches!(cmds[0], UiCommand::Scroll { direction: ScrollDirection::Up, grid_id: 2, position: (2, 1) }));
    assert!(matches!(cmds[1], UiCommand::Scroll { direction: ScrollDirection::Left, grid_id: 2, position: (2, 1) }));
    let down_right = w.handle_mouse_wheel(2, -1);
    assert!(matches!(down_right[0], UiCommand::Scroll { direction: ScrollDirection::Down, .. }));
    assert!(matches!(down_right[1], UiCommand::Scroll { direction: ScrollDirection::Right, .. }));
    assert!(w.handle_mouse_wheel(0, 0).is_empty());
    w.mouse_enabled = false;
    assert!(w.handle_mouse_wheel(-3, 5).is_empty());
}

#[test]
fn direction_and_action_names() {
    assert_eq!(ScrollDirection::Up.name(), "up");
    assert_eq!(ScrollDirection::Down.name(), "down");
    assert_eq!(ScrollDirection::Left.name(), "left");
    assert_eq!(ScrollDirection::Right.name(), "right");
    assert_eq!(ButtonAction::Press.name(), "press");
    assert_eq!(ButtonAction::Release.name(), "release");
}

#[test]
fn buttons_report_press_and_release() {
    let mut w = WinitWindowWrapper::new((800, 600), "Neovide".to_string());
    w.handle_pointer_motion(55, 45, &geometry());
    let down = w.handle_pointer_down();
    assert!(w.mouse_down);
    assert!(matches!(down, Some(UiCommand::MouseButton { action: ButtonAction::Press, grid_id: 1, position: (5, 2) })));
    let up = w.handle_pointer_up();
    assert!(!w.mouse_down);
    assert!(matches!(up, Some(UiCommand::MouseButton { action: ButtonAction::Release, .. })));
    w.mouse_enabled = false;
    assert!(w.handle_pointer_down().is_none());
    assert!(w.mouse_down);
}

#[test]
fn events_translate_to_commands() {
    let g = geometry();
    let mut sched = RedrawScheduler::new();
    let mut w = WinitWindowWrapper::new((800, 600), "Neovide".to_string());
    let k = w.handle_event(
        InputEvent::KeyboardInput { pressed: true, keybinding: Some("<C-a>".to_string()) },
        &g,
        &mut sched,
    );
    assert!(matches!(&k[0], UiCommand::Keyboard(t) if t == "<C-a>"));
    let released = w.handle_event(
        InputEvent::KeyboardInput { pressed: false, keybinding: Some("a".to_string()) },
        &g,
        &mut sched,
    );
    assert!(released.is_empty());
    let drop = w.handle_event(InputEvent::DroppedFile("/tmp/a.txt".to_string()), &g, &mut sched);
    assert!(matches!(&drop[0], UiCommand::FileDrop(p) if p == "/tmp/a.txt"));
    assert!(sched.is_idle());
    assert!(w.handle_event(InputEvent::OtherWindowEvent, &g, &mut sched).is_empty());
    assert!(!sched.is_idle());
    assert!(w.running);
    w.handle_event(InputEvent::CloseRequested, &g, &mut sched);
    assert!(!w.running);
}

#[test]
fn window_commands_apply() {
    let mut w = WinitWindowWrapper::new((800, 600), "Neovide".to_string());
    w.handle_window_command(WindowCommand::TitleChanged("file.rs".to_string()));
    assert_eq!(w.title, "file.rs");
    w.handle_window_command(WindowCommand::SetMouseEnabled(false));
    assert!(!w.mouse_enabled);
    w.handle_quit();
    assert!(!w.running);
}

#[test]
fn fullscreen_round_trip_restores_geometry() {
    let mut w = WinitWindowWrapper::new((800, 600), "Neovide".to_string());
    assert!(w.synchronize_settings(false, (800, 600), (10, 20)).is_none());
    let enter = w.synchronize_settings(true, (800, 600), (10, 20));
    assert!(matches!(enter, Some(FullscreenChange::Enter)));
    assert!(w.fullscreen);
    let leave = w.toggle_fullscreen((1920, 1080), (0, 0));
    assert!(matches!(leave, FullscreenChange::Leave { size: (800, 600), position: (10, 20) }));
    assert!(!w.fullscreen);
}

#[test]
fn window_resize_requests_new_grid_size() {
    let g = geometry();
    let mut sched = RedrawScheduler::new();
    let mut w = WinitWindowWrapper::new((800, 600), "Neovide".to_string());
    let plan = w.draw_frame((1005, 610), &g, false, &mut sched);
    assert!(matches!(plan.resize, Some(UiCommand::Resize { grid_id: 1, width: 100, height: 30 })));
    assert!(!plan.draw);
    assert_eq!(w.previous_size, (1005, 610));
    assert!(grid_size_command((0, 600), 10, 20).is_none());
}

#[test]
fn redraw_resize_reaches_grid_state() {
    let mut handler = NeovimHandler::new(WindowSettings::new());
    let mut sched = RedrawScheduler::new();
    let out = handler.handle_notify("redraw", &vec![resize_group(1, 10, 20)], &mut sched);
    assert!(matches!(out, NotifyOutcome::Redrawn));
    assert_eq!(handler.grid_size(1), Some((10, 20)));
    assert!(sched.should_draw(false));
}

#[test]
fn redraw_batches_apply_in_arrival_order() {
    let mut handler = NeovimHandler::new(WindowSettings::new());
    let mut sched = RedrawScheduler::new();
    let batches = vec![
        vec![resize_group(1, 10, 20)],
        vec![resize_group(1, 30, 40), resize_group(2, 5, 5)],
        vec![Msg::Array(vec![s("grid_destroy"), Msg::Array(vec![Msg::UInt(2)])]), resize_group(1, 80, 24)],
    ];
    handler.handle_redraw_batches(&batches, &mut sched);
    assert_eq!(handler.grid_size(1), Some((80, 24)));
    assert_eq!(handler.grid_size(2), None);
    assert!(sched.should_draw(false));
}

#[test]
fn one_group_with_several_updates() {
    let mut grids = GridState::new();
    let group = Msg::Array(vec![
        s("grid_resize"),
        Msg::Array(vec![Msg::UInt(1), Msg::UInt(10), Msg::UInt(20)]),
        Msg::Array(vec![Msg::UInt(1), Msg::UInt(11), Msg::UInt(21)]),
        Msg::Array(vec![Msg::UInt(3), Msg::UInt(4)]),
    ]);
    grids.apply_batch(&vec![group, s("not a group"), Msg::Array(vec![s("flush")])]);
    assert_eq!(grids.size_of(1), Some((11, 21)));
    assert_eq!(grids.size_of(3), None);
}

#[test]
fn parse_event_decodes_updates() {
    let p = Msg::Array(vec![Msg::UInt(4), Msg::UInt(80), Msg::UInt(24)]);
    assert!(matches!(parse_event("grid_resize", &p), RedrawEvent::Resize { grid: 4, width: 80, height: 24 }));
    assert!(matches!(parse_event("grid_destroy", &p), RedrawEvent::Destroy { grid: 4 }));
    assert!(matches!(parse_event("grid_clear", &p), RedrawEvent::Ignored));
    let bad = Msg::Array(vec![Msg::NegInt(-1), Msg::UInt(80), Msg::UInt(24)]);
    assert!(matches!(parse_event("grid_resize", &bad), RedrawEvent::Ignored));
}

#[test]
fn setting_changed_refresh_rate_changes_idle_step() {
    let mut handler = NeovimHandler::new(WindowSettings::new());
    let mut sched = RedrawScheduler::new();
    assert_eq!(frame_delta_ns(false, 5, handler.refresh_rate()), 16_666_666);
    let out = handler.handle_notify("setting_changed", &vec![s("refresh_rate"), Msg::UInt(30)], &mut sched);
    assert!(matches!(out, NotifyOutcome::SettingApplied(true)));
    assert_eq!(handler.refresh_rate(), 30);
    let tick = begin_tick(true, false, 5, handler.refresh_rate());
    assert!(!tick.exit);
    assert_eq!(tick.dt_ns, 33_333_333);
    assert!(sched.is_idle());
}

#[test]
fn rejected_settings_change_nothing() {
    let mut settings = WindowSettings::new();
    assert!(!settings.handle_changed_notification(&vec![s("refresh_rate"), Msg::UInt(0)]));
    assert!(!settings.handle_changed_notification(&vec![s("refresh_rate"), Msg::Boolean(true)]));
    assert!(!settings.handle_changed_notification(&vec![s("unknown"), Msg::UInt(3)]));
    assert!(!settings.handle_changed_notification(&vec![s("no_idle")]));
    assert!(!settings.handle_changed_notification(&vec![Msg::UInt(1), Msg::UInt(3)]));
    assert_eq!(settings.refresh_rate, 60);
    assert!(settings.handle_changed_notification(&vec![s("no_idle"), Msg::Boolean(true)]));
    assert!(settings.no_idle);
    assert!(settings.handle_changed_notification(&vec![s("fullscreen"), Msg::Boolean(true)]));
    assert!(settings.fullscreen);
}

#[test]
fn notification_names_classify() {
    assert!(matches!(classify_notification("redraw"), NotificationKind::Redraw));
    assert!(matches!(classify_notification("setting_changed"), NotificationKind::SettingChanged));
    assert!(matches!(classify_notification("neovide.reg_right_click"), NotificationKind::RegisterRightClick));
    assert!(matches!(classify_notification("neovide.unreg_right_click"), NotificationKind::UnregisterRightClick));
    assert!(matches!(classify_notification("redraws"), NotificationKind::Unrecognized));
}

#[test]
fn unknown_and_shell_notifications_leave_state() {
    let mut handler = NeovimHandler::new(WindowSettings::new());
    let mut sched = RedrawScheduler::new();
    let out = handler.handle_notify("something_new", &vec![resize_group(1, 10, 20)], &mut sched);
    assert!(matches!(out, NotifyOutcome::Ignored));
    let reg = handler.handle_notify("neovide.reg_right_click", &vec![], &mut sched);
    assert!(matches!(reg, NotifyOutcome::ShellIntegration { register: true }));
    let unreg = handler.handle_notify("neovide.unreg_right_click", &vec![], &mut sched);
    assert!(matches!(unreg, NotifyOutcome::ShellIntegration { register: false }));
    assert_eq!(handler.grid_size(1), None);
    assert!(sched.is_idle());
}

#[test]
fn pacing_values() {
    assert_eq!(frame_budget_ns(60), 16_666_666);
    assert_eq!(frame_budget_ns(1), 1_000_000_000);
    assert_eq!(frame_delta_ns(true, 12_345, 60), 12_345);
    assert_eq!(remaining_budget_ns(60, 6_666_666), 10_000_000);
    assert_eq!(remaining_budget_ns(60, 20_000_000), 0);
    assert_eq!(next_wake_ns(1_000, 60, 6_666_666), 10_001_000);
    assert_eq!(next_wake_ns(1_000, 60, 30_000_000), 1_000);
    assert_eq!(next_wake_ns(u64::MAX - 5, 60, 0), u64::MAX);
    assert!(begin_tick(false, false, 0, 60).exit);
}

#[test]
fn string_comparison() {
    assert!(str_equals("grid_resize", "grid_resize"));
    assert!(!str_equals("grid_resize", "grid_resizf"));
    assert!(!str_equals("grid", "grid_resize"));
    assert!(str_equals("", ""));
}

#[test]
fn initial_dimensions_are_fixed() {
    assert_eq!(neovide_core::window::get_initial_dimensions(), (100, 50));
}
