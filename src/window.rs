//! The render loop's window state: translation of platform input into editor
//! commands, window commands, fullscreen bookkeeping and the per-frame draw
//! decision. The platform window itself is driven by the caller.

use vstd::prelude::*;
use crate::commands::{ButtonAction, ScrollDirection, UiCommand, WindowCommand};
use crate::scheduler::{RedrawScheduler, after_draw_check_spec, draws_spec, queue_spec};

verus! {

/// Grid that receives resize requests for the whole window.
pub const DEFAULT_GRID: u64 = 1;

/// Columns and rows of the editor before the window reports its size.
pub const INITIAL_DIMENSIONS: (u64, u64) = (100, 50);

/// The startup size of the editor in cells.
pub fn get_initial_dimensions() -> (r: (u64, u64))
    ensures
        r == INITIAL_DIMENSIONS,
{
    INITIAL_DIMENSIONS
}

/// The pixel extent of one editor window on screen.
#[derive(Clone, Copy)]
pub struct WindowRegion {
    pub id: u64,
    pub left: u64,
    pub top: u64,
    pub right: u64,
    pub bottom: u64,
    pub floating: bool,
}

/// Where the grids lie on screen, and the size of one cell in pixels.
pub struct GridGeometry {
    pub regions: Vec<WindowRegion>,
    pub font_width: u64,
    pub font_height: u64,
}

impl GridGeometry {
    pub open spec fn wf(&self) -> bool {
        self.font_width > 0 && self.font_height > 0
    }
}

/// A platform event, with pointer positions in logical pixels and key
/// presses already translated into the editor's key notation.
pub enum InputEvent {
    LoopDestroyed,
    CloseRequested,
    DroppedFile(String),
    KeyboardInput { pressed: bool, keybinding: Option<String> },
    ModifiersChanged,
    CursorMoved { x: u64, y: u64 },
    MouseWheel { dx: i32, dy: i32 },
    LeftButton { pressed: bool },
    Focused(bool),
    /// Any other window event: the window may need repainting.
    OtherWindowEvent,
    /// Events that do not concern the window.
    Other,
}

/// A change of fullscreen mode for the platform layer to carry out.
pub enum FullscreenChange {
    /// Go borderless fullscreen on the current monitor.
    Enter,
    /// Leave fullscreen and restore the window's earlier size and position.
    Leave { size: (u64, u64), position: (i32, i32) },
}

/// What to do this frame.
pub struct FramePlan {
    /// A resize request for the editor, when the window size changed.
    pub resize: Option<UiCommand>,
    /// Whether to draw.
    pub draw: bool,
}

/// State of the window as the render loop tracks it.
pub struct WinitWindowWrapper {
    pub mouse_down: bool,
    /// Cell under the pointer, in the coordinates of `grid_id_under_mouse`.
    pub mouse_position: (u64, u64),
    pub mouse_enabled: bool,
    pub grid_id_under_mouse: u64,
    pub title: String,
    pub previous_size: (u64, u64),
    pub fullscreen: bool,
    pub cached_size: (u64, u64),
    pub cached_position: (i32, i32),
    /// The running flag; once false the render loop ends.
    pub running: bool,
}

pub open spec fn region_hit(r: WindowRegion, x: u64, y: u64) -> bool {
    r.left <= x < r.right && r.top <= y < r.bottom
}

/// The region under a point: the last one listed that contains it.
pub open spec fn top_region(rs: Seq<WindowRegion>, x: u64, y: u64) -> Option<WindowRegion>
    decreases rs.len(),
{
    if rs.len() == 0 {
        None
    } else if region_hit(rs.last(), x, y) {
        Some(rs.last())
    } else {
        top_region(rs.drop_last(), x, y)
    }
}

/// The cell of region `r` under a point inside it.
pub open spec fn cell_in(r: WindowRegion, x: u64, y: u64, fw: u64, fh: u64) -> (u64, u64) {
    (((x - r.left) / (fw as int)) as u64, ((y - r.top) / (fh as int)) as u64)
}

/// Position sent with a drag. Floating windows take grid cells; other windows
/// take the cell shifted by the window's own offset in cells.
pub open spec fn drag_position(r: WindowRegion, cell: (u64, u64), fw: u64, fh: u64) -> (u64, u64) {
    if r.floating {
        cell
    } else {
        ((cell.0 + (r.left as int) / (fw as int)) as u64, (cell.1 + (r.top as int) / (fh as int)) as u64)
    }
}

/// State and command after pointer motion to `(x, y)`.
pub open spec fn motion_spec(
    s: WinitWindowWrapper,
    rs: Seq<WindowRegion>,
    fw: u64,
    fh: u64,
    x: u64,
    y: u64,
) -> (WinitWindowWrapper, Option<UiCommand>) {
    match top_region(rs, x, y) {
        None => (s, None),
        Some(reg) => {
            let cell = cell_in(reg, x, y, fw, fh);
            let s2 = WinitWindowWrapper { grid_id_under_mouse: reg.id, mouse_position: cell, ..s };
            if s.mouse_enabled && s.mouse_down && s.mouse_position != cell {
                (s2, Some(UiCommand::Drag { grid_id: reg.id, position: drag_position(reg, cell, fw, fh) }))
            } else {
                (s2, None)
            }
        },
    }
}

pub open spec fn vertical_direction(y: i32) -> Option<ScrollDirection> {
    if y > 0 {
        Some(ScrollDirection::Up)
    } else if y < 0 {
        Some(ScrollDirection::Down)
    } else {
        None
    }
}

pub open spec fn horizontal_direction(x: i32) -> Option<ScrollDirection> {
    if x > 0 {
        Some(ScrollDirection::Right)
    } else if x < 0 {
        Some(ScrollDirection::Left)
    } else {
        None
    }
}

pub open spec fn scroll_step(s: WinitWindowWrapper, d: Option<ScrollDirection>) -> Seq<UiCommand> {
    match d {
        Some(direction) => seq![UiCommand::Scroll { direction, grid_id: s.grid_id_under_mouse, position: s.mouse_position }],
        None => Seq::empty(),
    }
}

/// Commands of a wheel event: a vertical step, then a horizontal step, one
/// for each axis that moved.
pub open spec fn wheel_spec(s: WinitWindowWrapper, x: i32, y: i32) -> Seq<UiCommand> {
    if !s.mouse_enabled {
        Seq::empty()
    } else {
        scroll_step(s, vertical_direction(y)) + scroll_step(s, horizontal_direction(x))
    }
}

pub open spec fn button_spec(s: WinitWindowWrapper, action: ButtonAction) -> Option<UiCommand> {
    if s.mouse_enabled {
        Some(UiCommand::MouseButton { action, grid_id: s.grid_id_under_mouse, position: s.mouse_position })
    } else {
        None
    }
}

pub open spec fn opt_seq(c: Option<UiCommand>) -> Seq<UiCommand> {
    match c {
        Some(c) => seq![c],
        None => Seq::empty(),
    }
}

/// State, commands, and whether a frame gets queued, after one event.
pub open spec fn event_spec(
    s: WinitWindowWrapper,
    e: InputEvent,
    rs: Seq<WindowRegion>,
    fw: u64,
    fh: u64,
) -> (WinitWindowWrapper, Seq<UiCommand>, bool) {
    match e {
        InputEvent::LoopDestroyed => (WinitWindowWrapper { running: false, ..s }, Seq::empty(), false),
        InputEvent::CloseRequested => (WinitWindowWrapper { running: false, ..s }, Seq::empty(), false),
        InputEvent::DroppedFile(path) => (s, seq![UiCommand::FileDrop(path)], false),
        InputEvent::KeyboardInput { pressed, keybinding } => match keybinding {
            Some(k) => if pressed {
                (s, seq![UiCommand::Keyboard(k)], false)
            } else {
                (s, Seq::empty(), false)
            },
            None => (s, Seq::empty(), false),
        },
        InputEvent::ModifiersChanged => (s, Seq::empty(), false),
        InputEvent::CursorMoved { x, y } => {
            let m = motion_spec(s, rs, fw, fh, x, y);
            (m.0, opt_seq(m.1), false)
        },
        InputEvent::MouseWheel { dx, dy } => (s, wheel_spec(s, dx, dy), false),
        InputEvent::LeftButton { pressed } => if pressed {
            (WinitWindowWrapper { mouse_down: true, ..s }, opt_seq(button_spec(s, ButtonAction::Press)), false)
        } else {
            (WinitWindowWrapper { mouse_down: false, ..s }, opt_seq(button_spec(s, ButtonAction::Release)), false)
        },
        InputEvent::Focused(focus) => if focus {
            (s, seq![UiCommand::FocusGained], true)
        } else {
            (s, seq![UiCommand::FocusLost], false)
        },
        InputEvent::OtherWindowEvent => (s, Seq::empty(), true),
        InputEvent::Other => (s, Seq::empty(), false),
    }
}

/// The resize request for a window of `size` logical pixels: as many whole
/// cells as fit; none for an empty window.
pub open spec fn grid_size_spec(size: (u64, u64), fw: u64, fh: u64) -> Option<UiCommand> {
    if size.0 > 0 && size.1 > 0 {
        Some(UiCommand::Resize { grid_id: DEFAULT_GRID, width: (size.0 / fw) as u64, height: (size.1 / fh) as u64 })
    } else {
        None
    }
}

/// The resize request for a window of `size` logical pixels.
pub fn grid_size_command(size: (u64, u64), font_width: u64, font_height: u64) -> (r: Option<UiCommand>)
    requires
        font_width > 0,
        font_height > 0,
    ensures
        r == grid_size_spec(size, font_width, font_height),
{
    if size.0 > 0 && size.1 > 0 {
        Some(UiCommand::Resize { grid_id: DEFAULT_GRID, width: size.0 / font_width, height: size.1 / font_height })
    } else {
        None
    }
}

/// The region under a point, found as `top_region` defines it.
pub fn find_region(regions: &Vec<WindowRegion>, x: u64, y: u64) -> (r: Option<WindowRegion>)
    ensures
        r == top_region(regions@, x, y),
{
    let mut found: Option<WindowRegion> = None;
    let mut i: usize = 0;
    while i < regions.len()
        invariant
            i <= regions@.len(),
            found == top_region(regions@.subrange(0, i as int), x, y),
        decreases regions@.len() - i,
    {
        let reg = regions[i];
        assert(regions@.subrange(0, i + 1).drop_last() == regions@.subrange(0, i as int));
        if reg.left <= x && x < reg.right && reg.top <= y && y < reg.bottom {
            found = Some(reg);
        }
        i = i + 1;
    }
    assert(regions@.subrange(0, regions@.len() as int) == regions@);
    found
}

proof fn lemma_top_region_hits(rs: Seq<WindowRegion>, x: u64, y: u64)
    ensures
        top_region(rs, x, y) is Some ==> region_hit(top_region(rs, x, y)->0, x, y),
    decreases rs.len(),
{
    if rs.len() > 0 {
        lemma_top_region_hits(rs.drop_last(), x, y);
    }
}

proof fn lemma_div_le(a: u64, f: u64)
    requires
        f > 0,
    ensures
        (a as int) / (f as int) <= a,
{
    assert((a as int) / (f as int) <= a) by (nonlinear_arith)
        requires
            f > 0,
            a >= 0,
    ;
}

impl WinitWindowWrapper {
    /// The state at startup: running, mouse enabled, not fullscreen.
    pub fn new(initial_size: (u64, u64), title: String) -> (r: WinitWindowWrapper)
        ensures
            r == (WinitWindowWrapper {
                mouse_down: false,
                mouse_position: (0, 0),
                mouse_enabled: true,
                grid_id_under_mouse: 0,
                title,
                previous_size: initial_size,
                fullscreen: false,
                cached_size: (0, 0),
                cached_position: (0, 0),
                running: true,
            }),
    {
        WinitWindowWrapper {
            mouse_down: false,
            mouse_position: (0, 0),
            mouse_enabled: true,
            grid_id_under_mouse: 0,
            title,
            previous_size: initial_size,
            fullscreen: false,
            cached_size: (0, 0),
            cached_position: (0, 0),
            running: true,
        }
    }

    /// Switches fullscreen mode. Entering remembers the window's size and
    /// position; leaving restores them.
    pub fn toggle_fullscreen(&mut self, current_size: (u64, u64), current_position: (i32, i32)) -> (r: FullscreenChange)
        ensures
            final(self).fullscreen == !old(self).fullscreen,
            old(self).fullscreen ==> {
                &&& r == (FullscreenChange::Leave { size: old(self).cached_size, position: old(self).cached_position })
                &&& *final(self) == (WinitWindowWrapper { fullscreen: false, ..*old(self) })
            },
            !old(self).fullscreen ==> {
                &&& r == FullscreenChange::Enter
                &&& *final(self) == (WinitWindowWrapper {
                    fullscreen: true,
                    cached_size: current_size,
                    cached_position: current_position,
                    ..*old(self)
                })
            },
    {
        if self.fullscreen {
            self.fullscreen = false;
            FullscreenChange::Leave { size: self.cached_size, position: self.cached_position }
        } else {
            self.cached_size = current_size;
            self.cached_position = current_position;
            self.fullscreen = true;
            FullscreenChange::Enter
        }
    }

    /// Brings the fullscreen mode in line with the settings.
    pub fn synchronize_settings(&mut self, fullscreen: bool, current_size: (u64, u64), current_position: (i32, i32)) -> (r: Option<FullscreenChange>)
        ensures
            final(self).fullscreen == fullscreen,
            old(self).fullscreen == fullscreen ==> r is None && *final(self) == *old(self),
            old(self).fullscreen && !fullscreen ==> {
                &&& r == Some(FullscreenChange::Leave { size: old(self).cached_size, position: old(self).cached_position })
                &&& *final(self) == (WinitWindowWrapper { fullscreen: false, ..*old(self) })
            },
            !old(self).fullscreen && fullscreen ==> {
                &&& r == Some(FullscreenChange::Enter)
                &&& *final(self) == (WinitWindowWrapper {
                    fullscreen: true,
                    cached_size: current_size,
                    cached_position: current_position,
                    ..*old(self)
                })
            },
    {
        if self.fullscreen != fullscreen {
            Some(self.toggle_fullscreen(current_size, current_position))
        } else {
            None
        }
    }

    pub fn handle_title_changed(&mut self, new_title: String)
        ensures
            *final(self) == (WinitWindowWrapper { title: new_title, ..*old(self) }),
    {
        self.title = new_title;
    }

    /// Lowers the running flag.
    pub fn handle_quit(&mut self)
        ensures
            *final(self) == (WinitWindowWrapper { running: false, ..*old(self) }),
    {
        self.running = false;
    }

    /// A key press becomes a keyboard command when it has a key notation.
    pub fn handle_keyboard_input(&self, keybinding: Option<String>) -> (r: Option<UiCommand>)
        ensures
            match keybinding {
                Some(k) => r == Some(UiCommand::Keyboard(k)),
                None => r is None,
            },
    {
        match keybinding {
            Some(k) => Some(UiCommand::Keyboard(k)),
            None => None,
        }
    }

    /// Tracks the pointer to the grid cell under it, and reports a drag while
    /// the button is held only when that cell changed.
    pub fn handle_pointer_motion(&mut self, x: u64, y: u64, geometry: &GridGeometry) -> (r: Option<UiCommand>)
        requires
            geometry.wf(),
        ensures
            (*final(self), r) == motion_spec(*old(self), geometry.regions@, geometry.font_width, geometry.font_height, x, y),
    {
        let fw = geometry.font_width;
        let fh = geometry.font_height;
        match find_region(&geometry.regions, x, y) {
            None => None,
            Some(reg) => {
                proof {
                    lemma_top_region_hits(geometry.regions@, x, y);
                }
                let previous = self.mouse_position;
                let cell = ((x - reg.left) / fw, (y - reg.top) / fh);
                self.grid_id_under_mouse = reg.id;
                self.mouse_position = cell;
                if self.mouse_enabled && self.mouse_down && (previous.0 != cell.0 || previous.1 != cell.1) {
                    let position = if reg.floating {
                        cell
                    } else {
                        proof {
                            lemma_div_le((x - reg.left) as u64, fw);
                            lemma_div_le(reg.left, fw);
                            lemma_div_le((y - reg.top) as u64, fh);
                            lemma_div_le(reg.top, fh);
                        }
                        (cell.0 + reg.left / fw, cell.1 + reg.top / fh)
                    };
                    Some(UiCommand::Drag { grid_id: reg.id, position })
                } else {
                    None
                }
            },
        }
    }

    pub fn handle_pointer_down(&mut self) -> (r: Option<UiCommand>)
        ensures
            r == button_spec(*old(self), ButtonAction::Press),
            *final(self) == (WinitWindowWrapper { mouse_down: true, ..*old(self) }),
    {
        let r = if self.mouse_enabled {
            Some(UiCommand::MouseButton { action: ButtonAction::Press, grid_id: self.grid_id_under_mouse, position: self.mouse_position })
        } else {
            None
        };
        self.mouse_down = true;
        r
    }

    pub fn handle_pointer_up(&mut self) -> (r: Option<UiCommand>)
        ensures
            r == button_spec(*old(self), ButtonAction::Release),
            *final(self) == (WinitWindowWrapper { mouse_down: false, ..*old(self) }),
    {
        let r = if self.mouse_enabled {
            Some(UiCommand::MouseButton { action: ButtonAction::Release, grid_id: self.grid_id_under_mouse, position: self.mouse_position })
        } else {
            None
        };
        self.mouse_down = false;
        r
    }

    /// Splits a wheel event into one discrete scroll per axis that moved.
    pub fn handle_mouse_wheel(&self, x: i32, y: i32) -> (r: Vec<UiCommand>)
        ensures
            r@ == wheel_spec(*self, x, y),
    {
        let mut r: Vec<UiCommand> = Vec::new();
        if !self.mouse_enabled {
            return r;
        }
        let vertical = if y > 0 {
            Some(ScrollDirection::Up)
        } else if y < 0 {
            Some(ScrollDirection::Down)
        } else {
            None
        };
        match vertical {
            Some(direction) => {
                r.push(UiCommand::Scroll { direction, grid_id: self.grid_id_under_mouse, position: self.mouse_position });
            },
            None => {},
        }
        let horizontal = if x > 0 {
            Some(ScrollDirection::Right)
        } else if x < 0 {
            Some(ScrollDirection::Left)
        } else {
            None
        };
        match horizontal {
            Some(direction) => {
                r.push(UiCommand::Scroll { direction, grid_id: self.grid_id_under_mouse, position: self.mouse_position });
            },
            None => {},
        }
        assert(r@ =~= wheel_spec(*self, x, y));
        r
    }

    pub fn handle_focus_lost(&self) -> (r: UiCommand)
        ensures
            r == UiCommand::FocusLost,
    {
        UiCommand::FocusLost
    }

    /// Regaining focus notifies the editor and queues a frame.
    pub fn handle_focus_gained(&self, scheduler: &mut RedrawScheduler) -> (r: UiCommand)
        ensures
            r == UiCommand::FocusGained,
            final(scheduler)@ == queue_spec(old(scheduler)@),
    {
        scheduler.queue_next_frame();
        UiCommand::FocusGained
    }

    /// Translates one platform event into commands for the editor.
    pub fn handle_event(&mut self, event: InputEvent, geometry: &GridGeometry, scheduler: &mut RedrawScheduler) -> (r: Vec<UiCommand>)
        requires
            geometry.wf(),
        ensures
            *final(self) == event_spec(*old(self), event, geometry.regions@, geometry.font_width, geometry.font_height).0,
            r@ == event_spec(*old(self), event, geometry.regions@, geometry.font_width, geometry.font_height).1,
            event_spec(*old(self), event, geometry.regions@, geometry.font_width, geometry.font_height).2
                ==> final(scheduler)@ == queue_spec(old(scheduler)@),
            !event_spec(*old(self), event, geometry.regions@, geometry.font_width, geometry.font_height).2
                ==> final(scheduler)@ == old(scheduler)@,
    {
        let mut r: Vec<UiCommand> = Vec::new();
        match event {
            InputEvent::LoopDestroyed => self.handle_quit(),
            InputEvent::CloseRequested => self.handle_quit(),
            InputEvent::DroppedFile(path) => r.push(UiCommand::FileDrop(path)),
            InputEvent::KeyboardInput { pressed, keybinding } => {
                if pressed {
                    match self.handle_keyboard_input(keybinding) {
                        Some(c) => r.push(c),
                        None => {},
                    }
                }
            },
            InputEvent::ModifiersChanged => {},
            InputEvent::CursorMoved { x, y } => {
                match self.handle_pointer_motion(x, y, geometry) {
                    Some(c) => r.push(c),
                    None => {},
                }
            },
            InputEvent::MouseWheel { dx, dy } => {
                r = self.handle_mouse_wheel(dx, dy);
            },
            InputEvent::LeftButton { pressed } => {
                let c = if pressed {
                    self.handle_pointer_down()
                } else {
                    self.handle_pointer_up()
                };
                match c {
                    Some(c) => r.push(c),
                    None => {},
                }
            },
            InputEvent::Focused(focus) => {
                if focus {
                    r.push(self.handle_focus_gained(scheduler));
                } else {
                    r.push(self.handle_focus_lost());
                }
            },
            InputEvent::OtherWindowEvent => scheduler.queue_next_frame(),
            InputEvent::Other => {},
        }
        assert(r@ =~= event_spec(*old(self), event, geometry.regions@, geometry.font_width, geometry.font_height).1);
        r
    }

    /// Applies one command from the editor side.
    pub fn handle_window_command(&mut self, command: WindowCommand)
        ensures
            match command {
                WindowCommand::TitleChanged(t) => *final(self) == (WinitWindowWrapper { title: t, ..*old(self) }),
                WindowCommand::SetMouseEnabled(b) => *final(self) == (WinitWindowWrapper { mouse_enabled: b, ..*old(self) }),
            },
    {
        match command {
            WindowCommand::TitleChanged(t) => self.handle_title_changed(t),
            WindowCommand::SetMouseEnabled(b) => self.mouse_enabled = b,
        }
    }

    /// The frame decision: a resize request when the window size changed, and
    /// whether the scheduler (or the no-idle setting) asks for a draw.
    pub fn draw_frame(&mut self, new_size: (u64, u64), geometry: &GridGeometry, no_idle: bool, scheduler: &mut RedrawScheduler) -> (r: FramePlan)
        requires
            geometry.wf(),
        ensures
            r.draw == draws_spec(old(scheduler)@, no_idle),
            final(scheduler)@ == after_draw_check_spec(old(scheduler)@),
            *final(self) == (WinitWindowWrapper { previous_size: new_size, ..*old(self) }),
            r.resize == if old(self).previous_size != new_size {
                grid_size_spec(new_size, geometry.font_width, geometry.font_height)
            } else {
                None
            },
    {
        let resize = if self.previous_size.0 != new_size.0 || self.previous_size.1 != new_size.1 {
            self.previous_size = new_size;
            grid_size_command(new_size, geometry.font_width, geometry.font_height)
        } else {
            None
        };
        let draw = scheduler.should_draw(no_idle);
        FramePlan { resize, draw }
    }
}

/// Two consecutive pointer motions that resolve to the same grid cell send at
/// most one drag: the second sends none.
pub proof fn lemma_drag_deduplicated(
    s: WinitWindowWrapper,
    rs: Seq<WindowRegion>,
    fw: u64,
    fh: u64,
    x1: u64,
    y1: u64,
    x2: u64,
    y2: u64,
)
    requires
        top_region(rs, x1, y1) is Some,
        top_region(rs, x2, y2) is Some,
        cell_in(top_region(rs, x1, y1)->0, x1, y1, fw, fh) == cell_in(top_region(rs, x2, y2)->0, x2, y2, fw, fh),
    ensures
        motion_spec(motion_spec(s, rs, fw, fh, x1, y1).0, rs, fw, fh, x2, y2).1 is None,
{
}

} // verus!
