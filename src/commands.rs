//! Commands that cross between the render loop and the editor connection.

use vstd::prelude::*;

verus! {

/// Direction of one discrete scroll step.
pub enum ScrollDirection {
    Up,
    Down,
    Left,
    Right,
}

/// Whether a mouse button went down or up.
pub enum ButtonAction {
    Press,
    Release,
}

impl ScrollDirection {
    /// The editor's name for this direction.
    pub fn name(&self) -> (r: &'static str)
        ensures
            r@ == match *self {
                ScrollDirection::Up => "up"@,
                ScrollDirection::Down => "down"@,
                ScrollDirection::Left => "left"@,
                ScrollDirection::Right => "right"@,
            },
    {
        match self {
            ScrollDirection::Up => "up",
            ScrollDirection::Down => "down",
            ScrollDirection::Left => "left",
            ScrollDirection::Right => "right",
        }
    }
}

impl ButtonAction {
    /// The editor's name for this action.
    pub fn name(&self) -> (r: &'static str)
        ensures
            r@ == match *self {
                ButtonAction::Press => "press"@,
                ButtonAction::Release => "release"@,
            },
    {
        match self {
            ButtonAction::Press => "press",
            ButtonAction::Release => "release",
        }
    }
}

/// A user-intent command sent from the render loop to the editor. Positions
/// are cells of the target grid.
pub enum UiCommand {
    Keyboard(String),
    MouseButton { action: ButtonAction, grid_id: u64, position: (u64, u64) },
    Drag { grid_id: u64, position: (u64, u64) },
    Scroll { direction: ScrollDirection, grid_id: u64, position: (u64, u64) },
    FocusGained,
    FocusLost,
    FileDrop(String),
    Resize { grid_id: u64, width: u64, height: u64 },
}

/// A command from the editor side to the window.
pub enum WindowCommand {
    TitleChanged(String),
    SetMouseEnabled(bool),
}

} // verus!
