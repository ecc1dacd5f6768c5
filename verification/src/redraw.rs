//! How the screen is drawn.

use crate::application::Application;
use crate::outside::new_rect;
use crate::types::ProgramTypes;
use vstd::prelude::*;

verus! {

/// Something that has to be done to draw the screen.
#[derive(Clone, Copy, Debug, PartialEq, Eq, Structural)]
pub enum RedrawTask {
    /// Clear the terminal.
    Clear,
    /// Draw a frame.
    Draw,
}

/// A place on the terminal.
#[derive(Clone, Copy, Debug, PartialEq, Eq, Structural)]
pub struct Area {
    pub x: u16,
    pub y: u16,
    pub width: u16,
    pub height: u16,
}

/// The colour of a text.
#[derive(Clone, Copy, Debug, PartialEq, Eq, Structural)]
pub enum Color {
    Green,
}

/// A character that is drawn over the frame.
#[derive(Clone, Copy, Debug, PartialEq, Eq, Structural)]
pub struct Indicator {
    pub text: char,
    pub color: Color,
    pub area: Area,
}

/// Where the cursor of the terminal goes, and what is drawn there before.
#[derive(Clone, Copy, Debug, PartialEq, Eq, Structural)]
pub struct CursorPlan {
    pub indicator: Option<Indicator>,
    pub x: u16,
    pub y: u16,
}

/// How the screen is shown.
#[derive(Clone, Copy, Debug, PartialEq, Eq, Structural)]
pub struct FramePlan {
    /// Whether the windows have borders.
    pub borders: bool,
    /// Whether the cursor of the terminal is hidden.
    pub hide_cursor: bool,
}

impl<P: ProgramTypes> Application<P> {
    /// Begins to draw the screen. A full drawing clears the terminal first.
    pub fn redraw(full: bool) -> (task: RedrawTask)
        ensures
            task == if full {
                RedrawTask::Clear
            } else {
                RedrawTask::Draw
            },
    {
        if full {
            RedrawTask::Clear
        } else {
            RedrawTask::Draw
        }
    }
}

impl RedrawTask {
    /// Goes on with the drawing: a frame is drawn once the terminal is cleared, and then the
    /// drawing is over. It is over as well with the first failure.
    pub fn resume<E>(self, result: Result<(), E>) -> (next: Result<Option<RedrawTask>, E>)
        ensures
            match result {
                Err(error) => next == Err::<Option<RedrawTask>, E>(error),
                Ok(_) => next == Ok::<Option<RedrawTask>, E>(
                    match self {
                        RedrawTask::Clear => Some(RedrawTask::Draw),
                        RedrawTask::Draw => None,
                    },
                ),
            },
    {
        match result {
            Err(error) => Err(error),
            Ok(()) => match self {
                RedrawTask::Clear => Ok(Some(RedrawTask::Draw)),
                RedrawTask::Draw => Ok(None),
            },
        }
    }
}

/// How many rows and columns a dialog may take up on a terminal.
pub fn dialog_space(width: u16, height: u16) -> (space: (usize, usize))
    ensures
        space.0 == height,
        space.1 == width,
{
    (height as usize, width as usize)
}

/// How the screen is shown with so many lines of dialog: the cursor is hidden while there is
/// a dialog.
pub fn frame_plan(dialog_lines: usize) -> (plan: FramePlan)
    ensures
        plan.borders,
        plan.hide_cursor <==> dialog_lines > 0,
{
    // Don't show terminal cursor when we show a dialog.
    let hide_cursor = dialog_lines != 0;
    FramePlan { borders: true, hide_cursor }
}

impl FramePlan {
    /// Where the cursor goes once the screen is shown. The cursor of the screen is marked
    /// with a green indicator, if the keybindings have one; there is no cursor if the screen
    /// has none or it is hidden.
    pub fn cursor(self, term_cursor: Option<(u16, u16)>, indicator: Option<char>) -> (plan: Option<
        CursorPlan,
    >)
        ensures
            plan is Some <==> !self.hide_cursor && term_cursor is Some,
            plan matches Some(plan) ==> {
                let (x, y) = term_cursor->0;
                &&& plan.x == x
                &&& plan.y == y
                &&& plan.indicator == match indicator {
                    None => None::<Indicator>,
                    Some(text) => Some(
                        Indicator {
                            text,
                            color: Color::Green,
                            area: Area { x, y, width: 1, height: 1 },
                        },
                    ),
                }
            },
    {
        if self.hide_cursor {
            return None;
        }
        if let Some((x, y)) = term_cursor {
            let indicator = match indicator {
                Some(text) => {
                    let (left, top, width, height) = new_rect(x, y, 1, 1);
                    let area = Area { x: left, y: top, width, height };
                    Some(Indicator { text, color: Color::Green, area })
                },
                None => None,
            };
            return Some(CursorPlan { indicator, x, y });
        }
        None
    }
}

} // verus!
