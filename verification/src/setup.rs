//! How the terminal and the first window are opened, and how the terminal is given back.

use crate::application::{Application, Effect, Model};
use crate::text::window_title;
use crate::types::{IambId, ProgramTypes, UIError};
use vstd::prelude::*;

verus! {

/// The code that the process exits with after a panic.
pub const PANIC_EXIT_CODE: i32 = 1;

/// The client while it is being opened: what has to be done next, and what is needed later.
#[allow(inconsistent_fields)]
pub enum Setup<P: ProgramTypes> {
    /// Put the terminal into raw mode.
    EnableRawMode { title: String, default_room: Option<String> },
    /// Go to the alternate screen of the terminal.
    EnterAlternateScreen { title: String, default_room: Option<String> },
    /// Have pasted text marked as such.
    EnableBracketedPaste { title: String, default_room: Option<String> },
    /// Set the title of the terminal window.
    SetTitle { title: String, default_room: Option<String> },
    /// Begin to draw on the terminal.
    OpenTerminal { default_room: Option<String> },
    /// Find the window of the room with this name.
    FindRoom(String),
    /// Open a window.
    OpenWindow(IambId<P>),
}

/// How far the opening of the client has got after a window was asked for.
pub enum Opened<P: ProgramTypes, W> {
    /// The client can run, with this window shown.
    Ready(Application<P>, W),
    /// Another window has to be opened.
    Pending(Setup<P>),
}

impl<P: ProgramTypes> Setup<P> {
    /// Whether a window is asked for, rather than a change to the terminal.
    pub open spec fn wants_window(self) -> bool {
        self is FindRoom || self is OpenWindow
    }

    /// What has to be done after a change to the terminal: it is put into its modes one
    /// after the other and opened, and then a window is asked for, that of the default room
    /// if there is one, and the welcome window otherwise.
    pub open spec fn after_change(self) -> Setup<P> {
        match self {
            Setup::EnableRawMode { title, default_room } => {
                Setup::EnterAlternateScreen { title, default_room }
            },
            Setup::EnterAlternateScreen { title, default_room } => {
                Setup::EnableBracketedPaste { title, default_room }
            },
            Setup::EnableBracketedPaste { title, default_room } => {
                Setup::SetTitle { title, default_room }
            },
            Setup::SetTitle { default_room, .. } => Setup::OpenTerminal { default_room },
            Setup::OpenTerminal { default_room: Some(room) } => Setup::FindRoom(room),
            _ => Setup::OpenWindow(IambId::Welcome),
        }
    }

    /// Goes on after a change to the terminal was tried. The opening is over with the first
    /// that fails.
    pub fn changed(self, result: Result<(), P::IoError>) -> (next: Result<Setup<P>, UIError<P>>)
        requires
            !self.wants_window(),
        ensures
            match result {
                Ok(_) => next == Ok::<Setup<P>, UIError<P>>(self.after_change()),
                Err(error) => next == Err::<Setup<P>, UIError<P>>(UIError::IOError(error)),
            },
    {
        if let Err(error) = result {
            return Err(UIError::IOError(error));
        }
        let next = match self {
            Setup::EnableRawMode { title, default_room } => {
                Setup::EnterAlternateScreen { title, default_room }
            },
            Setup::EnterAlternateScreen { title, default_room } => {
                Setup::EnableBracketedPaste { title, default_room }
            },
            Setup::EnableBracketedPaste { title, default_room } => {
                Setup::SetTitle { title, default_room }
            },
            Setup::SetTitle { title: _, default_room } => Setup::OpenTerminal { default_room },
            Setup::OpenTerminal { default_room: Some(room) } => Setup::FindRoom(room),
            _ => Setup::OpenWindow(IambId::Welcome),
        };
        Ok(next)
    }

    /// Goes on after a window was asked for. The client runs with the window that was found;
    /// without the window of the default room the welcome window is opened in its place.
    pub fn opened<W>(self, window: Option<W>) -> (opened: Opened<P, W>)
        requires
            self.wants_window(),
            self is OpenWindow ==> window is Some,
        ensures
            match window {
                Some(win) => opened matches Opened::Ready(app, shown) && app@ == Model::<
                    P,
                >::start() && shown == win,
                None => opened == Opened::<P, W>::Pending(Setup::OpenWindow(IambId::Welcome)),
            },
    {
        match window {
            Some(win) => Opened::Ready(Application::ready(), win),
            None => Opened::Pending(Setup::OpenWindow(IambId::Welcome)),
        }
    }
}

impl<P: ProgramTypes> Application<P> {
    /// Begins to open the client of a user, with a room to show first if there is one.
    pub fn new(user_id: &str, default_room: Option<String>) -> (setup: Setup<P>)
        ensures
            setup matches Setup::EnableRawMode { title, default_room: room } && title@ == "iamb ("@
                + user_id@ + ")"@ && room == default_room,
    {
        let title = window_title(user_id);
        Setup::EnableRawMode { title, default_room }
    }
}

/// A change to the terminal that undoes others.
#[derive(Clone, Copy, Debug, PartialEq, Eq, Structural)]
pub enum Cleanup {
    DisableRawMode,
    DisableBracketedPaste,
    LeaveAlternateScreen,
    ShowCursor,
}

/// What is done to the terminal after a panic, in this order, whether or not any of it
/// fails.
pub fn panic_cleanup() -> (steps: Vec<Cleanup>)
    ensures
        steps@ == seq![
            Cleanup::DisableRawMode,
            Cleanup::DisableBracketedPaste,
            Cleanup::LeaveAlternateScreen,
            Cleanup::ShowCursor,
        ],
{
    vec![
        Cleanup::DisableRawMode,
        Cleanup::DisableBracketedPaste,
        Cleanup::LeaveAlternateScreen,
        Cleanup::ShowCursor,
    ]
}

impl<P: ProgramTypes> Effect<P> {
    /// What an effect at the end of a run does to the terminal.
    pub open spec fn cleanup(self) -> Option<Cleanup> {
        match self {
            Effect::DisableRawMode => Some(Cleanup::DisableRawMode),
            Effect::LeaveAlternateScreen => Some(Cleanup::LeaveAlternateScreen),
            Effect::ShowCursor => Some(Cleanup::ShowCursor),
            _ => None,
        }
    }
}

/// The modes of a terminal that the client changes.
pub struct TerminalModes {
    pub raw: bool,
    pub alternate_screen: bool,
    pub bracketed_paste: bool,
    pub cursor_shown: bool,
}

impl TerminalModes {
    /// The modes once a step of the opening was done.
    pub open spec fn opened_by<P: ProgramTypes>(self, setup: Setup<P>) -> TerminalModes {
        match setup {
            Setup::EnableRawMode { .. } => TerminalModes { raw: true, ..self },
            Setup::EnterAlternateScreen { .. } => TerminalModes { alternate_screen: true, ..self },
            Setup::EnableBracketedPaste { .. } => TerminalModes { bracketed_paste: true, ..self },
            _ => self,
        }
    }

    /// The modes once a step of a clean-up was done.
    pub open spec fn cleaned_by(self, step: Cleanup) -> TerminalModes {
        match step {
            Cleanup::DisableRawMode => TerminalModes { raw: false, ..self },
            Cleanup::DisableBracketedPaste => TerminalModes { bracketed_paste: false, ..self },
            Cleanup::LeaveAlternateScreen => TerminalModes { alternate_screen: false, ..self },
            Cleanup::ShowCursor => TerminalModes { cursor_shown: true, ..self },
        }
    }

    /// The modes once all steps of a clean-up were done.
    pub open spec fn cleaned(self, steps: Seq<Cleanup>) -> TerminalModes
        decreases steps.len(),
    {
        if steps.len() == 0 {
            self
        } else {
            self.cleaned(steps.drop_last()).cleaned_by(steps.last())
        }
    }

    /// The modes of a terminal that no program has changed.
    pub open spec fn pristine() -> TerminalModes {
        TerminalModes {
            raw: false,
            alternate_screen: false,
            bracketed_paste: false,
            cursor_shown: true,
        }
    }
}

/// The opening of the client changes the terminal in five steps, and only when all of them
/// succeeded is a window asked for. They turn on the raw mode, the alternate screen and the
/// marking of pasted text, and leave the cursor as it was.
pub proof fn law_opening_changes_the_terminal_first<P: ProgramTypes>(
    title: String,
    default_room: Option<String>,
    modes: TerminalModes,
)
    ensures
        ({
            let first = Setup::<P>::EnableRawMode { title, default_room };
            let second = first.after_change();
            let third = second.after_change();
            let fourth = third.after_change();
            let fifth = fourth.after_change();
            let sixth = fifth.after_change();
            &&& !first.wants_window() && !second.wants_window() && !third.wants_window()
            &&& !fourth.wants_window() && !fifth.wants_window() && sixth.wants_window()
            &&& second == Setup::<P>::EnterAlternateScreen { title, default_room }
            &&& third == Setup::<P>::EnableBracketedPaste { title, default_room }
            &&& fourth == Setup::<P>::SetTitle { title, default_room }
            &&& fifth == Setup::<P>::OpenTerminal { default_room }
            &&& sixth == match default_room {
                Some(room) => Setup::<P>::FindRoom(room),
                None => Setup::<P>::OpenWindow(IambId::Welcome),
            }
            &&& modes.opened_by(first).opened_by(second).opened_by(third).opened_by(
                fourth,
            ).opened_by(fifth) == (TerminalModes {
                raw: true,
                alternate_screen: true,
                bracketed_paste: true,
                cursor_shown: modes.cursor_shown,
            })
        }),
{
}

/// Only the steps that find a room or open a window ask for a window.
pub proof fn law_windows_are_asked_for<P: ProgramTypes>(setup: Setup<P>)
    ensures
        setup.wants_window() <==> match setup {
            Setup::FindRoom(_) | Setup::OpenWindow(_) => true,
            _ => false,
        },
{
}

/// A panic leaves the terminal as no program has changed it, however far the client had got.
pub proof fn law_panic_restores_the_terminal(modes: TerminalModes)
    ensures
        modes.cleaned(
            seq![
                Cleanup::DisableRawMode,
                Cleanup::DisableBracketedPaste,
                Cleanup::LeaveAlternateScreen,
                Cleanup::ShowCursor,
            ],
        ) == TerminalModes::pristine(),
{
    let none = Seq::<Cleanup>::empty();
    let one = none.push(Cleanup::DisableRawMode);
    let two = one.push(Cleanup::DisableBracketedPaste);
    let three = two.push(Cleanup::LeaveAlternateScreen);
    let four = three.push(Cleanup::ShowCursor);
    assert(one.drop_last() =~= none);
    assert(two.drop_last() =~= one);
    assert(three.drop_last() =~= two);
    assert(four.drop_last() =~= three);
    assert(modes.cleaned(none) == modes);
    assert(modes.cleaned(one) == modes.cleaned_by(Cleanup::DisableRawMode));
    assert(modes.cleaned(two) == modes.cleaned(one).cleaned_by(Cleanup::DisableBracketedPaste));
    assert(modes.cleaned(three) == modes.cleaned(two).cleaned_by(Cleanup::LeaveAlternateScreen));
    assert(four =~= seq![
        Cleanup::DisableRawMode,
        Cleanup::DisableBracketedPaste,
        Cleanup::LeaveAlternateScreen,
        Cleanup::ShowCursor,
    ]);
}

} // verus!
