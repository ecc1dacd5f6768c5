use vstd::prelude::*;

verus! {

/// The types of the values that pass through the client without being looked into.
pub trait ProgramTypes {
    /// The editing context that a keybinding or a command was entered in.
    type Context;

    /// An editing command.
    type EditorAction;

    /// A macro command.
    type MacroAction;

    /// A way of scrolling the viewport.
    type ScrollStyle;

    /// A list of earlier cursor positions.
    type PositionList;

    /// A kind of action sequence that can be repeated.
    type RepeatType;

    /// A command line, or a request to repeat the last one.
    type CommandAction;

    /// A change of focus to or from the command bar.
    type CommandBarAction;

    /// An action on the prompt that has the focus.
    type PromptAction;

    /// An action on tabs.
    type TabAction;

    /// An action on windows that shows no new content in the current one.
    type WindowCommand;

    /// A way of naming a window other than by its identifier.
    type TargetName;

    /// The identifier of a window that shows no room.
    type PageId;

    /// The identifier of a room.
    type RoomId;

    /// The identifier of a buffer.
    type ContentId;

    /// An action on the selected message.
    type MessageAction;

    /// An action on the current room.
    type RoomAction;

    /// An action on the message being written.
    type SendAction;

    /// A step of a device verification.
    type VerifyAction;

    /// A device verification under way.
    type Sas;

    /// Who can join a new room.
    type Visibility;

    /// The options of a new room.
    type CreateFlags;

    /// A stored login.
    type Session;

    /// A question that has to be answered before an action is carried out.
    type Dialog;

    /// A key that stands for no character.
    type NamedKey;

    /// A failure of the terminal or of a file.
    type IoError;

    /// A failed edit that the client only reports.
    type EditFailure;

    /// A failed request to the screen that the client only reports.
    type UIFailure;

    /// A failure of the chat service that the client only reports.
    type ChatFailure;
}

/// How often an action is carried out.
#[derive(Clone, Copy, Debug, PartialEq, Eq, Structural)]
pub enum Count {
    /// As often as the context says.
    Contextual,
    /// One time less than the context says.
    MinusOne,
    /// This often.
    Exact(usize),
}

/// A direction along a line.
#[derive(Clone, Copy, Debug, PartialEq, Eq, Structural)]
pub enum MoveDir1D {
    /// Backwards.
    Previous,
    /// Forwards.
    Next,
}

/// A way of putting text into a buffer.
#[derive(Debug, PartialEq, Eq)]
pub enum InsertTextAction {
    /// Insert the text on one side of the cursor, as often as the count says.
    Transcribe(String, MoveDir1D, Count),
}

/// Something to tell the user after an action.
#[derive(Debug, PartialEq, Eq)]
pub enum InfoMessage {
    /// A message for the status line.
    Message(String),
    /// A text to page through.
    Pager(String),
}

impl InfoMessage {
    /// The text of a message.
    pub open spec fn text(self) -> Seq<char> {
        match self {
            InfoMessage::Message(text) | InfoMessage::Pager(text) => text@,
        }
    }

    /// The text of a message: see `text`.
    pub fn into_text(self) -> (text: String)
        ensures
            text@ == self.text(),
    {
        match self {
            InfoMessage::Message(text) => text,
            InfoMessage::Pager(text) => text,
        }
    }
}

/// Identifies a window.
pub enum IambId<P: ProgramTypes> {
    /// The window shown when there is nothing else to show.
    Welcome,
    /// The window of a room.
    Room(P::RoomId),
    /// Any other window.
    Page(P::PageId),
}

/// What a window is to show.
pub enum OpenTarget<P: ProgramTypes> {
    /// The window with this identifier.
    Application(IambId<P>),
    /// The window with this name.
    Named(P::TargetName),
}

/// An action on windows.
pub enum WindowAction<P: ProgramTypes> {
    /// Show something else in the current window.
    Switch(OpenTarget<P>),
    /// Anything else.
    Command(P::WindowCommand),
}

/// An action on the homeserver.
pub enum HomeserverAction<P: ProgramTypes> {
    /// Create a room, with an alias for it if there is one.
    CreateRoom(Option<String>, P::Visibility, P::CreateFlags),
}

/// An action of the chat client.
pub enum IambAction<P: ProgramTypes> {
    /// Act on the homeserver.
    Homeserver(HomeserverAction<P>),
    /// Act on the selected message.
    Message(P::MessageAction),
    /// Act on the current room.
    Room(P::RoomAction),
    /// Act on the message being written.
    Send(P::SendAction),
    /// Move the focus between the message bar and the scrollback.
    ToggleScrollbackFocus,
    /// Go on with the verification of a device of a user.
    Verify(P::VerifyAction, String),
    /// Ask a user to verify their devices.
    VerifyRequest(String),
}

/// What a keybinding or a command leads to.
pub enum Action<P: ProgramTypes> {
    /// Do nothing.
    NoOp,
    /// Edit text.
    Editor(P::EditorAction),
    /// Record or replay a macro.
    Macro(P::MacroAction),
    /// Go through the cursor positions of a list.
    Jump(P::PositionList, MoveDir1D, Count),
    /// Repeat an action sequence.
    Repeat(P::RepeatType),
    /// Scroll the viewport.
    Scroll(P::ScrollStyle),
    /// Look up the keyword under the cursor.
    KeywordLookup,
    /// Draw the screen afresh.
    RedrawScreen,
    /// Tell the user something.
    ShowInfoMessage(InfoMessage),
    /// Suspend the process.
    Suspend,
    /// Something that the client has nothing to do for.
    Unhandled,
    /// Run a command.
    Command(P::CommandAction),
    /// Act on the command bar.
    CommandBar(P::CommandBarAction),
    /// Act on a prompt.
    Prompt(P::PromptAction),
    /// Act on tabs.
    Tab(P::TabAction),
    /// Act on windows.
    Window(WindowAction<P>),
    /// Act on the chat.
    Application(IambAction<P>),
}

/// Why an edit failed.
pub enum EditError<P: ProgramTypes> {
    /// The edit has to be confirmed.
    NeedConfirm(P::Dialog),
    /// The edit refers to a position in another buffer.
    WrongBuffer(P::ContentId),
    /// Anything else.
    Failure(P::EditFailure),
}

/// Why an action of the chat client failed.
pub enum IambError<P: ProgramTypes> {
    /// There is no verification under this identifier.
    InvalidVerificationId(String),
    /// This is no Matrix user identifier.
    InvalidUserId(String),
    /// Anything else.
    Failure(P::ChatFailure),
}

/// Why an action failed.
pub enum UIError<P: ProgramTypes> {
    /// The chat client failed.
    Application(IambError<P>),
    /// The terminal or a file failed.
    IOError(P::IoError),
    /// An edit failed.
    EditingFailure(EditError<P>),
    /// The action has to be confirmed.
    NeedConfirm(P::Dialog),
    /// Anything else.
    Failure(P::UIFailure),
}

/// An action together with the context that it was entered in.
pub type Entry<P> = (Action<P>, <P as ProgramTypes>::Context);

/// What an action has to tell the user, if anything.
pub type EditInfo = Option<InfoMessage>;

} // verus!
