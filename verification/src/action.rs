//! What an action asks for, and what the answers lead to.

use crate::application::Application;
use crate::outside::is_user_id;
use crate::types::{
    Action, Count, EditError, EditInfo, Entry, HomeserverAction, IambAction, IambError, IambId,
    MoveDir1D, OpenTarget, ProgramTypes, UIError, WindowAction,
};
use vstd::prelude::*;

verus! {

/// Something that has to be done outside before the action at hand can go on.
#[allow(inconsistent_fields)]
pub enum ActionTask<P: ProgramTypes> {
    /// Give the screen an editing command. Answered by `Reply::Edited`.
    Edit { act: P::EditorAction, ctx: P::Context },
    /// Give the screen a window command that was made necessary by an editing command.
    /// Answered by `Reply::Screen`.
    SwitchThenEdit { window: WindowAction<P>, act: P::EditorAction, ctx: P::Context },
    /// Give the screen an editing command for the second time. Answered by `Reply::Edit`.
    EditAgain { act: P::EditorAction, ctx: P::Context },
    /// Give the screen a command bar action. Answered by `Reply::Edit`.
    CommandBar { act: P::CommandBarAction, ctx: P::Context },
    /// Give the keybindings a macro command. Answered by `Reply::Edit`.
    Macro { act: P::MacroAction, ctx: P::Context },
    /// Scroll the screen. Answered by `Reply::Edit`.
    Scroll { style: P::ScrollStyle, ctx: P::Context },
    /// Give the screen a tab command. Answered by `Reply::Screen`.
    Tab { cmd: P::TabAction, ctx: P::Context },
    /// Give the screen a window command. Answered by `Reply::Screen`.
    Window { cmd: WindowAction<P>, ctx: P::Context },
    /// Ask the context what a count comes to, for a jump. Answered by `Reply::Count`.
    ResolveCount { list: P::PositionList, dir: MoveDir1D, count: Count, ctx: P::Context },
    /// Let the screen jump through a list of positions. Answered by `Reply::Jumped`.
    Jump { list: P::PositionList, dir: MoveDir1D, count: usize, ctx: P::Context },
    /// Suspend the process. Answered by `Reply::Io`.
    Suspend,
    /// Take the message off the screen. Answered by `Reply::Done`.
    ClearMessage,
    /// Clear the terminal and draw the screen. Answered by `Reply::Io`.
    RedrawAll,
    /// Give the screen a prompt action. Answered by `Reply::Prompted`.
    Prompt { act: P::PromptAction, ctx: P::Context },
    /// Run a command. Answered by `Reply::Actions`.
    Command { act: P::CommandAction, ctx: P::Context },
    /// Let the keybindings repeat an action sequence in a context. Answered by `Reply::Done`.
    Repeat { rt: P::RepeatType, ctx: P::Context },
    /// Toggle the focus within the current window. Answered by `Reply::Toggled`.
    ToggleFocus,
    /// Create a room on the homeserver. Answered by `Reply::RoomCreated`.
    CreateRoom { alias: Option<String>, vis: P::Visibility, flags: P::CreateFlags, ctx: P::Context },
    /// Give the current window a message action. Answered by `Reply::Screen`.
    Message { act: P::MessageAction, ctx: P::Context },
    /// Give the current window a room action. Answered by `Reply::Actions`.
    Room { act: P::RoomAction, ctx: P::Context },
    /// Give the current window a send action. Answered by `Reply::Screen`.
    Send { act: P::SendAction, ctx: P::Context },
    /// Look a verification up. Answered by `Reply::Verification`.
    FindVerification { act: P::VerifyAction, user_dev: String },
    /// Let the worker go on with a verification. Answered by `Reply::Screen`.
    Verify { act: P::VerifyAction, sas: P::Sas },
    /// Let the worker ask a user for a verification. Answered by `Reply::Screen`.
    VerifyRequest { user_id: String },
}

/// What came of a task.
pub enum Reply<P: ProgramTypes> {
    /// The task is done; it cannot fail.
    Done,
    /// What came of an editing command that may turn out to belong into another window:
    /// whether the command may switch windows in its context, and the window of the buffer
    /// that it belongs into, where the result names such a buffer and it has a window.
    Edited { result: Result<EditInfo, EditError<P>>, switchable: bool, window: Option<IambId<P>> },
    /// What came of an edit.
    Edit(Result<EditInfo, EditError<P>>),
    /// What came of a request to the screen, a window of it, or the worker.
    Screen(Result<EditInfo, UIError<P>>),
    /// What came of a change to the terminal.
    Io(Result<(), P::IoError>),
    /// What the count comes to.
    Count(usize),
    /// What came of a jump: the part of the count that was left over.
    Jumped(Result<usize, UIError<P>>),
    /// The actions that a prompt gave.
    Prompted(Result<Vec<Entry<P>>, EditError<P>>),
    /// The actions that a command or a room gave.
    Actions(Result<Vec<Entry<P>>, UIError<P>>),
    /// Whether there was a window to toggle the focus in.
    Toggled(Result<(), UIError<P>>),
    /// The new room.
    RoomCreated(Result<P::RoomId, UIError<P>>),
    /// The verification, if there is one.
    Verification(Option<P::Sas>),
}

/// How far an action has got.
pub enum Step<P: ProgramTypes> {
    /// The task has to be done first.
    Pending(ActionTask<P>),
    /// The action is over, and these actions are to be run before all others.
    Spawned(Vec<Entry<P>>),
    /// The action is over.
    Finished(Result<EditInfo, UIError<P>>),
}

/// The model of a `Step`: the actions to run are a sequence.
pub enum StepView<P: ProgramTypes> {
    Pending(ActionTask<P>),
    Spawned(Seq<Entry<P>>),
    Finished(Result<EditInfo, UIError<P>>),
}

impl<P: ProgramTypes> View for Step<P> {
    type V = StepView<P>;

    open spec fn view(&self) -> StepView<P> {
        match *self {
            Step::Pending(task) => StepView::Pending(task),
            Step::Spawned(acts) => StepView::Spawned(acts@),
            Step::Finished(result) => StepView::Finished(result),
        }
    }
}

impl<P: ProgramTypes> StepView<P> {
    /// An action that is over and has nothing to tell.
    pub open spec fn silent() -> StepView<P> {
        StepView::Finished(Ok(None))
    }

    /// An action that failed.
    pub open spec fn failed(error: UIError<P>) -> StepView<P> {
        StepView::Finished(Err(error))
    }

    /// How a request to verify a user goes on, given whether the user is named by an
    /// identifier.
    pub open spec fn verification_requested(user_id: String, valid: bool) -> StepView<P> {
        if valid {
            StepView::Pending(ActionTask::VerifyRequest { user_id })
        } else {
            StepView::failed(UIError::Application(IambError::InvalidUserId(user_id)))
        }
    }

    /// How an editing command goes on: one that belongs into another window is given to the
    /// screen again once that window is shown, if the command may switch windows and there
    /// is such a window.
    pub open spec fn edited(
        act: P::EditorAction,
        ctx: P::Context,
        result: Result<EditInfo, EditError<P>>,
        switchable: bool,
        window: Option<IambId<P>>,
    ) -> StepView<P> {
        if result matches Err(EditError::WrongBuffer(_)) && switchable && window is Some {
            let window = WindowAction::Switch(OpenTarget::Application(window->0));
            StepView::Pending(ActionTask::SwitchThenEdit { window, act, ctx })
        } else {
            Reply::Edit(result).verdict()
        }
    }
}

impl<P: ProgramTypes> HomeserverAction<P> {
    /// What an action on the homeserver asks for.
    pub open spec fn started(self, ctx: P::Context) -> StepView<P> {
        match self {
            HomeserverAction::CreateRoom(alias, vis, flags) => StepView::Pending(
                ActionTask::CreateRoom { alias, vis, flags, ctx },
            ),
        }
    }
}

impl<P: ProgramTypes> IambAction<P> {
    /// What an action of the chat client asks for.
    pub open spec fn started(self, ctx: P::Context) -> StepView<P> {
        match self {
            IambAction::ToggleScrollbackFocus => StepView::Pending(ActionTask::ToggleFocus),
            IambAction::Homeserver(act) => act.started(ctx),
            IambAction::Message(act) => StepView::Pending(ActionTask::Message { act, ctx }),
            IambAction::Room(act) => StepView::Pending(ActionTask::Room { act, ctx }),
            IambAction::Send(act) => StepView::Pending(ActionTask::Send { act, ctx }),
            IambAction::Verify(act, user_dev) => StepView::Pending(
                ActionTask::FindVerification { act, user_dev },
            ),
            IambAction::VerifyRequest(user_id) => StepView::verification_requested(
                user_id,
                crate::outside::valid_user_id(user_id@),
            ),
        }
    }
}

impl<P: ProgramTypes> Action<P> {
    /// The action that shows a room in the current window.
    pub open spec fn show_room(room: P::RoomId) -> Action<P> {
        Action::Window(WindowAction::Switch(OpenTarget::Application(IambId::Room(room))))
    }

    /// What an action asks for.
    pub open spec fn started(self, ctx: P::Context) -> StepView<P> {
        match self {
            Action::NoOp | Action::KeywordLookup | Action::Unhandled => StepView::silent(),
            Action::ShowInfoMessage(info) => StepView::Finished(Ok(Some(info))),
            Action::Application(act) => act.started(ctx),
            Action::Editor(act) => StepView::Pending(ActionTask::Edit { act, ctx }),
            Action::CommandBar(act) => StepView::Pending(ActionTask::CommandBar { act, ctx }),
            Action::Macro(act) => StepView::Pending(ActionTask::Macro { act, ctx }),
            Action::Scroll(style) => StepView::Pending(ActionTask::Scroll { style, ctx }),
            Action::Tab(cmd) => StepView::Pending(ActionTask::Tab { cmd, ctx }),
            Action::Window(cmd) => StepView::Pending(ActionTask::Window { cmd, ctx }),
            Action::Jump(list, dir, count) => StepView::Pending(
                ActionTask::ResolveCount { list, dir, count, ctx },
            ),
            Action::Suspend => StepView::Pending(ActionTask::Suspend),
            Action::RedrawScreen => StepView::Pending(ActionTask::ClearMessage),
            Action::Prompt(act) => StepView::Pending(ActionTask::Prompt { act, ctx }),
            Action::Command(act) => StepView::Pending(ActionTask::Command { act, ctx }),
            Action::Repeat(rt) => StepView::Pending(ActionTask::Repeat { rt, ctx }),
        }
    }
}

impl<P: ProgramTypes> Reply<P> {
    /// The failure that a reply reports, if it reports one.
    pub open spec fn failure(self) -> Option<UIError<P>> {
        match self {
            Reply::Edited { result: Err(err), .. }
            | Reply::Edit(Err(err))
            | Reply::Prompted(Err(err)) => Some(UIError::EditingFailure(err)),
            Reply::Screen(Err(err))
            | Reply::Jumped(Err(err))
            | Reply::Actions(Err(err))
            | Reply::Toggled(Err(err))
            | Reply::RoomCreated(Err(err)) => Some(err),
            Reply::Io(Err(err)) => Some(UIError::IOError(err)),
            _ => None,
        }
    }

    /// What a reply comes to where it ends the action: information is passed on, a failed
    /// edit and a failed change to the terminal become failures of the action, and the
    /// actions of a prompt, a command or a room are to be run.
    pub open spec fn verdict(self) -> StepView<P> {
        match self {
            Reply::Edit(Ok(info)) | Reply::Screen(Ok(info)) => StepView::Finished(Ok(info)),
            Reply::Prompted(Ok(acts)) | Reply::Actions(Ok(acts)) => StepView::Spawned(acts@),
            Reply::Edit(Err(err)) | Reply::Prompted(Err(err)) => StepView::failed(
                UIError::EditingFailure(err),
            ),
            Reply::Screen(Err(err))
            | Reply::Jumped(Err(err))
            | Reply::Actions(Err(err))
            | Reply::Toggled(Err(err))
            | Reply::RoomCreated(Err(err)) => StepView::failed(err),
            Reply::Io(Err(err)) => StepView::failed(UIError::IOError(err)),
            _ => StepView::silent(),
        }
    }
}

impl<P: ProgramTypes> ActionTask<P> {
    /// Whether a reply is of the kind that the task is answered by.
    pub open spec fn accepts(self, reply: Reply<P>) -> bool {
        match self {
            ActionTask::Edit { .. } => reply is Edited,
            ActionTask::EditAgain { .. }
            | ActionTask::CommandBar { .. }
            | ActionTask::Macro { .. }
            | ActionTask::Scroll { .. } => reply is Edit,
            ActionTask::SwitchThenEdit { .. }
            | ActionTask::Tab { .. }
            | ActionTask::Window { .. }
            | ActionTask::Message { .. }
            | ActionTask::Send { .. }
            | ActionTask::Verify { .. }
            | ActionTask::VerifyRequest { .. } => reply is Screen,
            ActionTask::ResolveCount { .. } => reply is Count,
            ActionTask::Jump { .. } => reply is Jumped,
            ActionTask::Suspend | ActionTask::RedrawAll => reply is Io,
            ActionTask::ClearMessage | ActionTask::Repeat { .. } => reply is Done,
            ActionTask::Prompt { .. } => reply is Prompted,
            ActionTask::Command { .. } | ActionTask::Room { .. } => reply is Actions,
            ActionTask::ToggleFocus => reply is Toggled,
            ActionTask::CreateRoom { .. } => reply is RoomCreated,
            ActionTask::FindVerification { .. } => reply is Verification,
        }
    }

    /// How the action goes on once the task is answered.
    pub open spec fn answered(self, reply: Reply<P>) -> StepView<P> {
        match (self, reply) {
            (ActionTask::Edit { act, ctx }, Reply::Edited { result, switchable, window }) => {
                StepView::edited(act, ctx, result, switchable, window)
            },
            (ActionTask::SwitchThenEdit { window, act, ctx }, Reply::Screen(Ok(_))) => {
                StepView::Pending(ActionTask::EditAgain { act, ctx })
            },
            (ActionTask::ResolveCount { list, dir, count, ctx }, Reply::Count(resolved)) => {
                StepView::Pending(ActionTask::Jump { list, dir, count: resolved, ctx })
            },
            (ActionTask::ClearMessage, _) => StepView::Pending(ActionTask::RedrawAll),
            (ActionTask::CreateRoom { ctx, .. }, Reply::RoomCreated(Ok(room))) => {
                StepView::Spawned(seq![(Action::show_room(room), ctx)])
            },
            (ActionTask::FindVerification { act, user_dev }, Reply::Verification(found)) => {
                match found {
                    Some(sas) => StepView::Pending(ActionTask::Verify { act, sas }),
                    None => StepView::failed(
                        UIError::Application(IambError::InvalidVerificationId(user_dev)),
                    ),
                }
            },
            _ => reply.verdict(),
        }
    }
}

/// How an action that ends with an edit comes out.
fn edit_ended<P: ProgramTypes>(result: Result<EditInfo, EditError<P>>) -> (step: Step<P>)
    ensures
        step@ == Reply::Edit(result).verdict(),
{
    match result {
        Ok(info) => Step::Finished(Ok(info)),
        Err(err) => Step::Finished(Err(UIError::EditingFailure(err))),
    }
}

/// How an action that gave a reply and does nothing more comes out.
fn ended<P: ProgramTypes>(reply: Reply<P>) -> (step: Step<P>)
    ensures
        step@ == reply.verdict(),
{
    match reply {
        Reply::Edit(result) => edit_ended(result),
        Reply::Screen(result) => Step::Finished(result),
        Reply::Io(Err(err)) => Step::Finished(Err(UIError::IOError(err))),
        Reply::Jumped(Err(err)) => Step::Finished(Err(err)),
        Reply::Prompted(Ok(acts)) => Step::Spawned(acts),
        Reply::Prompted(Err(err)) => Step::Finished(Err(UIError::EditingFailure(err))),
        Reply::Actions(Ok(acts)) => Step::Spawned(acts),
        Reply::Actions(Err(err)) => Step::Finished(Err(err)),
        Reply::Toggled(Err(err)) => Step::Finished(Err(err)),
        Reply::RoomCreated(Err(err)) => Step::Finished(Err(err)),
        _ => Step::Finished(Ok(None)),
    }
}

/// How an editing command goes on after the screen was given it: see `StepView::edited`.
pub fn edited<P: ProgramTypes>(
    act: P::EditorAction,
    ctx: P::Context,
    result: Result<EditInfo, EditError<P>>,
    switchable: bool,
    window: Option<IambId<P>>,
) -> (step: Step<P>)
    ensures
        step@ == StepView::edited(act, ctx, result, switchable, window),
{
    match result {
        Err(EditError::WrongBuffer(content)) => {
            if switchable {
                if let Some(winid) = window {
                    // Switch to the right window.
                    let open = OpenTarget::Application(winid);
                    let window = WindowAction::Switch(open);
                    return Step::Pending(ActionTask::SwitchThenEdit { window, act, ctx });
                }
            }
            edit_ended(Err(EditError::WrongBuffer(content)))
        },
        result => edit_ended(result),
    }
}

/// The actions that follow the creation of a room: the room is shown in the current window.
pub fn room_created<P: ProgramTypes>(room_id: P::RoomId, ctx: P::Context) -> (acts: Vec<Entry<P>>)
    ensures
        acts@ == seq![(Action::<P>::show_room(room_id), ctx)],
{
    let room = IambId::Room(room_id);
    let target = OpenTarget::Application(room);
    let action = WindowAction::Switch(target);
    vec![(Action::Window(action), ctx)]
}

/// How a step of a verification goes on, given the verification that was found.
pub fn verification_found<P: ProgramTypes>(
    act: P::VerifyAction,
    user_dev: String,
    found: Option<P::Sas>,
) -> (step: Step<P>)
    ensures
        match found {
            Some(sas) => step@ == StepView::<P>::Pending(ActionTask::Verify { act, sas }),
            None => step@ == StepView::<P>::failed(
                UIError::Application(IambError::InvalidVerificationId(user_dev)),
            ),
        },
{
    if let Some(sas) = found {
        Step::Pending(ActionTask::Verify { act, sas })
    } else {
        Step::Finished(Err(UIError::Application(IambError::InvalidVerificationId(user_dev))))
    }
}

/// How a request to verify a user goes on, given whether the user is named by an identifier:
/// it is made if so, and refused otherwise.
pub fn verification_requested<P: ProgramTypes>(user_id: String, valid: bool) -> (step: Step<P>)
    ensures
        step@ == StepView::<P>::verification_requested(user_id, valid),
{
    if valid {
        Step::Pending(ActionTask::VerifyRequest { user_id })
    } else {
        Step::Finished(Err(UIError::Application(IambError::InvalidUserId(user_id))))
    }
}

impl<P: ProgramTypes> ActionTask<P> {
    /// Whether a reply is of the kind that the task is answered by.
    pub fn awaits(&self, reply: &Reply<P>) -> (fits: bool)
        ensures
            fits == self.accepts(*reply),
    {
        match self {
            ActionTask::Edit { .. } => matches!(reply, Reply::Edited { .. }),
            ActionTask::EditAgain { .. }
            | ActionTask::CommandBar { .. }
            | ActionTask::Macro { .. }
            | ActionTask::Scroll { .. } => matches!(reply, Reply::Edit(_)),
            ActionTask::SwitchThenEdit { .. }
            | ActionTask::Tab { .. }
            | ActionTask::Window { .. }
            | ActionTask::Message { .. }
            | ActionTask::Send { .. }
            | ActionTask::Verify { .. }
            | ActionTask::VerifyRequest { .. } => matches!(reply, Reply::Screen(_)),
            ActionTask::ResolveCount { .. } => matches!(reply, Reply::Count(_)),
            ActionTask::Jump { .. } => matches!(reply, Reply::Jumped(_)),
            ActionTask::Suspend | ActionTask::RedrawAll => matches!(reply, Reply::Io(_)),
            ActionTask::ClearMessage | ActionTask::Repeat { .. } => matches!(reply, Reply::Done),
            ActionTask::Prompt { .. } => matches!(reply, Reply::Prompted(_)),
            ActionTask::Command { .. } | ActionTask::Room { .. } => {
                matches!(reply, Reply::Actions(_))
            },
            ActionTask::ToggleFocus => matches!(reply, Reply::Toggled(_)),
            ActionTask::CreateRoom { .. } => matches!(reply, Reply::RoomCreated(_)),
            ActionTask::FindVerification { .. } => matches!(reply, Reply::Verification(_)),
        }
    }

    /// Goes on with the action once the task is answered.
    pub fn resume(self, reply: Reply<P>) -> (step: Step<P>)
        ensures
            step@ == self.answered(reply),
    {
        match self {
            ActionTask::Edit { act, ctx } => match reply {
                Reply::Edited { result, switchable, window } => {
                    edited(act, ctx, result, switchable, window)
                },
                reply => ended(reply),
            },
            ActionTask::SwitchThenEdit { window: _, act, ctx } => match reply {
                // Run command again.
                Reply::Screen(Ok(_)) => Step::Pending(ActionTask::EditAgain { act, ctx }),
                reply => ended(reply),
            },
            ActionTask::ResolveCount { list, dir, count: _, ctx } => match reply {
                Reply::Count(count) => Step::Pending(ActionTask::Jump { list, dir, count, ctx }),
                reply => ended(reply),
            },
            ActionTask::ClearMessage => Step::Pending(ActionTask::RedrawAll),
            ActionTask::CreateRoom { alias: _, vis: _, flags: _, ctx } => match reply {
                Reply::RoomCreated(Ok(room_id)) => {
                    let acts = room_created::<P>(room_id, ctx);
                    Step::Spawned(acts)
                },
                reply => ended(reply),
            },
            ActionTask::FindVerification { act, user_dev } => match reply {
                Reply::Verification(found) => verification_found(act, user_dev, found),
                reply => ended(reply),
            },
            _ => ended(reply),
        }
    }
}

impl<P: ProgramTypes> Application<P> {
    /// Begins an action on the homeserver.
    pub fn homeserver_command(action: HomeserverAction<P>, ctx: P::Context) -> (step: Step<P>)
        ensures
            step@ == action.started(ctx),
    {
        match action {
            HomeserverAction::CreateRoom(alias, vis, flags) => {
                Step::Pending(ActionTask::CreateRoom { alias, vis, flags, ctx })
            },
        }
    }

    /// Begins an action of the chat client.
    pub fn iamb_run(action: IambAction<P>, ctx: P::Context) -> (step: Step<P>)
        ensures
            step@ == action.started(ctx),
    {
        match action {
            IambAction::ToggleScrollbackFocus => Step::Pending(ActionTask::ToggleFocus),
            IambAction::Homeserver(act) => Application::homeserver_command(act, ctx),
            IambAction::Message(act) => Step::Pending(ActionTask::Message { act, ctx }),
            IambAction::Room(act) => Step::Pending(ActionTask::Room { act, ctx }),
            IambAction::Send(act) => Step::Pending(ActionTask::Send { act, ctx }),
            IambAction::Verify(act, user_dev) => {
                Step::Pending(ActionTask::FindVerification { act, user_dev })
            },
            IambAction::VerifyRequest(user_id) => {
                let valid = is_user_id(user_id.as_str());
                verification_requested(user_id, valid)
            },
        }
    }

    /// Begins an action.
    pub fn action_run(action: Action<P>, ctx: P::Context) -> (step: Step<P>)
        ensures
            step@ == action.started(ctx),
    {
        match action {
            // Do nothing.
            Action::NoOp => Step::Finished(Ok(None)),

            Action::Editor(act) => Step::Pending(ActionTask::Edit { act, ctx }),

            // Simple delegations.
            Action::Application(act) => Application::iamb_run(act, ctx),
            Action::CommandBar(act) => Step::Pending(ActionTask::CommandBar { act, ctx }),
            Action::Macro(act) => Step::Pending(ActionTask::Macro { act, ctx }),
            Action::Scroll(style) => Step::Pending(ActionTask::Scroll { style, ctx }),
            Action::ShowInfoMessage(info) => Step::Finished(Ok(Some(info))),
            Action::Tab(cmd) => Step::Pending(ActionTask::Tab { cmd, ctx }),
            Action::Window(cmd) => Step::Pending(ActionTask::Window { cmd, ctx }),

            Action::Jump(list, dir, count) => {
                Step::Pending(ActionTask::ResolveCount { list, dir, count, ctx })
            },
            Action::Suspend => Step::Pending(ActionTask::Suspend),

            // UI actions.
            Action::RedrawScreen => Step::Pending(ActionTask::ClearMessage),

            // Actions that create more actions.
            Action::Prompt(act) => Step::Pending(ActionTask::Prompt { act, ctx }),
            Action::Command(act) => Step::Pending(ActionTask::Command { act, ctx }),
            Action::Repeat(rt) => Step::Pending(ActionTask::Repeat { rt, ctx }),

            // Actions that nothing is done for.
            Action::KeywordLookup => Step::Finished(Ok(None)),
            Action::Unhandled => Step::Finished(Ok(None)),
        }
    }
}

} // verus!
