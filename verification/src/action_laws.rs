//! What comes of every action, from its beginning to its end.

use crate::action::{ActionTask, Reply, Step, StepView};
use crate::types::{
    Action, Count, EditError, EditInfo, Entry, HomeserverAction, IambAction, IambError, IambId,
    InfoMessage, MoveDir1D, OpenTarget, ProgramTypes, UIError, WindowAction,
};
use vstd::prelude::*;

verus! {

/// An action that nothing is done for is over at once and tells nothing. What an action is to
/// show is told as it is.
pub proof fn law_actions_without_a_task<P: ProgramTypes>(info: InfoMessage, ctx: P::Context)
    ensures
        Action::<P>::NoOp.started(ctx) == StepView::<P>::Finished(Ok(None)),
        Action::<P>::KeywordLookup.started(ctx) == StepView::<P>::Finished(Ok(None)),
        Action::<P>::Unhandled.started(ctx) == StepView::<P>::Finished(Ok(None)),
        Action::<P>::ShowInfoMessage(info).started(ctx) == StepView::<P>::Finished(Ok(Some(info))),
{
}

/// A command bar action, a macro command and a scroll are each carried out as they are and in
/// their context, once, and what came of that comes of the action.
pub proof fn law_edits_are_delegated<P: ProgramTypes>(
    bar: P::CommandBarAction,
    mac: P::MacroAction,
    style: P::ScrollStyle,
    ctx: P::Context,
    task: ActionTask<P>,
    reply: Reply<P>,
)
    requires
        ({
            ||| Action::<P>::CommandBar(bar).started(ctx) == StepView::Pending(task)
            ||| Action::<P>::Macro(mac).started(ctx) == StepView::Pending(task)
            ||| Action::<P>::Scroll(style).started(ctx) == StepView::Pending(task)
        }),
    ensures
        Action::<P>::CommandBar(bar).started(ctx) == StepView::Pending(
            ActionTask::<P>::CommandBar { act: bar, ctx },
        ),
        Action::<P>::Macro(mac).started(ctx) == StepView::Pending(
            ActionTask::<P>::Macro { act: mac, ctx },
        ),
        Action::<P>::Scroll(style).started(ctx) == StepView::Pending(
            ActionTask::<P>::Scroll { style, ctx },
        ),
        task.accepts(reply) <==> reply is Edit,
        reply matches Reply::Edit(Ok(info)) ==> task.answered(reply) == StepView::<P>::Finished(
            Ok(info),
        ),
        reply matches Reply::Edit(Err(error)) ==> task.answered(reply) == StepView::<P>::Finished(
            Err(UIError::EditingFailure(error)),
        ),
{
}

/// A tab command, a window command, a message action and a send action are each carried out as
/// they are and in their context, once, and what came of that comes of the action.
pub proof fn law_screen_requests_are_delegated<P: ProgramTypes>(
    tab: P::TabAction,
    window: WindowAction<P>,
    message: P::MessageAction,
    send: P::SendAction,
    ctx: P::Context,
    task: ActionTask<P>,
    reply: Reply<P>,
)
    requires
        ({
            ||| Action::<P>::Tab(tab).started(ctx) == StepView::Pending(task)
            ||| Action::<P>::Window(window).started(ctx) == StepView::Pending(task)
            ||| Action::<P>::Application(IambAction::Message(message)).started(ctx)
                == StepView::Pending(task)
            ||| Action::<P>::Application(IambAction::Send(send)).started(ctx) == StepView::Pending(
                task,
            )
        }),
    ensures
        Action::<P>::Tab(tab).started(ctx) == StepView::Pending(
            ActionTask::<P>::Tab { cmd: tab, ctx },
        ),
        Action::<P>::Window(window).started(ctx) == StepView::Pending(
            ActionTask::<P>::Window { cmd: window, ctx },
        ),
        Action::<P>::Application(IambAction::Message(message)).started(ctx) == StepView::Pending(
            ActionTask::<P>::Message { act: message, ctx },
        ),
        Action::<P>::Application(IambAction::Send(send)).started(ctx) == StepView::Pending(
            ActionTask::<P>::Send { act: send, ctx },
        ),
        task.accepts(reply) <==> reply is Screen,
        reply matches Reply::Screen(result) ==> task.answered(reply) == StepView::<P>::Finished(
            result,
        ),
{
}

/// A jump keeps its list, its direction and its context, and goes as far as the context says
/// that its count comes to. What is left of the count is not told.
pub proof fn law_jump_keeps_its_way<P: ProgramTypes>(
    list: P::PositionList,
    dir: MoveDir1D,
    count: Count,
    ctx: P::Context,
    n: usize,
    reply: Reply<P>,
)
    ensures
        ({
            let first = Action::<P>::Jump(list, dir, count).started(ctx);
            let jump = ActionTask::<P>::Jump { list, dir, count: n, ctx };
            &&& first == StepView::Pending(ActionTask::<P>::ResolveCount { list, dir, count, ctx })
            &&& first->Pending_0.accepts(reply) <==> reply is Count
            &&& first->Pending_0.answered(Reply::Count(n)) == StepView::Pending(jump)
            &&& jump.accepts(reply) <==> reply is Jumped
            &&& reply matches Reply::Jumped(Ok(_)) ==> jump.answered(reply) == StepView::<
                P,
            >::Finished(Ok(None))
            &&& reply matches Reply::Jumped(Err(error)) ==> jump.answered(reply) == StepView::<
                P,
            >::Finished(Err(error))
        }),
{
}

/// Suspending the process is one change to the terminal. Drawing the screen afresh takes the
/// message off the screen first, and then clears and draws it. Either fails with the terminal
/// and tells nothing otherwise.
pub proof fn law_terminal_actions<P: ProgramTypes>(ctx: P::Context, reply: Reply<P>)
    ensures
        Action::<P>::Suspend.started(ctx) == StepView::Pending(ActionTask::<P>::Suspend),
        Action::<P>::RedrawScreen.started(ctx) == StepView::Pending(ActionTask::<P>::ClearMessage),
        ActionTask::<P>::ClearMessage.accepts(reply) <==> reply is Done,
        ActionTask::<P>::ClearMessage.answered(Reply::Done) == StepView::Pending(
            ActionTask::<P>::RedrawAll,
        ),
        ActionTask::<P>::Suspend.accepts(reply) <==> reply is Io,
        ActionTask::<P>::RedrawAll.accepts(reply) <==> reply is Io,
        reply matches Reply::Io(Ok(_)) ==> {
            &&& ActionTask::<P>::Suspend.answered(reply) == StepView::<P>::Finished(Ok(None))
            &&& ActionTask::<P>::RedrawAll.answered(reply) == StepView::<P>::Finished(Ok(None))
        },
        reply matches Reply::Io(Err(error)) ==> {
            let failed = StepView::<P>::Finished(Err(UIError::IOError(error)));
            &&& ActionTask::<P>::Suspend.answered(reply) == failed
            &&& ActionTask::<P>::RedrawAll.answered(reply) == failed
        },
{
}

/// A prompt, a command and a room action are each given as they are and in their context, and
/// all the actions that they give are to be run, in the order in which they were given.
pub proof fn law_created_actions_are_kept<P: ProgramTypes>(
    prompt: P::PromptAction,
    command: P::CommandAction,
    room: P::RoomAction,
    ctx: P::Context,
    reply: Reply<P>,
)
    ensures
        ({
            let prompted = Action::<P>::Prompt(prompt).started(ctx);
            let commanded = Action::<P>::Command(command).started(ctx);
            let roomed = Action::<P>::Application(IambAction::Room(room)).started(ctx);
            &&& prompted == StepView::Pending(ActionTask::<P>::Prompt { act: prompt, ctx })
            &&& commanded == StepView::Pending(ActionTask::<P>::Command { act: command, ctx })
            &&& roomed == StepView::Pending(ActionTask::<P>::Room { act: room, ctx })
            &&& prompted->Pending_0.accepts(reply) <==> reply is Prompted
            &&& commanded->Pending_0.accepts(reply) <==> reply is Actions
            &&& roomed->Pending_0.accepts(reply) <==> reply is Actions
            &&& reply matches Reply::Prompted(Ok(acts)) ==> prompted->Pending_0.answered(reply)
                == StepView::<P>::Spawned(acts@)
            &&& reply matches Reply::Prompted(Err(error)) ==> prompted->Pending_0.answered(reply)
                == StepView::<P>::Finished(Err(UIError::EditingFailure(error)))
            &&& reply matches Reply::Actions(Ok(acts)) ==> {
                &&& commanded->Pending_0.answered(reply) == StepView::<P>::Spawned(acts@)
                &&& roomed->Pending_0.answered(reply) == StepView::<P>::Spawned(acts@)
            }
            &&& reply matches Reply::Actions(Err(error)) ==> {
                &&& commanded->Pending_0.answered(reply) == StepView::<P>::Finished(Err(error))
                &&& roomed->Pending_0.answered(reply) == StepView::<P>::Finished(Err(error))
            }
        }),
{
}

/// Whatever asked for them, no actions are lost and no information is: what an answer brings
/// is run or told. Only what the switch to another window has to say is passed over, as the
/// editing command that it was made for is still to come.
pub proof fn law_nothing_is_lost<P: ProgramTypes>(
    task: ActionTask<P>,
    acts: Vec<Entry<P>>,
    info: EditInfo,
    switchable: bool,
    window: Option<IambId<P>>,
)
    ensures
        task.accepts(Reply::Actions(Ok(acts))) ==> task.answered(Reply::Actions(Ok(acts)))
            == StepView::<P>::Spawned(acts@),
        task.accepts(Reply::Prompted(Ok(acts))) ==> task.answered(Reply::Prompted(Ok(acts)))
            == StepView::<P>::Spawned(acts@),
        task.accepts(Reply::Edit(Ok(info))) ==> task.answered(Reply::Edit(Ok(info))) == StepView::<
            P,
        >::Finished(Ok(info)),
        task.accepts(Reply::Edited { result: Ok(info), switchable, window }) ==> task.answered(
            Reply::Edited { result: Ok(info), switchable, window },
        ) == StepView::<P>::Finished(Ok(info)),
        task.accepts(Reply::Screen(Ok(info))) && !(task is SwitchThenEdit) ==> task.answered(
            Reply::Screen(Ok(info)),
        ) == StepView::<P>::Finished(Ok(info)),
{
}

/// Whatever failed, the action ends with exactly that failure, said to be one of editing or of
/// the terminal where it is one.
pub proof fn law_failed_replies_end_the_action<P: ProgramTypes>(
    task: ActionTask<P>,
    edit: EditError<P>,
    ui: UIError<P>,
    io: P::IoError,
)
    ensures
        task.accepts(Reply::Edit(Err(edit))) ==> task.answered(Reply::Edit(Err(edit)))
            == StepView::<P>::Finished(Err(UIError::EditingFailure(edit))),
        task.accepts(Reply::Prompted(Err(edit))) ==> task.answered(Reply::Prompted(Err(edit)))
            == StepView::<P>::Finished(Err(UIError::EditingFailure(edit))),
        task.accepts(Reply::Io(Err(io))) ==> task.answered(Reply::Io(Err(io))) == StepView::<
            P,
        >::Finished(Err(UIError::IOError(io))),
        task.accepts(Reply::Screen(Err(ui))) ==> task.answered(Reply::Screen(Err(ui)))
            == StepView::<P>::Finished(Err(ui)),
        task.accepts(Reply::Jumped(Err(ui))) ==> task.answered(Reply::Jumped(Err(ui)))
            == StepView::<P>::Finished(Err(ui)),
        task.accepts(Reply::Actions(Err(ui))) ==> task.answered(Reply::Actions(Err(ui)))
            == StepView::<P>::Finished(Err(ui)),
        task.accepts(Reply::Toggled(Err(ui))) ==> task.answered(Reply::Toggled(Err(ui)))
            == StepView::<P>::Finished(Err(ui)),
        task.accepts(Reply::RoomCreated(Err(ui))) ==> task.answered(Reply::RoomCreated(Err(ui)))
            == StepView::<P>::Finished(Err(ui)),
{
}

/// An editing command is given to the screen as it is and in its context, and what came of it
/// comes of the action. Only a command that may switch windows, and that belongs into a buffer
/// with a window, has that window shown instead of failing; if that succeeds, the same command
/// is given once more in the same context, and what comes of it then is final.
pub proof fn law_edit_finds_its_window<P: ProgramTypes>(
    act: P::EditorAction,
    ctx: P::Context,
    result: Result<EditInfo, EditError<P>>,
    switchable: bool,
    id: Option<IambId<P>>,
    window: WindowAction<P>,
    reply: Reply<P>,
)
    ensures
        ({
            let edit = ActionTask::<P>::Edit { act, ctx };
            let switch = ActionTask::<P>::SwitchThenEdit { window, act, ctx };
            let again = ActionTask::<P>::EditAgain { act, ctx };
            let next = edit.answered(Reply::Edited { result, switchable, window: id });
            &&& Action::<P>::Editor(act).started(ctx) == StepView::Pending(edit)
            &&& StepView::<P>::edited(act, ctx, result, switchable, id) == next
            &&& edit.accepts(reply) <==> reply is Edited
            &&& result matches Ok(info) ==> next == StepView::<P>::Finished(Ok(info))
            &&& result matches Err(error) ==> {
                if error is WrongBuffer && switchable && id is Some {
                    next == StepView::Pending(
                        ActionTask::<P>::SwitchThenEdit {
                            window: WindowAction::Switch(OpenTarget::Application(id->0)),
                            act,
                            ctx,
                        },
                    )
                } else {
                    next == StepView::<P>::Finished(Err(UIError::EditingFailure(error)))
                }
            }
            &&& switch.accepts(reply) <==> reply is Screen
            &&& reply matches Reply::Screen(Ok(_)) ==> switch.answered(reply) == StepView::Pending(
                again,
            )
            &&& reply matches Reply::Screen(Err(error)) ==> switch.answered(reply) == StepView::<
                P,
            >::Finished(Err(error))
            &&& again.accepts(reply) <==> reply is Edit
            &&& reply matches Reply::Edit(Ok(info)) ==> again.answered(reply) == StepView::<
                P,
            >::Finished(Ok(info))
            &&& reply matches Reply::Edit(Err(error)) ==> again.answered(reply) == StepView::<
                P,
            >::Finished(Err(UIError::EditingFailure(error)))
        }),
{
}

/// A repetition is asked of the keybindings, of the kind and in the context that it was
/// entered with. Toggling the focus needs a window. Neither tells anything.
pub proof fn law_repeating_and_toggling<P: ProgramTypes>(
    rt: P::RepeatType,
    ctx: P::Context,
    reply: Reply<P>,
)
    ensures
        ({
            let repeat = ActionTask::<P>::Repeat { rt, ctx };
            let toggle = ActionTask::<P>::ToggleFocus;
            &&& Action::<P>::Repeat(rt).started(ctx) == StepView::Pending(repeat)
            &&& repeat.accepts(reply) <==> reply is Done
            &&& repeat.answered(Reply::Done) == StepView::<P>::Finished(Ok(None))
            &&& Action::<P>::Application(IambAction::ToggleScrollbackFocus).started(ctx)
                == StepView::Pending(toggle)
            &&& toggle.accepts(reply) <==> reply is Toggled
            &&& reply matches Reply::Toggled(Ok(_)) ==> toggle.answered(reply) == StepView::<
                P,
            >::Finished(Ok(None))
            &&& reply matches Reply::Toggled(Err(error)) ==> toggle.answered(reply) == StepView::<
                P,
            >::Finished(Err(error))
        }),
{
}

/// A room is created with the alias, the visibility and the options that were asked for. The
/// one action that follows shows the new room in the current window, in the same context;
/// without a room it fails.
pub proof fn law_room_is_created_as_asked<P: ProgramTypes>(
    alias: Option<String>,
    vis: P::Visibility,
    flags: P::CreateFlags,
    ctx: P::Context,
    room: P::RoomId,
    reply: Reply<P>,
)
    ensures
        ({
            let act = HomeserverAction::<P>::CreateRoom(alias, vis, flags);
            let create = ActionTask::<P>::CreateRoom { alias, vis, flags, ctx };
            let show = Action::<P>::Window(
                WindowAction::Switch(OpenTarget::Application(IambId::Room(room))),
            );
            &&& act.started(ctx) == StepView::Pending(create)
            &&& Action::<P>::Application(IambAction::Homeserver(act)).started(ctx)
                == StepView::Pending(create)
            &&& IambAction::<P>::Homeserver(act).started(ctx) == StepView::Pending(create)
            &&& create.accepts(reply) <==> reply is RoomCreated
            &&& Action::<P>::show_room(room) == show
            &&& create.answered(Reply::RoomCreated(Ok(room))) == StepView::<P>::Spawned(
                seq![(show, ctx)],
            )
            &&& reply matches Reply::RoomCreated(Err(error)) ==> create.answered(reply)
                == StepView::<P>::Finished(Err(error))
        }),
{
}

/// A step of a verification is made with the verification that is found under its name, and
/// refused with that name if there is none.
pub proof fn law_verification_is_the_one_named<P: ProgramTypes>(
    act: P::VerifyAction,
    user_dev: String,
    ctx: P::Context,
    sas: P::Sas,
    reply: Reply<P>,
)
    ensures
        ({
            let find = ActionTask::<P>::FindVerification { act, user_dev };
            let verify = ActionTask::<P>::Verify { act, sas };
            &&& Action::<P>::Application(IambAction::Verify(act, user_dev)).started(ctx)
                == StepView::Pending(find)
            &&& find.accepts(reply) <==> reply is Verification
            &&& find.answered(Reply::Verification(Some(sas))) == StepView::Pending(verify)
            &&& find.answered(Reply::Verification(None)) == StepView::<P>::Finished(
                Err(UIError::Application(IambError::InvalidVerificationId(user_dev))),
            )
            &&& verify.accepts(reply) <==> reply is Screen
            &&& reply matches Reply::Screen(result) ==> verify.answered(reply) == StepView::<
                P,
            >::Finished(result)
        }),
{
}

/// A user is asked for a verification under exactly the name that was entered, if that is an
/// identifier. Any other name is refused, and given back with the refusal.
pub proof fn law_request_names_the_user<P: ProgramTypes>(
    user_id: String,
    ctx: P::Context,
    reply: Reply<P>,
)
    ensures
        ({
            let request = ActionTask::<P>::VerifyRequest { user_id };
            let refused = StepView::<P>::Finished(
                Err(UIError::Application(IambError::InvalidUserId(user_id))),
            );
            let begun = Action::<P>::Application(IambAction::VerifyRequest(user_id)).started(ctx);
            &&& crate::outside::valid_user_id(user_id@) ==> begun == StepView::Pending(request)
            &&& !crate::outside::valid_user_id(user_id@) ==> begun == refused
            &&& StepView::<P>::verification_requested(user_id, true) == StepView::Pending(request)
            &&& StepView::<P>::verification_requested(user_id, false) == refused
            &&& request.accepts(reply) <==> reply is Screen
            &&& reply matches Reply::Screen(result) ==> request.answered(reply) == StepView::<
                P,
            >::Finished(result)
        }),
{
}

/// An action of the chat client is begun in the same way whether it is begun by itself or as
/// an action of a keybinding.
pub proof fn law_chat_actions_are_actions<P: ProgramTypes>(act: IambAction<P>, ctx: P::Context)
    ensures
        Action::<P>::Application(act).started(ctx) == act.started(ctx),
{
}

/// The steps that are handed out are those that are spoken of: the same task, the same result,
/// and the same actions in the same order.
pub proof fn law_steps_are_what_they_say<P: ProgramTypes>(
    task: ActionTask<P>,
    acts: Vec<Entry<P>>,
    result: Result<EditInfo, UIError<P>>,
)
    ensures
        Step::<P>::Pending(task)@ == StepView::<P>::Pending(task),
        Step::<P>::Spawned(acts)@ == StepView::<P>::Spawned(acts@),
        Step::<P>::Finished(result)@ == StepView::<P>::Finished(result),
{
}

} // verus!
