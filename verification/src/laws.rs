//! What holds of every run of the client.

use crate::action::{ActionTask, Reply, StepView};
use crate::application::{Effect, Event, Model, Phase};
use crate::input::{KeyEvent, TerminalEvent};
use crate::setup::TerminalModes;
use crate::types::{
    Action, Count, EditError, Entry, IambId, InfoMessage, InsertTextAction, MoveDir1D, OpenTarget,
    ProgramTypes, UIError, WindowAction,
};
use vstd::prelude::*;

verus! {

/// The client after a sequence of events.
pub open spec fn after<P: ProgramTypes>(model: Model<P>, events: Seq<Event<P>>) -> Model<P>
    decreases events.len(),
{
    if events.len() == 0 {
        model
    } else {
        after(model, events.drop_last()).next(events.last()).0
    }
}

/// The client just before one of a sequence of events.
pub open spec fn before<P: ProgramTypes>(
    model: Model<P>,
    events: Seq<Event<P>>,
    i: int,
) -> Model<P> {
    after(model, events.take(i))
}

/// The effect that one of a sequence of events leads to.
pub open spec fn effect<P: ProgramTypes>(
    model: Model<P>,
    events: Seq<Event<P>>,
    i: int,
) -> Effect<P> {
    before(model, events, i).next(events[i]).1
}

/// A sequence of events in which each is of the kind that the client waits for.
pub open spec fn possible<P: ProgramTypes>(model: Model<P>, events: Seq<Event<P>>) -> bool {
    forall|i: int|
        0 <= i < events.len() ==> #[trigger] before(model, events, i).phase.fits(events[i])
}

/// An event takes the client from where it was before it to where it is before the next.
proof fn lemma_before_next<P: ProgramTypes>(model: Model<P>, events: Seq<Event<P>>, i: int)
    requires
        0 <= i < events.len(),
    ensures
        before(model, events, i + 1) == before(model, events, i).next(events[i]).0,
{
    assert(events.take(i + 1).drop_last() =~= events.take(i));
}

/// When an action is over, the client goes on to run actions or to count the tabs, and what
/// holds of it between two effects holds again.
proof fn lemma_advanced_wf<P: ProgramTypes>(model: Model<P>)
    ensures
        model.advanced().0.wf(),
        !(model.advanced().0.phase is Feeding),
        model.keyskip ==> model.advanced().0.keyskip && !(model.advanced().1 is PopBinding),
    decreases model.actstack.len(),
{
    if model.actstack.len() > 0 {
        lemma_advanced_wf(Model { actstack: model.actstack.drop_first(), ..model });
    }
}

/// An event that the client waits for keeps what holds of it between two effects.
pub proof fn law_next_wf<P: ProgramTypes>(model: Model<P>, event: Event<P>)
    requires
        model.wf(),
        model.phase.fits(event),
    ensures
        model.next(event).0.wf(),
{
    lemma_advanced_wf(model);
    lemma_advanced_wf(Model { keyskip: false, ..model });
    if let Event::Acted(reply) = event {
        if let Phase::Acting(task) = model.phase {
            if let StepView::Spawned(acts) = task.answered(reply) {
                lemma_advanced_wf(Model { actstack: acts + model.actstack, ..model });
            }
        }
    }
}

/// Outside the running of the actions of a key no actions are pending, whatever happened
/// before. So a key is only fed to the keybindings once all actions of the last one, and all
/// that they led to, have been run.
pub proof fn law_actions_are_run_out<P: ProgramTypes>(events: Seq<Event<P>>)
    requires
        possible(Model::<P>::start(), events),
    ensures
        after(Model::<P>::start(), events).wf(),
        ({
            let model = after(Model::<P>::start(), events);
            &&& model.phase is Popping || model.phase is Acting || model.phase is Telling
                || model.actstack.len() == 0
            &&& model.phase is Popping ==> model.actstack.len() == 0 && !model.keyskip
        }),
    decreases events.len(),
{
    if events.len() > 0 {
        let n = events.len() - 1;
        let earlier = events.drop_last();
        assert(earlier =~= events.take(n));
        assert forall|i: int| 0 <= i < earlier.len() implies #[trigger] before(
            Model::<P>::start(),
            earlier,
            i,
        ).phase.fits(earlier[i]) by {
            assert(earlier.take(i) =~= events.take(i));
            assert(before(Model::<P>::start(), events, i).phase.fits(events[i]));
        }
        law_actions_are_run_out(earlier);
        assert(before(Model::<P>::start(), events, n).phase.fits(events[n]));
        law_next_wf(after(Model::<P>::start(), earlier), events[n]);
    }
}

/// The actions of the keybindings are taken up again with the next key: the first thing
/// asked for after a key was fed is the first action of the keybindings.
pub proof fn law_key_is_acted_on<P: ProgramTypes>(model: Model<P>)
    requires
        model.wf(),
        model.phase is Feeding,
    ensures
        model.next(Event::Done) == (
            Model { keyskip: false, ..model }.at(Phase::Popping),
            Effect::<P>::PopBinding,
        ),
{
}

/// While the actions of the keybindings are passed over, they stay passed over until a key
/// was fed.
proof fn lemma_keyskip_stays<P: ProgramTypes>(model: Model<P>, event: Event<P>)
    requires
        model.phase.fits(event),
        model.keyskip,
        !(model.phase is Feeding),
    ensures
        model.next(event).0.keyskip,
        !(model.next(event).1 is PopBinding),
        model.next(event).0.phase is Feeding ==> model.next(event).1 is InputKey,
{
    lemma_advanced_wf(model);
    if let Event::Acted(reply) = event {
        if let Phase::Acting(task) = model.phase {
            if let StepView::Spawned(acts) = task.answered(reply) {
                lemma_advanced_wf(Model { actstack: acts + model.actstack, ..model });
            }
        }
    }
}

/// A failure that is shown to the user puts the client into the state in which the actions
/// of the keybindings are passed over.
proof fn lemma_error_sets_keyskip<P: ProgramTypes>(model: Model<P>, event: Event<P>)
    requires
        model.phase.fits(event),
        model.next(event).1 is PushError,
    ensures
        model.next(event).0.keyskip,
        model.next(event).0.phase is Telling,
{
    lemma_advanced_error(model);
    lemma_advanced_error(Model { keyskip: false, ..model });
    if let Event::Acted(reply) = event {
        if let Phase::Acting(task) = model.phase {
            if let StepView::Spawned(acts) = task.answered(reply) {
                lemma_advanced_error(Model { actstack: acts + model.actstack, ..model });
            }
        }
    }
}

/// A pending action that fails at once is shown to have failed.
proof fn lemma_advanced_error<P: ProgramTypes>(model: Model<P>)
    ensures
        model.advanced().1 is PushError ==> {
            &&& model.advanced().0.keyskip
            &&& model.advanced().0.phase is Telling
        },
        model.advanced().1 matches Effect::PushError(error) ==> !asks(error),
    decreases model.actstack.len(),
{
    if model.actstack.len() > 0 {
        lemma_advanced_error(Model { actstack: model.actstack.drop_first(), ..model });
    }
}

/// Whether a failure only says that an action has to be confirmed.
pub open spec fn asks<P: ProgramTypes>(error: UIError<P>) -> bool {
    ||| error is NeedConfirm
    ||| error matches UIError::EditingFailure(EditError::NeedConfirm(_))
}

/// After a failure is shown, no action is taken out of the keybindings until the next key.
pub proof fn law_failure_skips_bindings<P: ProgramTypes>(
    model: Model<P>,
    events: Seq<Event<P>>,
    shown: int,
    i: int,
)
    requires
        possible(model, events),
        0 <= shown < i < events.len(),
        effect(model, events, shown) is PushError,
        forall|j: int| shown < j < i ==> !(#[trigger] effect(model, events, j) is InputKey),
    ensures
        before(model, events, i).keyskip,
        !(effect(model, events, i) is PopBinding),
    decreases i,
{
    assert(before(model, events, i).phase.fits(events[i]));
    assert(before(model, events, i - 1).phase.fits(events[i - 1]));
    lemma_before_next(model, events, i - 1);
    if shown == i - 1 {
        lemma_error_sets_keyskip(before(model, events, shown), events[shown]);
    } else {
        law_failure_skips_bindings(model, events, shown, i - 1);
        lemma_not_feeding(model, events, shown, i - 1);
        lemma_keyskip_stays(before(model, events, i - 1), events[i - 1]);
        assert(!(effect(model, events, i - 1) is InputKey));
    }
    lemma_not_feeding(model, events, shown, i);
    lemma_keyskip_stays(before(model, events, i), events[i]);
}

/// A key is only being fed right after it was read.
proof fn lemma_feeding_after_key<P: ProgramTypes>(model: Model<P>, event: Event<P>)
    requires
        model.phase.fits(event),
        model.next(event).0.phase is Feeding,
    ensures
        model.next(event).1 is InputKey,
{
    lemma_advanced_wf(model);
    lemma_advanced_wf(Model { keyskip: false, ..model });
    if let Event::Acted(reply) = event {
        if let Phase::Acting(task) = model.phase {
            if let StepView::Spawned(acts) = task.answered(reply) {
                lemma_advanced_wf(Model { actstack: acts + model.actstack, ..model });
            }
        }
    }
}

/// Until the next key after a failure was shown, no key is being fed.
proof fn lemma_not_feeding<P: ProgramTypes>(
    model: Model<P>,
    events: Seq<Event<P>>,
    shown: int,
    i: int,
)
    requires
        possible(model, events),
        0 <= shown < i < events.len(),
        effect(model, events, shown) is PushError,
        forall|j: int| shown < j < i ==> !(#[trigger] effect(model, events, j) is InputKey),
    ensures
        !(before(model, events, i).phase is Feeding),
{
    assert(before(model, events, i - 1).phase.fits(events[i - 1]));
    lemma_before_next(model, events, i - 1);
    if before(model, events, i).phase is Feeding {
        lemma_feeding_after_key(before(model, events, i - 1), events[i - 1]);
        assert(effect(model, events, i - 1) is InputKey);
    }
}

/// An action that has to be confirmed is never shown as a failure: the question is put to
/// the user, and the actions of the keybindings are not passed over on its account.
pub proof fn law_questions_are_no_failures<P: ProgramTypes>(
    model: Model<P>,
    event: Event<P>,
    dialog: P::Dialog,
)
    requires
        model.phase.fits(event),
    ensures
        model.next(event).1 matches Effect::PushError(error) ==> !asks(error),
        model.settled(StepView::Finished(Err(UIError::NeedConfirm(dialog)))) == (
            model.at(Phase::Telling),
            Effect::<P>::RunDialog(dialog),
        ),
        model.settled(
            StepView::Finished(Err(UIError::EditingFailure(EditError::NeedConfirm(dialog)))),
        ) == (model.at(Phase::Telling), Effect::<P>::RunDialog(dialog)),
{
    lemma_advanced_error(model);
    lemma_advanced_error(Model { keyskip: false, ..model });
    if let Event::Acted(reply) = event {
        if let Phase::Acting(task) = model.phase {
            if let StepView::Spawned(acts) = task.answered(reply) {
                lemma_advanced_error(Model { actstack: acts + model.actstack, ..model });
            }
        }
    }
}

impl<P: ProgramTypes> Action<P> {
    /// Whether nothing is done for an action.
    pub open spec fn idle(self) -> bool {
        self is NoOp || self is KeywordLookup || self is Unhandled
    }
}

/// The pending actions are run in their order, before any action of the keybindings: when an
/// action is over, those at the front that nothing is done for are passed over, and the
/// first of the others is begun.
pub proof fn law_pending_actions_come_first<P: ProgramTypes>(model: Model<P>, n: int)
    requires
        0 <= n < model.actstack.len(),
        forall|i: int| 0 <= i < n ==> (#[trigger] model.actstack[i]).0.idle(),
        !model.actstack[n].0.idle(),
    ensures
        ({
            let (action, ctx) = model.actstack[n];
            let rest = Model { actstack: model.actstack.skip(n + 1), ..model };
            rest.paused(action.started(ctx)) == Some(model.advanced())
        }),
    decreases n,
{
    let rest = Model { actstack: model.actstack.drop_first(), ..model };
    if n > 0 {
        assert(model.actstack[0].0.idle());
        assert forall|i: int| 0 <= i < n - 1 implies (#[trigger] rest.actstack[i]).0.idle() by {
            assert(model.actstack[i + 1].0.idle());
        }
        law_pending_actions_come_first(rest, n - 1);
        assert(rest.actstack.skip(n) =~= model.actstack.skip(n + 1));
    } else {
        assert(model.actstack.skip(1) =~= model.actstack.drop_first());
    }
}

/// The keybindings are asked for an action, or the run goes on to the next key, only when
/// nothing is done for any of the pending actions.
pub proof fn law_bindings_come_last<P: ProgramTypes>(model: Model<P>)
    ensures
        model.advanced().1 is PopBinding || model.advanced().1 is CountTabs <==> forall|i: int|
            0 <= i < model.actstack.len() ==> (#[trigger] model.actstack[i]).0.idle(),
        model.advanced().1 is PopBinding ==> !model.keyskip,
        model.advanced().1 is CountTabs ==> model.keyskip,
    decreases model.actstack.len(),
{
    if model.actstack.len() > 0 {
        let rest = Model { actstack: model.actstack.drop_first(), ..model };
        law_bindings_come_last(rest);
        assert(forall|i: int| 0 <= i < rest.actstack.len() ==> rest.actstack[i] == (
        #[trigger] model.actstack[i + 1]));
        if model.actstack[0].0.idle() {
            assert forall|i: int| 0 <= i < model.actstack.len() && (forall|k: int|
                0 <= k < rest.actstack.len() ==> (
                #[trigger] rest.actstack[k]).0.idle()) implies (
            #[trigger] model.actstack[i]).0.idle() by {
                if i > 0 {
                    assert(rest.actstack[i - 1].0.idle());
                }
            }
        }
    }
}

/// Actions that an action gives are run before all that were pending, and in the order in
/// which they were given. What was pending is run after them.
pub proof fn law_created_actions_come_first<P: ProgramTypes>(
    model: Model<P>,
    acts: Seq<Entry<P>>,
    n: int,
)
    requires
        0 <= n < acts.len(),
        forall|i: int| 0 <= i < n ==> (#[trigger] acts[i]).0.idle(),
        !acts[n].0.idle(),
    ensures
        ({
            let (action, ctx) = acts[n];
            let rest = Model { actstack: acts.skip(n + 1) + model.actstack, ..model };
            rest.paused(action.started(ctx)) == Some(model.settled(StepView::Spawned(acts)))
        }),
{
    let all = Model { actstack: acts + model.actstack, ..model };
    assert(forall|i: int| 0 <= i < acts.len() ==> all.actstack[i] == #[trigger] acts[i]);
    law_pending_actions_come_first(all, n);
    assert(all.actstack.skip(n + 1) =~= acts.skip(n + 1) + model.actstack);
}

/// How many tasks an action can still ask for, the one at hand included.
pub open spec fn tasks_left<P: ProgramTypes>(task: ActionTask<P>) -> nat {
    match task {
        ActionTask::Edit { .. } => 3,
        ActionTask::SwitchThenEdit { .. }
        | ActionTask::ResolveCount { .. }
        | ActionTask::ClearMessage
        | ActionTask::FindVerification { .. } => 2,
        _ => 1,
    }
}

/// Every action is over after at most three tasks: with each answer there is one less left.
pub proof fn law_actions_end<P: ProgramTypes>(task: ActionTask<P>, reply: Reply<P>)
    requires
        task.accepts(reply),
    ensures
        1 <= tasks_left(task) <= 3,
        task.answered(reply) matches StepView::Pending(next) ==> tasks_left(next) < tasks_left(
            task,
        ),
{
}

/// No failure is swallowed: a task that failed ends the action with that failure. The one
/// exception is an editing command that belongs into another window, which can be shown.
pub proof fn law_failures_are_passed_on<P: ProgramTypes>(task: ActionTask<P>, reply: Reply<P>)
    requires
        task.accepts(reply),
        reply.failure() is Some,
        !(reply matches Reply::Edited {
            result: Err(EditError::WrongBuffer(_)),
            switchable: true,
            window: Some(_),
        }),
    ensures
        task.answered(reply) == StepView::<P>::failed(reply.failure()->0),
{
}

/// An editing command is given to the screen a second time only after the window of the
/// buffer that it belongs into was shown, and the second time it is the same command in the
/// same context.
pub proof fn law_edit_is_retried_once<P: ProgramTypes>(
    act: P::EditorAction,
    ctx: P::Context,
    first: Reply<P>,
    switched: Reply<P>,
    second: Reply<P>,
)
    requires
        (ActionTask::<P>::Edit { act, ctx }).accepts(first),
        (ActionTask::<P>::Edit { act, ctx }).answered(first) is Pending,
    ensures
        ({
            let task = (ActionTask::<P>::Edit { act, ctx }).answered(first)->Pending_0;
            &&& first matches Reply::Edited {
                result: Err(EditError::WrongBuffer(_)),
                switchable: true,
                window: Some(id),
            } && task == (ActionTask::<P>::SwitchThenEdit {
                window: WindowAction::Switch(OpenTarget::Application(id)),
                act,
                ctx,
            })
            &&& task.accepts(switched) && switched->Screen_0 is Ok ==> task.answered(switched)
                == StepView::<P>::Pending(ActionTask::EditAgain { act, ctx })
            &&& task.accepts(switched) && switched->Screen_0 is Err ==> task.answered(switched)
                == StepView::<P>::Finished(switched->Screen_0)
        }),
        (ActionTask::<P>::EditAgain { act, ctx }).accepts(second) ==> (ActionTask::<
            P,
        >::EditAgain { act, ctx }).answered(second) is Finished,
{
}

/// Once a room is created, the next thing done is to show it in the current window, in the
/// context that the room was asked for in. What was pending stays pending.
pub proof fn law_created_room_is_shown<P: ProgramTypes>(
    model: Model<P>,
    alias: Option<String>,
    vis: P::Visibility,
    flags: P::CreateFlags,
    ctx: P::Context,
    room: P::RoomId,
)
    requires
        model.phase == Phase::Acting(ActionTask::<P>::CreateRoom { alias, vis, flags, ctx }),
    ensures
        ({
            let cmd = WindowAction::<P>::Switch(OpenTarget::Application(IambId::Room(room)));
            model.next(Event::Acted(Reply::RoomCreated(Ok(room)))) == (
                model.at(Phase::Acting(ActionTask::Window { cmd, ctx })),
                Effect::<P>::Act,
            )
        }),
{
    let acts = seq![(Action::<P>::show_room(room), ctx)];
    law_created_actions_come_first(model, acts, 0);
    assert(acts.skip(1) + model.actstack =~= model.actstack);
}

/// A pending action leads to a request for a verification only if the user is named by an
/// identifier.
proof fn lemma_advanced_request<P: ProgramTypes>(model: Model<P>)
    ensures
        model.advanced().0.phase matches Phase::Acting(ActionTask::VerifyRequest { user_id })
            ==> crate::outside::valid_user_id(user_id@),
    decreases model.actstack.len(),
{
    if model.actstack.len() > 0 {
        lemma_advanced_request(Model { actstack: model.actstack.drop_first(), ..model });
    }
}

/// Whatever happens, only a user who is named by an identifier is asked for a verification.
pub proof fn law_only_users_are_asked<P: ProgramTypes>(model: Model<P>, event: Event<P>)
    requires
        model.phase.fits(event),
    ensures
        model.next(event).0.phase matches Phase::Acting(ActionTask::VerifyRequest { user_id })
            ==> crate::outside::valid_user_id(user_id@),
{
    lemma_advanced_request(model);
    lemma_advanced_request(Model { keyskip: false, ..model });
    if let Event::Acted(reply) = event {
        if let Phase::Acting(task) = model.phase {
            if let StepView::Spawned(acts) = task.answered(reply) {
                lemma_advanced_request(Model { actstack: acts + model.actstack, ..model });
            }
        }
    }
}

impl<P: ProgramTypes> Effect<P> {
    /// Whether an event is of the kind that an effect is answered by.
    pub open spec fn answered_by(self, event: Event<P>) -> bool {
        match self {
            Effect::ClearTerminal
            | Effect::Draw
            | Effect::DisableRawMode
            | Effect::LeaveAlternateScreen
            | Effect::ShowCursor => event is Io,
            Effect::CountTabs => event is Tabs,
            Effect::Poll(_) => event is Polled,
            Effect::ReadEvent => event is Read,
            Effect::Insert(_) => event is Pasted,
            Effect::PopBinding => event is Popped,
            Effect::Act => event is Acted,
            Effect::InputKey(_)
            | Effect::PushInfo(_)
            | Effect::RunPager(_)
            | Effect::RunDialog(_)
            | Effect::PushError(_)
            | Effect::PushEditError(_) => event is Done,
            Effect::Exit(_) => false,
        }
    }
}

/// When an action is over, what the client asks for is what it waits for.
proof fn lemma_advanced_answered<P: ProgramTypes>(model: Model<P>, answer: Event<P>)
    ensures
        ({
            let (after, effect) = model.advanced();
            &&& effect is Act <==> after.phase is Acting
            &&& !(effect is Act) ==> (after.phase.fits(answer) <==> effect.answered_by(answer))
        }),
    decreases model.actstack.len(),
{
    if model.actstack.len() > 0 {
        lemma_advanced_answered(Model { actstack: model.actstack.drop_first(), ..model }, answer);
    }
}

/// Whoever answers each effect with an event of its kind always gives the client what it
/// waits for. For the task of an action this is an answer of the kind that the task asks
/// for; there is such a task exactly when the effect is to do it, and the store is then kept
/// from the worker.
pub proof fn law_effects_are_answered<P: ProgramTypes>(
    model: Model<P>,
    event: Event<P>,
    answer: Event<P>,
)
    requires
        model.phase.fits(event),
    ensures
        ({
            let (after, effect) = model.next(event);
            &&& effect is Act <==> after.phase is Acting
            &&& effect is Act ==> after.phase.in_actions()
            &&& after.phase.fits(answer) <==> effect.answered_by(answer) && (
            after.phase matches Phase::Acting(task) ==> task.accepts(answer->Acted_0))
        }),
{
    lemma_advanced_answered(model, answer);
    lemma_advanced_answered(Model { keyskip: false, ..model }, answer);
    if let Event::Acted(reply) = event {
        if let Phase::Acting(task) = model.phase {
            if let StepView::Spawned(acts) = task.answered(reply) {
                lemma_advanced_answered(Model { actstack: acts + model.actstack, ..model }, answer);
            }
        }
    }
}

/// While a key is waited for, the pending actions stay as they are, and so does whether the
/// actions of the keybindings are passed over. In particular pasted text leads to no action.
pub proof fn law_waiting_changes_no_actions<P: ProgramTypes>(model: Model<P>, event: Event<P>)
    requires
        model.phase.in_step(),
        model.phase.fits(event),
    ensures
        model.next(event).0.actstack == model.actstack,
        model.next(event).0.keyskip == model.keyskip,
        model.next(event).1 is InputKey <==> event matches Event::Read(
            Ok(TerminalEvent::Key(_)),
        ),
        model.next(event).0.phase.in_step() || model.next(event).1 is InputKey || model.next(
            event,
        ).1 is Exit,
{
}

/// The terminal is only watched right after the screen was drawn. So whatever was read or
/// passed over, and whenever nothing happened for a while, the screen is drawn before the
/// terminal is watched again.
pub proof fn law_screen_is_drawn_before_waiting<P: ProgramTypes>(
    events: Seq<Event<P>>,
    i: int,
)
    requires
        possible(Model::<P>::start(), events),
        0 <= i < events.len(),
        effect(Model::<P>::start(), events, i) is Poll,
    ensures
        i > 0,
        events[i] matches Event::Io(Ok(_)),
        effect(Model::<P>::start(), events, i - 1) is Draw,
{
    let model = before(Model::<P>::start(), events, i);
    assert(model.phase.fits(events[i]));
    lemma_next_effect(model, events[i]);
    assert(model.phase is Drawing);
    if i == 0 {
        assert(events.take(0).len() == 0);
    } else {
        assert(before(Model::<P>::start(), events, i - 1).phase.fits(events[i - 1]));
        lemma_before_next(Model::<P>::start(), events, i - 1);
        lemma_next_effect(before(Model::<P>::start(), events, i - 1), events[i - 1]);
    }
}

/// What the client waits for after an event belongs to the effect that the event led to.
proof fn lemma_next_effect<P: ProgramTypes>(model: Model<P>, event: Event<P>)
    requires
        model.phase.fits(event),
    ensures
        model.next(event).1 is Poll ==> model.phase is Drawing && (event matches Event::Io(Ok(_))),
        model.next(event).0.phase is Drawing <==> model.next(event).1 is Draw,
        model.next(event).0.phase is LeavingRawMode <==> model.next(event).1 is DisableRawMode,
        model.next(event).0.phase is LeavingRawMode ==> event == Event::<P>::Tabs(0),
        model.next(event).0.phase is LeavingScreen <==> model.next(event).1
            is LeaveAlternateScreen,
        model.next(event).0.phase is LeavingScreen ==> model.phase is LeavingRawMode && (
        event matches Event::Io(Ok(_))),
        model.next(event).0.phase is ShowingCursor <==> model.next(event).1 is ShowCursor,
        model.next(event).0.phase is ShowingCursor ==> model.phase is LeavingScreen && (
        event matches Event::Io(Ok(_))),
        model.next(event).0.phase is Ended <==> model.next(event).1 is Exit,
        (model.next(event).1 matches Effect::Exit(Ok(_))) ==> model.phase is ShowingCursor && (
        event matches Event::Io(Ok(_))),
{
    lemma_advanced_effect(model);
    lemma_advanced_effect(Model { keyskip: false, ..model });
    if let Event::Acted(reply) = event {
        if let Phase::Acting(task) = model.phase {
            if let StepView::Spawned(acts) = task.answered(reply) {
                lemma_advanced_effect(Model { actstack: acts + model.actstack, ..model });
            }
        }
    }
}

/// When an action is over, the client runs actions or counts the tabs.
proof fn lemma_advanced_effect<P: ProgramTypes>(model: Model<P>)
    ensures
        ({
            let next = model.advanced();
            &&& next.0.phase.in_actions() || next.0.phase is Counting
            &&& {
                ||| next.1 is Act
                ||| next.1 is PushInfo
                ||| next.1 is RunPager
                ||| next.1 is RunDialog
                ||| next.1 is PushError
                ||| next.1 is PopBinding
                ||| next.1 is CountTabs
            }
        }),
    decreases model.actstack.len(),
{
    if model.actstack.len() > 0 {
        lemma_advanced_effect(Model { actstack: model.actstack.drop_first(), ..model });
    }
}

/// A run that ends well ends because no tab is open any more, and the raw mode was left,
/// then the alternate screen, and then the cursor shown, each with success. That leaves the
/// terminal as no program has changed it, except that pasted text stays marked where it was.
pub proof fn law_terminal_is_restored<P: ProgramTypes>(
    events: Seq<Event<P>>,
    i: int,
    modes: TerminalModes,
)
    requires
        possible(Model::<P>::start(), events),
        0 <= i < events.len(),
        effect(Model::<P>::start(), events, i) matches Effect::Exit(Ok(_)),
    ensures
        i >= 3,
        events[i - 3] == Event::<P>::Tabs(0),
        effect(Model::<P>::start(), events, i - 3) is DisableRawMode,
        events[i - 2] matches Event::Io(Ok(_)),
        effect(Model::<P>::start(), events, i - 2) is LeaveAlternateScreen,
        events[i - 1] matches Event::Io(Ok(_)),
        effect(Model::<P>::start(), events, i - 1) is ShowCursor,
        events[i] matches Event::Io(Ok(_)),
        modes.cleaned_by(
            effect(Model::<P>::start(), events, i - 3).cleanup()->0,
        ).cleaned_by(effect(Model::<P>::start(), events, i - 2).cleanup()->0).cleaned_by(
            effect(Model::<P>::start(), events, i - 1).cleanup()->0,
        ) == (TerminalModes {
            bracketed_paste: modes.bracketed_paste,
            ..TerminalModes::pristine()
        }),
{
    let start = Model::<P>::start();
    assert(events.take(0).len() == 0);
    assert(before(start, events, 0) == start);
    assert(before(start, events, i).phase.fits(events[i]));
    lemma_next_effect(before(start, events, i), events[i]);
    assert(before(start, events, i - 1).phase.fits(events[i - 1]));
    lemma_before_next(start, events, i - 1);
    lemma_next_effect(before(start, events, i - 1), events[i - 1]);
    assert(before(start, events, i - 2).phase.fits(events[i - 2]));
    lemma_before_next(start, events, i - 2);
    lemma_next_effect(before(start, events, i - 2), events[i - 2]);
    assert(before(start, events, i - 3).phase.fits(events[i - 3]));
    lemma_before_next(start, events, i - 3);
    lemma_next_effect(before(start, events, i - 3), events[i - 3]);
}

/// A run fails only with a failure of the terminal, and with every such failure outside an
/// action. Once it is over, nothing is waited for.
pub proof fn law_run_fails_with_the_terminal<P: ProgramTypes>(
    model: Model<P>,
    event: Event<P>,
    error: P::IoError,
)
    requires
        model.phase.fits(event),
    ensures
        model.next(event).1 == Effect::<P>::Exit(Err(error)) <==> {
            ||| event == Event::<P>::Io(Err(error))
            ||| event == Event::<P>::Polled(Err(error))
            ||| event == Event::<P>::Read(Err(error))
        },
        model.next(event).1 is Exit <==> model.next(event).0.phase is Ended,
        !(model.phase is Ended),
{
    lemma_next_effect(model, event);
    lemma_advanced_effect(model);
    lemma_advanced_effect(Model { keyskip: false, ..model });
    if let Event::Acted(reply) = event {
        if let Phase::Acting(task) = model.phase {
            if let StepView::Spawned(acts) = task.answered(reply) {
                lemma_advanced_effect(Model { actstack: acts + model.actstack, ..model });
            }
        }
    }
}

/// A run begins with no actions pending and none passed over. The terminal is cleared first,
/// and then the tabs are counted.
pub proof fn law_run_begins<P: ProgramTypes>(model: Model<P>, event: Event<P>)
    ensures
        Model::<P>::start().actstack.len() == 0,
        !Model::<P>::start().keyskip,
        Model::<P>::start().phase is Starting,
        Phase::<P>::Starting.fits(event) <==> event is Done,
        model.phase is Starting ==> model.next(Event::Done) == (
            Model { phase: Phase::Clearing, ..model },
            Effect::<P>::ClearTerminal,
        ),
        model.phase is Clearing && (event matches Event::Io(Ok(_))) ==> model.next(event) == (
            Model { phase: Phase::Counting, ..model },
            Effect::<P>::CountTabs,
        ),
{
}

/// The run lasts exactly as long as there is a tab: with any number of them the screen is
/// drawn and the next key waited for, and without any the terminal is given back.
pub proof fn law_run_lasts_while_tabs_are_open<P: ProgramTypes>(model: Model<P>, tabs: usize)
    requires
        model.phase is Counting,
    ensures
        tabs > 0 ==> model.next(Event::Tabs(tabs)) == (
            Model { phase: Phase::Drawing, ..model },
            Effect::<P>::Draw,
        ),
        tabs == 0 ==> model.next(Event::Tabs(tabs)) == (
            Model { phase: Phase::LeavingRawMode, ..model },
            Effect::<P>::DisableRawMode,
        ),
{
}

/// Once the screen is drawn the terminal is watched for a second. When nothing happened the
/// screen is drawn again, and when something did it is read.
pub proof fn law_terminal_is_watched<P: ProgramTypes>(model: Model<P>, event: Event<P>)
    ensures
        model.phase is Drawing && (event matches Event::Io(Ok(_))) ==> model.next(event) == (
            Model { phase: Phase::Polling, ..model },
            Effect::<P>::Poll(1),
        ),
        model.phase is Polling ==> {
            &&& model.next(Event::Polled(Ok(false))) == (
                Model { phase: Phase::Drawing, ..model },
                Effect::<P>::Draw,
            )
            &&& model.next(Event::Polled(Ok(true))) == (
                Model { phase: Phase::Reading, ..model },
                Effect::<P>::ReadEvent,
            )
        },
{
}

/// Every key that is pressed is fed to the keybindings, and it is the key that was pressed:
/// the same character or the same named key, with the same modifiers but for the shift key of
/// a character.
pub proof fn law_pressed_key_is_fed<P: ProgramTypes>(model: Model<P>, press: KeyEvent<P>)
    requires
        model.phase is Reading,
    ensures
        ({
            let (after, effect) = model.next(Event::Read(Ok(TerminalEvent::Key(press))));
            &&& after == Model { phase: Phase::Feeding, ..model }
            &&& effect matches Effect::InputKey(key) && {
                &&& key.code == press.code
                &&& key.code is Named ==> key.modifiers == press.modifiers
                &&& key.code is Char ==> key.modifiers % 2 == 0
                &&& key.modifiers / 2 == press.modifiers / 2
            }
        }),
{
}

/// Pasted text is inserted before the cursor, once and as it is. What is neither a key nor a
/// paste has the screen drawn again, and nothing more.
pub proof fn law_pasted_text_is_inserted<P: ProgramTypes>(
    model: Model<P>,
    text: String,
    event: TerminalEvent<P>,
)
    requires
        model.phase is Reading,
    ensures
        model.next(Event::Read(Ok(TerminalEvent::Paste(text)))) == (
            Model { phase: Phase::Pasting, ..model },
            Effect::<P>::Insert(
                InsertTextAction::Transcribe(text, MoveDir1D::Previous, Count::Exact(1)),
            ),
        ),
        !(event is Key) && !(event is Paste) ==> model.next(Event::Read(Ok(event))) == (
            Model { phase: Phase::Drawing, ..model },
            Effect::<P>::Draw,
        ),
{
}

/// What came of a paste is told as it is, failures included, and then the screen is drawn.
pub proof fn law_outcome_of_a_paste_is_told<P: ProgramTypes>(
    model: Model<P>,
    text: String,
    error: EditError<P>,
)
    ensures
        model.phase is Pasting ==> {
            let told = Model { phase: Phase::Reporting, ..model };
            &&& model.next(Event::Pasted(Ok(None))) == (
                Model { phase: Phase::Drawing, ..model },
                Effect::<P>::Draw,
            )
            &&& model.next(Event::Pasted(Ok(Some(InfoMessage::Message(text))))) == (
                told,
                Effect::<P>::PushInfo(text),
            )
            &&& model.next(Event::Pasted(Ok(Some(InfoMessage::Pager(text))))) == (
                told,
                Effect::<P>::RunPager(text),
            )
            &&& model.next(Event::Pasted(Err(error))) == (told, Effect::<P>::PushEditError(error))
        },
        model.phase is Reporting ==> model.next(Event::Done) == (
            Model { phase: Phase::Drawing, ..model },
            Effect::<P>::Draw,
        ),
{
}

/// A step of the wait for a key is a step of the run.
pub proof fn law_waiting_is_part_of_the_run<P: ProgramTypes>(model: Model<P>, event: Event<P>)
    requires
        ({
            ||| model.phase is Drawing
            ||| model.phase is Polling
            ||| model.phase is Reading
            ||| model.phase is Pasting
            ||| model.phase is Reporting
        }),
        model.phase.fits(event),
    ensures
        model.phase.in_step(),
        model.stepped(event) == model.next(event),
{
}

/// How far an event brings an action: one that was taken out of the keybindings is begun, and
/// one whose task is answered goes on.
pub open spec fn brought<P: ProgramTypes>(model: Model<P>, event: Event<P>) -> Option<StepView<P>> {
    match (model.phase, event) {
        (Phase::Popping, Event::Popped(Some(entry))) => Some(entry.0.started(entry.1)),
        (Phase::Acting(task), Event::Acted(reply)) => Some(task.answered(reply)),
        _ => None,
    }
}

/// A task that an action asks for is the next thing done. Nothing else changes.
pub proof fn law_task_is_done_next<P: ProgramTypes>(
    model: Model<P>,
    event: Event<P>,
    task: ActionTask<P>,
)
    requires
        brought(model, event) == Some(StepView::Pending(task)),
    ensures
        model.next(event) == (Model { phase: Phase::Acting(task), ..model }, Effect::<P>::Act),
{
}

/// What an action has to tell is told as it is: a message on the status line, and a longer
/// text in a pager. Nothing else changes.
pub proof fn law_information_is_told<P: ProgramTypes>(
    model: Model<P>,
    event: Event<P>,
    text: String,
)
    ensures
        brought(model, event) == Some(
            StepView::<P>::Finished(Ok(Some(InfoMessage::Message(text)))),
        ) ==> model.next(event) == (
            Model { phase: Phase::Telling, ..model },
            Effect::<P>::PushInfo(text),
        ),
        brought(model, event) == Some(StepView::<P>::Finished(Ok(Some(InfoMessage::Pager(text)))))
            ==> model.next(event) == (
            Model { phase: Phase::Telling, ..model },
            Effect::<P>::RunPager(text),
        ),
        Effect::<P>::telling(InfoMessage::Message(text)) == Effect::<P>::PushInfo(text),
        Effect::<P>::telling(InfoMessage::Pager(text)) == Effect::<P>::RunPager(text),
{
}

/// An action that has to be confirmed has its question put to the user. Nothing else changes.
pub proof fn law_question_is_put<P: ProgramTypes>(
    model: Model<P>,
    event: Event<P>,
    dialog: P::Dialog,
)
    requires
        ({
            ||| brought(model, event) == Some(
                StepView::<P>::Finished(Err(UIError::NeedConfirm(dialog))),
            )
            ||| brought(model, event) == Some(
                StepView::<P>::Finished(
                    Err(UIError::EditingFailure(EditError::NeedConfirm(dialog))),
                ),
            )
        }),
    ensures
        model.next(event) == (
            Model { phase: Phase::Telling, ..model },
            Effect::<P>::RunDialog(dialog),
        ),
{
}

/// Every failure of an action that is no question is shown as it is, and from then on the
/// actions of the keybindings are passed over. The actions that are pending stay pending.
pub proof fn law_failure_is_shown<P: ProgramTypes>(
    model: Model<P>,
    event: Event<P>,
    error: UIError<P>,
)
    requires
        !(error is NeedConfirm),
        !(error matches UIError::EditingFailure(EditError::NeedConfirm(_))),
    ensures
        brought(model, event) == Some(StepView::Finished(Err(error))) ==> model.next(event) == (
            Model { keyskip: true, phase: Phase::Telling, ..model },
            Effect::<P>::PushError(error),
        ),
        model.settled(StepView::Finished(Err(error))) == (
            Model { keyskip: true, phase: Phase::Telling, ..model },
            Effect::<P>::PushError(error),
        ),
{
}

/// Every task that fails is shown to have failed in just the way it did, unless it has to be
/// confirmed or is an editing command whose window can be shown.
pub proof fn law_failed_task_is_shown<P: ProgramTypes>(
    model: Model<P>,
    task: ActionTask<P>,
    reply: Reply<P>,
    error: UIError<P>,
)
    requires
        model.phase == Phase::Acting(task),
        task.accepts(reply),
        !(error is NeedConfirm),
        !(error matches UIError::EditingFailure(EditError::NeedConfirm(_))),
        match reply {
            Reply::Screen(Err(failure))
            | Reply::Jumped(Err(failure))
            | Reply::Actions(Err(failure))
            | Reply::Toggled(Err(failure))
            | Reply::RoomCreated(Err(failure)) => error == failure,
            Reply::Edit(Err(failure)) | Reply::Prompted(Err(failure)) => error
                == UIError::<P>::EditingFailure(failure),
            Reply::Edited { result: Err(failure), switchable, window } => error == UIError::<
                P,
            >::EditingFailure(failure) && !(failure is WrongBuffer && switchable && window is Some),
            Reply::Io(Err(failure)) => error == UIError::<P>::IOError(failure),
            _ => false,
        },
    ensures
        model.next(Event::Acted(reply)) == (
            Model { keyskip: true, phase: Phase::Telling, ..model },
            Effect::<P>::PushError(error),
        ),
{
}

/// Whether an event leaves nothing to be done for the action at hand: the action is over and
/// tells nothing, or the user was told what came of it.
pub open spec fn is_over<P: ProgramTypes>(model: Model<P>, event: Event<P>) -> bool {
    ||| brought(model, event) == Some(StepView::<P>::Finished(Ok(None)))
    ||| model.phase is Telling && event is Done
}

/// When an action is over, the first of the pending actions is run just as if the keybindings
/// had given it, with the others still pending. Without any, the keybindings are asked for an
/// action, and the tabs are counted instead if the actions of the keybindings are passed over.
pub proof fn law_next_action_is_run<P: ProgramTypes>(model: Model<P>, event: Event<P>)
    requires
        is_over(model, event),
    ensures
        model.actstack.len() > 0 ==> model.next(event) == (Model {
            actstack: model.actstack.drop_first(),
            phase: Phase::Popping,
            ..model
        }).next(Event::Popped(Some(model.actstack[0]))),
        model.actstack.len() == 0 && model.keyskip ==> model.next(event) == (
            Model { phase: Phase::Counting, ..model },
            Effect::<P>::CountTabs,
        ),
        model.actstack.len() == 0 && !model.keyskip ==> model.next(event) == (
            Model { phase: Phase::Popping, ..model },
            Effect::<P>::PopBinding,
        ),
{
    if model.actstack.len() > 0 {
        let (action, ctx) = model.actstack[0];
        let rest = Model { actstack: model.actstack.drop_first(), ..model };
        crate::application::lemma_settled_from(rest, Phase::Popping, action.started(ctx));
    }
}

/// The actions that an action gives become the first of the pending ones, all of them and in
/// their order, and then the action is over.
pub proof fn law_created_actions_are_pending<P: ProgramTypes>(
    model: Model<P>,
    event: Event<P>,
    acts: Seq<Entry<P>>,
)
    requires
        brought(model, event) == Some(StepView::Spawned(acts)),
    ensures
        model.next(event) == (Model {
            actstack: acts + model.actstack,
            phase: Phase::Telling,
            ..model
        }).next(Event::Done),
{
    crate::application::lemma_advanced_from(
        Model { actstack: acts + model.actstack, ..model },
        Phase::Telling,
    );
}

/// Once the keybindings have no more actions the tabs are counted.
pub proof fn law_key_is_done<P: ProgramTypes>(model: Model<P>)
    requires
        model.phase is Popping,
    ensures
        model.next(Event::Popped(None)) == (
            Model { phase: Phase::Counting, ..model },
            Effect::<P>::CountTabs,
        ),
{
}

/// After the last tab the raw mode is left, then the alternate screen, and then the cursor is
/// shown; if each of these succeeds the run ends well.
pub proof fn law_terminal_is_given_back<P: ProgramTypes>(model: Model<P>, event: Event<P>)
    requires
        event matches Event::Io(Ok(_)),
    ensures
        model.phase is LeavingRawMode ==> model.next(event) == (
            Model { phase: Phase::LeavingScreen, ..model },
            Effect::<P>::LeaveAlternateScreen,
        ),
        model.phase is LeavingScreen ==> model.next(event) == (
            Model { phase: Phase::ShowingCursor, ..model },
            Effect::<P>::ShowCursor,
        ),
        model.phase is ShowingCursor ==> {
            &&& model.next(event).0 == Model { phase: Phase::Ended, ..model }
            &&& model.next(event).1 matches Effect::Exit(Ok(_))
        },
{
}

/// The store is kept from the worker from right after a key was fed until the tabs are counted
/// again, and at no other time.
pub proof fn law_store_is_held_for_a_key<P: ProgramTypes>(model: Model<P>, event: Event<P>)
    requires
        model.wf(),
        model.phase.fits(event),
    ensures
        !Model::<P>::start().phase.in_actions(),
        ({
            let (after, effect) = model.next(event);
            after.phase.in_actions() <==> {
                &&& model.phase is Feeding || model.phase.in_actions()
                &&& !(effect is CountTabs)
            }
        }),
{
    lemma_advanced_store(model);
    if let Event::Acted(reply) = event {
        if let Phase::Acting(task) = model.phase {
            if let StepView::Spawned(acts) = task.answered(reply) {
                lemma_advanced_store(Model { actstack: acts + model.actstack, ..model });
            }
        }
    }
}

/// When an action is over, actions are run until the tabs are counted.
proof fn lemma_advanced_store<P: ProgramTypes>(model: Model<P>)
    ensures
        model.advanced().0.phase.in_actions() <==> !(model.advanced().1 is CountTabs),
    decreases model.actstack.len(),
{
    if model.actstack.len() > 0 {
        lemma_advanced_store(Model { actstack: model.actstack.drop_first(), ..model });
    }
}

} // verus!
