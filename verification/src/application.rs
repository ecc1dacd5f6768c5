//! The run of the client: keys are read and fed to the keybindings, and the actions that
//! they give are run until there are none left.

use crate::action::{ActionTask, Reply, Step, StepView};
use crate::input::{TerminalEvent, TerminalKey};
use crate::types::{
    Action, Count, EditError, EditInfo, Entry, InfoMessage, InsertTextAction, MoveDir1D,
    ProgramTypes, UIError,
};
use std::collections::VecDeque;
use vstd::pervasive::unreached;
use vstd::prelude::*;

verus! {

/// How many seconds the terminal is watched before the screen is drawn again.
pub const POLL_SECONDS: u64 = 1;

/// Something that has to be done for the client to go on.
pub enum Effect<P: ProgramTypes> {
    /// Clear the terminal. Answered by `Event::Io`.
    ClearTerminal,
    /// Count the open tabs. Answered by `Event::Tabs`.
    CountTabs,
    /// Draw the screen. Answered by `Event::Io`.
    Draw,
    /// Watch the terminal for so many seconds. Answered by `Event::Polled`.
    Poll(u64),
    /// Read what happened at the terminal. Answered by `Event::Read`.
    ReadEvent,
    /// Insert text into the buffer that has the focus, in a fresh context. Answered by
    /// `Event::Pasted`.
    Insert(InsertTextAction),
    /// Feed a key to the keybindings. Answered by `Event::Done`.
    InputKey(TerminalKey<P>),
    /// Take the next action out of the keybindings. Answered by `Event::Popped`.
    PopBinding,
    /// Do the task of the action at hand. Answered by `Event::Acted`.
    Act,
    /// Show a message on the status line. Answered by `Event::Done`.
    PushInfo(String),
    /// Let the user page through a text. Answered by `Event::Done`.
    RunPager(String),
    /// Put a question to the user. Answered by `Event::Done`.
    RunDialog(P::Dialog),
    /// Show that an action failed. Answered by `Event::Done`.
    PushError(UIError<P>),
    /// Show that an edit failed. Answered by `Event::Done`.
    PushEditError(EditError<P>),
    /// Leave the raw mode of the terminal. Answered by `Event::Io`.
    DisableRawMode,
    /// Leave the alternate screen of the terminal. Answered by `Event::Io`.
    LeaveAlternateScreen,
    /// Show the cursor of the terminal. Answered by `Event::Io`.
    ShowCursor,
    /// The run is over.
    Exit(Result<(), P::IoError>),
}

/// What came of an effect.
pub enum Event<P: ProgramTypes> {
    /// The effect is done; it cannot fail.
    Done,
    /// What came of a change to the terminal.
    Io(Result<(), P::IoError>),
    /// How many tabs are open.
    Tabs(usize),
    /// Whether anything happened at the terminal.
    Polled(Result<bool, P::IoError>),
    /// What happened at the terminal.
    Read(Result<TerminalEvent<P>, P::IoError>),
    /// What came of inserting pasted text.
    Pasted(Result<EditInfo, EditError<P>>),
    /// The action that the keybindings gave, if there was one.
    Popped(Option<Entry<P>>),
    /// What came of the task of the action at hand.
    Acted(Reply<P>),
}

/// What the client waits for.
pub enum Phase<P: ProgramTypes> {
    /// The run is about to begin.
    Starting,
    /// The terminal is being cleared, before anything else.
    Clearing,
    /// The tabs are being counted.
    Counting,
    /// The screen is being drawn.
    Drawing,
    /// The terminal is being watched.
    Polling,
    /// An event is being read.
    Reading,
    /// Pasted text is being inserted.
    Pasting,
    /// The user is being told what came of a paste.
    Reporting,
    /// A key is being fed to the keybindings.
    Feeding,
    /// An action is being taken out of the keybindings.
    Popping,
    /// An action is being run.
    Acting(ActionTask<P>),
    /// The user is being told what came of an action.
    Telling,
    /// The raw mode is being left.
    LeavingRawMode,
    /// The alternate screen is being left.
    LeavingScreen,
    /// The cursor is being shown.
    ShowingCursor,
    /// The run is over.
    Ended,
}

/// Where the next action comes from.
pub enum NextAction<P: ProgramTypes> {
    /// From the pending actions.
    Pending(Entry<P>),
    /// From the keybindings.
    Bindings,
    /// There is to be none before the next key.
    Nothing,
}

/// The client between two effects.
pub struct Application<P: ProgramTypes> {
    actstack: VecDeque<Entry<P>>,
    keyskip: bool,
    phase: Phase<P>,
}

/// The model of an `Application`: the actions that are pending, the next one first; whether
/// the actions of the keybindings are passed over until the next key; and what the client
/// waits for.
pub struct Model<P: ProgramTypes> {
    pub actstack: Seq<Entry<P>>,
    pub keyskip: bool,
    pub phase: Phase<P>,
}

impl<P: ProgramTypes> View for Application<P> {
    type V = Model<P>;

    closed spec fn view(&self) -> Model<P> {
        Model { actstack: self.actstack@, keyskip: self.keyskip, phase: self.phase }
    }
}

impl<P: ProgramTypes> Effect<P> {
    /// How the user is told something.
    pub open spec fn telling(info: InfoMessage) -> Effect<P> {
        match info {
            InfoMessage::Message(text) => Effect::PushInfo(text),
            InfoMessage::Pager(text) => Effect::RunPager(text),
        }
    }
}

impl<P: ProgramTypes> Phase<P> {
    /// Whether an event is of the kind that is waited for.
    pub open spec fn fits(self, event: Event<P>) -> bool {
        match self {
            Phase::Clearing
            | Phase::Drawing
            | Phase::LeavingRawMode
            | Phase::LeavingScreen
            | Phase::ShowingCursor => event is Io,
            Phase::Counting => event is Tabs,
            Phase::Polling => event is Polled,
            Phase::Reading => event is Read,
            Phase::Pasting => event is Pasted,
            Phase::Starting | Phase::Reporting | Phase::Feeding | Phase::Telling => event is Done,
            Phase::Popping => event is Popped,
            Phase::Acting(task) => event matches Event::Acted(reply) && task.accepts(reply),
            Phase::Ended => false,
        }
    }

    /// Whether a key is being waited for.
    pub open spec fn in_step(self) -> bool {
        self is Drawing || self is Polling || self is Reading || self is Pasting
            || self is Reporting
    }

    /// Whether the actions of a key are being run.
    pub open spec fn in_actions(self) -> bool {
        self is Popping || self is Acting || self is Telling
    }
}

impl<P: ProgramTypes> Model<P> {
    /// A client that is about to run.
    pub open spec fn start() -> Model<P> {
        Model { actstack: Seq::empty(), keyskip: false, phase: Phase::Starting }
    }

    /// What holds of the client between two effects: outside the running of actions none
    /// are pending, and the keybindings are only asked for an action when none are pending
    /// and theirs are not passed over.
    pub open spec fn wf(self) -> bool {
        &&& !self.phase.in_actions() ==> self.actstack.len() == 0
        &&& self.phase is Popping ==> self.actstack.len() == 0 && !self.keyskip
    }

    /// The client waiting for something else.
    pub open spec fn at(self, phase: Phase<P>) -> Model<P> {
        Model { phase, ..self }
    }

    /// The end of the run with a failure of the terminal.
    pub open spec fn broken(self, error: P::IoError) -> (Model<P>, Effect<P>) {
        (self.at(Phase::Ended), Effect::Exit(Err(error)))
    }

    /// What a step of an action makes the client wait for, if anything: a task; the user to
    /// be told something; a question to be put to them; or a failure to be shown, after
    /// which the actions of the keybindings are passed over until the next key.
    pub open spec fn paused(self, step: StepView<P>) -> Option<(Model<P>, Effect<P>)> {
        match step {
            StepView::Pending(task) => Some((self.at(Phase::Acting(task)), Effect::Act)),
            StepView::Finished(Ok(Some(info))) => {
                Some((self.at(Phase::Telling), Effect::telling(info)))
            },
            StepView::Finished(Err(UIError::NeedConfirm(dialog)))
            | StepView::Finished(Err(UIError::EditingFailure(EditError::NeedConfirm(dialog)))) => {
                Some((self.at(Phase::Telling), Effect::RunDialog(dialog)))
            },
            StepView::Finished(Err(error)) => {
                let skipping = Model { keyskip: true, ..self };
                Some((skipping.at(Phase::Telling), Effect::PushError(error)))
            },
            StepView::Finished(Ok(None)) | StepView::Spawned(_) => None,
        }
    }

    /// How the client goes on when an action is over: the pending actions are begun one
    /// after the other until there is something to wait for. Without any, the keybindings
    /// are asked for an action, unless theirs are passed over until the next key.
    pub open spec fn advanced(self) -> (Model<P>, Effect<P>)
        decreases self.actstack.len(),
    {
        if self.actstack.len() > 0 {
            let (action, ctx) = self.actstack[0];
            let rest = Model { actstack: self.actstack.drop_first(), ..self };
            match rest.paused(action.started(ctx)) {
                Some(next) => next,
                None => rest.advanced(),
            }
        } else if self.keyskip {
            (self.at(Phase::Counting), Effect::CountTabs)
        } else {
            (self.at(Phase::Popping), Effect::PopBinding)
        }
    }

    /// How the client goes on with a step of an action. The actions that an action gave come
    /// before those that were pending.
    pub open spec fn settled(self, step: StepView<P>) -> (Model<P>, Effect<P>) {
        match step {
            StepView::Spawned(acts) => Model { actstack: acts + self.actstack, ..self }.advanced(),
            _ => match self.paused(step) {
                Some(next) => next,
                None => self.advanced(),
            },
        }
    }

    /// How the client goes on while it waits for a key: the screen is drawn and the terminal
    /// watched in turn, pasted text is inserted, and all else that is no key is passed over.
    pub open spec fn stepped(self, event: Event<P>) -> (Model<P>, Effect<P>) {
        let redraw = (self.at(Phase::Drawing), Effect::Draw);
        match (self.phase, event) {
            (_, Event::Io(Err(error)))
            | (_, Event::Polled(Err(error)))
            | (_, Event::Read(Err(error))) => self.broken(error),
            (Phase::Drawing, _) => (self.at(Phase::Polling), Effect::Poll(POLL_SECONDS)),
            (Phase::Polling, Event::Polled(Ok(true))) => {
                (self.at(Phase::Reading), Effect::ReadEvent)
            },
            (Phase::Reading, Event::Read(Ok(TerminalEvent::Key(press)))) => {
                (self.at(Phase::Feeding), Effect::InputKey(press.key()))
            },
            (Phase::Reading, Event::Read(Ok(TerminalEvent::Paste(text)))) => {
                let insert = InsertTextAction::Transcribe(
                    text,
                    MoveDir1D::Previous,
                    Count::Exact(1),
                );
                (self.at(Phase::Pasting), Effect::Insert(insert))
            },
            (Phase::Pasting, Event::Pasted(Ok(Some(info)))) => {
                (self.at(Phase::Reporting), Effect::telling(info))
            },
            (Phase::Pasting, Event::Pasted(Err(error))) => {
                (self.at(Phase::Reporting), Effect::PushEditError(error))
            },
            _ => redraw,
        }
    }

    /// How the client goes on.
    pub open spec fn next(self, event: Event<P>) -> (Model<P>, Effect<P>) {
        match (self.phase, event) {
            (_, Event::Io(Err(error))) => self.broken(error),
            (Phase::Starting, _) => (self.at(Phase::Clearing), Effect::ClearTerminal),
            (Phase::Clearing, _) => (self.at(Phase::Counting), Effect::CountTabs),
            (Phase::Counting, Event::Tabs(tabs)) => if tabs != 0 {
                (self.at(Phase::Drawing), Effect::Draw)
            } else {
                (self.at(Phase::LeavingRawMode), Effect::DisableRawMode)
            },
            (Phase::Feeding, _) => Model { keyskip: false, ..self }.advanced(),
            (Phase::Popping, Event::Popped(Some((action, ctx)))) => {
                self.settled(action.started(ctx))
            },
            (Phase::Popping, _) => (self.at(Phase::Counting), Effect::CountTabs),
            (Phase::Acting(task), Event::Acted(reply)) => self.settled(task.answered(reply)),
            (Phase::Telling, _) => self.advanced(),
            (Phase::LeavingRawMode, _) => {
                (self.at(Phase::LeavingScreen), Effect::LeaveAlternateScreen)
            },
            (Phase::LeavingScreen, _) => (self.at(Phase::ShowingCursor), Effect::ShowCursor),
            (Phase::ShowingCursor, _) => (self.at(Phase::Ended), Effect::Exit(Ok(()))),
            _ => self.stepped(event),
        }
    }
}

/// How the client goes on when an action is over does not depend on what it waited for.
pub(crate) proof fn lemma_advanced_from<P: ProgramTypes>(model: Model<P>, phase: Phase<P>)
    ensures
        model.at(phase).advanced() == model.advanced(),
    decreases model.actstack.len(),
{
    if model.actstack.len() > 0 {
        let rest = Model { actstack: model.actstack.drop_first(), ..model };
        lemma_advanced_from(rest, phase);
    }
}

/// How the client goes on with a step of an action does not depend on what it waited for.
pub(crate) proof fn lemma_settled_from<P: ProgramTypes>(model: Model<P>, phase: Phase<P>, step: StepView<P>)
    ensures
        model.at(phase).settled(step) == model.settled(step),
{
    lemma_advanced_from(model, phase);
    if let StepView::Spawned(acts) = step {
        lemma_advanced_from(Model { actstack: acts + model.actstack, ..model }, phase);
    }
}

impl<P: ProgramTypes> Application<P> {
    /// A client that is about to run, with no actions pending.
    pub fn ready() -> (app: Application<P>)
        ensures
            app@ == Model::<P>::start(),
            app@.wf(),
    {
        Application { actstack: VecDeque::new(), keyskip: false, phase: Phase::Starting }
    }

    /// The task that has to be done for the action at hand, if there is one.
    pub fn task(&self) -> (task: Option<&ActionTask<P>>)
        ensures
            match self@.phase {
                Phase::Acting(pending) => task == Some(&pending),
                _ => task is None,
            },
    {
        match &self.phase {
            Phase::Acting(task) => Some(task),
            _ => None,
        }
    }

    /// Whether an event is of the kind that the client waits for.
    pub fn awaits(&self, event: &Event<P>) -> (fits: bool)
        ensures
            fits == self@.phase.fits(*event),
    {
        match &self.phase {
            Phase::Clearing
            | Phase::Drawing
            | Phase::LeavingRawMode
            | Phase::LeavingScreen
            | Phase::ShowingCursor => matches!(event, Event::Io(_)),
            Phase::Counting => matches!(event, Event::Tabs(_)),
            Phase::Polling => matches!(event, Event::Polled(_)),
            Phase::Reading => matches!(event, Event::Read(_)),
            Phase::Pasting => matches!(event, Event::Pasted(_)),
            Phase::Starting | Phase::Reporting | Phase::Feeding | Phase::Telling => {
                matches!(event, Event::Done)
            },
            Phase::Popping => matches!(event, Event::Popped(_)),
            Phase::Acting(task) => match event {
                Event::Acted(reply) => task.awaits(reply),
                _ => false,
            },
            Phase::Ended => false,
        }
    }

    /// Whether the store is to be kept from the worker: it is while the actions of a key are
    /// being run.
    pub fn holds_store(&self) -> (holds: bool)
        ensures
            holds == self@.phase.in_actions(),
    {
        match &self.phase {
            Phase::Popping => true,
            Phase::Acting(_) => true,
            Phase::Telling => true,
            _ => false,
        }
    }

    /// Puts actions before those that are pending.
    pub fn action_prepend(&mut self, acts: Vec<Entry<P>>)
        ensures
            final(self)@ == (Model { actstack: acts@ + old(self)@.actstack, ..old(self)@ }),
    {
        let mut acts = acts;
        let ghost all = acts@ + self.actstack@;
        while acts.len() > 0
            invariant
                acts@ + self.actstack@ == all,
                self.keyskip == old(self).keyskip,
                self.phase == old(self).phase,
            decreases acts@.len(),
        {
            if let Some(entry) = acts.pop() {
                self.actstack.push_front(entry);
            }
        }
    }

    /// Takes the next action: the first that is pending, and without one the next of the
    /// keybindings, unless theirs are to be passed over.
    pub fn action_pop(&mut self, keyskip: bool) -> (next: NextAction<P>)
        ensures
            old(self)@.actstack.len() > 0 ==> {
                &&& next == NextAction::Pending(old(self)@.actstack[0])
                &&& final(self)@ == (Model {
                    actstack: old(self)@.actstack.drop_first(),
                    ..old(self)@
                })
            },
            old(self)@.actstack.len() == 0 ==> {
                &&& next == if keyskip {
                    NextAction::<P>::Nothing
                } else {
                    NextAction::<P>::Bindings
                }
                &&& final(self)@ == old(self)@
            },
    {
        if let Some(entry) = self.actstack.pop_front() {
            return NextAction::Pending(entry);
        }
        if keyskip {
            NextAction::Nothing
        } else {
            NextAction::Bindings
        }
    }

    /// How the user is told something.
    pub fn handle_info(info: InfoMessage) -> (effect: Effect<P>)
        ensures
            effect == Effect::<P>::telling(info),
    {
        match info {
            InfoMessage::Message(info) => Effect::PushInfo(info),
            InfoMessage::Pager(text) => Effect::RunPager(text),
        }
    }

    /// Waits for what a step of an action asks for, or says that the action is over and has
    /// nothing to tell.
    fn pause(&mut self, result: Result<EditInfo, UIError<P>>) -> (effect: Option<Effect<P>>)
        ensures
            match old(self)@.paused(StepView::Finished(result)) {
                Some(next) => final(self)@ == next.0 && effect == Some(next.1),
                None => final(self)@ == old(self)@ && effect is None,
            },
    {
        match result {
            Ok(None) => None,
            Ok(Some(info)) => {
                self.phase = Phase::Telling;
                Some(Application::handle_info(info))
            },
            Err(UIError::NeedConfirm(dialog)) => {
                self.phase = Phase::Telling;
                Some(Effect::RunDialog(dialog))
            },
            Err(UIError::EditingFailure(EditError::NeedConfirm(dialog))) => {
                self.phase = Phase::Telling;
                Some(Effect::RunDialog(dialog))
            },
            Err(error) => {
                // Skip the actions of the keybindings until the next key.
                self.keyskip = true;
                self.phase = Phase::Telling;
                Some(Effect::PushError(error))
            },
        }
    }

    /// Begins the pending actions until there is something to wait for.
    fn advance(&mut self) -> (effect: Effect<P>)
        ensures
            (final(self)@, effect) == old(self)@.advanced(),
    {
        loop
            invariant
                self@.advanced() == old(self)@.advanced(),
            decreases self@.actstack.len(),
        {
            match self.action_pop(self.keyskip) {
                NextAction::Pending((action, ctx)) => match Application::action_run(action, ctx) {
                    Step::Pending(task) => {
                        self.phase = Phase::Acting(task);
                        return Effect::Act;
                    },
                    Step::Finished(result) => {
                        if let Some(effect) = self.pause(result) {
                            return effect;
                        }
                    },
                    Step::Spawned(_) => {},
                },
                NextAction::Bindings => {
                    self.phase = Phase::Popping;
                    return Effect::PopBinding;
                },
                NextAction::Nothing => {
                    self.phase = Phase::Counting;
                    return Effect::CountTabs;
                },
            }
        }
    }

    /// Goes on with a step of an action.
    fn settle(&mut self, step: Step<P>) -> (effect: Effect<P>)
        ensures
            (final(self)@, effect) == old(self)@.settled(step@),
    {
        match step {
            Step::Pending(task) => {
                self.phase = Phase::Acting(task);
                Effect::Act
            },
            Step::Spawned(acts) => {
                self.action_prepend(acts);
                self.advance()
            },
            Step::Finished(result) => match self.pause(result) {
                Some(effect) => effect,
                None => self.advance(),
            },
        }
    }

    /// Draws the screen, to then watch the terminal again.
    fn redraw_next(&mut self) -> (effect: Effect<P>)
        ensures
            final(self)@ == old(self)@.at(Phase::Drawing),
            effect == Effect::<P>::Draw,
    {
        self.phase = Phase::Drawing;
        Effect::Draw
    }

    /// Ends the run with a failure of the terminal.
    fn fail(&mut self, error: P::IoError) -> (effect: Effect<P>)
        ensures
            (final(self)@, effect) == old(self)@.broken(error),
    {
        self.phase = Phase::Ended;
        Effect::Exit(Err(error))
    }

    /// Goes on while a key is waited for.
    pub fn step(&mut self, event: Event<P>) -> (effect: Effect<P>)
        requires
            old(self)@.phase.in_step(),
            old(self)@.phase.fits(event),
        ensures
            (final(self)@, effect) == old(self)@.stepped(event),
    {
        match event {
            Event::Io(Ok(())) => {
                self.phase = Phase::Polling;
                Effect::Poll(POLL_SECONDS)
            },
            Event::Polled(Ok(true)) => {
                self.phase = Phase::Reading;
                Effect::ReadEvent
            },
            Event::Read(Ok(TerminalEvent::Key(press))) => {
                self.phase = Phase::Feeding;
                Effect::InputKey(press.into_key())
            },
            Event::Read(Ok(TerminalEvent::Paste(text))) => {
                self.phase = Phase::Pasting;
                Effect::Insert(
                    InsertTextAction::Transcribe(text, MoveDir1D::Previous, Count::Exact(1)),
                )
            },
            Event::Pasted(Ok(Some(info))) => {
                self.phase = Phase::Reporting;
                Application::handle_info(info)
            },
            Event::Pasted(Err(error)) => {
                self.phase = Phase::Reporting;
                Effect::PushEditError(error)
            },
            Event::Io(Err(error)) => self.fail(error),
            Event::Polled(Err(error)) => self.fail(error),
            Event::Read(Err(error)) => self.fail(error),
            // Draw the screen in case there is something new to show.
            _ => self.redraw_next(),
        }
    }

    /// Goes on with the run.
    pub fn run(&mut self, event: Event<P>) -> (effect: Effect<P>)
        requires
            old(self)@.phase.fits(event),
        ensures
            (final(self)@, effect) == old(self)@.next(event),
            old(self)@.wf() ==> final(self)@.wf(),
    {
        proof {
            if old(self)@.wf() {
                crate::laws::law_next_wf(old(self)@, event);
            }
        }
        if let Event::Io(Err(error)) = event {
            return self.fail(error);
        }
        let mut phase = Phase::Ended;
        std::mem::swap(&mut phase, &mut self.phase);
        match phase {
            Phase::Starting => {
                self.phase = Phase::Clearing;
                Effect::ClearTerminal
            },
            Phase::Clearing => {
                self.phase = Phase::Counting;
                Effect::CountTabs
            },
            Phase::Counting => match event {
                Event::Tabs(0) => {
                    self.phase = Phase::LeavingRawMode;
                    Effect::DisableRawMode
                },
                _ => self.redraw_next(),
            },
            Phase::Feeding => {
                self.keyskip = false;
                proof {
                    lemma_advanced_from(
                        Model { keyskip: false, ..old(self)@ },
                        Phase::Ended,
                    );
                }
                self.advance()
            },
            Phase::Popping => match event {
                Event::Popped(Some((action, ctx))) => {
                    proof {
                        lemma_settled_from(old(self)@, Phase::Ended, action.started(ctx));
                    }
                    self.settle(Application::action_run(action, ctx))
                },
                _ => {
                    self.phase = Phase::Counting;
                    Effect::CountTabs
                },
            },
            Phase::Acting(task) => match event {
                Event::Acted(reply) => {
                    proof {
                        lemma_settled_from(old(self)@, Phase::Ended, task.answered(reply));
                    }
                    self.settle(task.resume(reply))
                },
                _ => unreached(),
            },
            Phase::Telling => {
                proof {
                    lemma_advanced_from(old(self)@, Phase::Ended);
                }
                self.advance()
            },
            Phase::LeavingRawMode => {
                self.phase = Phase::LeavingScreen;
                Effect::LeaveAlternateScreen
            },
            Phase::LeavingScreen => {
                self.phase = Phase::ShowingCursor;
                Effect::ShowCursor
            },
            Phase::ShowingCursor => {
                self.phase = Phase::Ended;
                Effect::Exit(Ok(()))
            },
            phase => {
                self.phase = phase;
                self.step(event)
            },
        }
    }
}

} // verus!
