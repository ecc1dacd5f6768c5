use iamb::action::{ActionTask, Reply};
use iamb::application::{Application, Effect, Event, NextAction, POLL_SECONDS};
use iamb::input::{KeyCode, KeyEvent, TerminalEvent};
use iamb::types::{
    Action, Count, EditError, IambAction, IambError, InfoMessage, InsertTextAction, MoveDir1D,
    ProgramTypes, UIError,
};

struct Names;

impl ProgramTypes for Names {
    type Context = u32;
    type EditorAction = &'static str;
    type MacroAction = u8;
    type ScrollStyle = u8;
    type PositionList = u8;
    type RepeatType = u8;
    type CommandAction = &'static str;
    type CommandBarAction = u8;
    type PromptAction = u8;
    type TabAction = u8;
    type WindowCommand = u8;
    type TargetName = u8;
    type PageId = u8;
    type RoomId = u64;
    type ContentId = u16;
    type MessageAction = u8;
    type RoomAction = u8;
    type SendAction = u8;
    type VerifyAction = u8;
    type Sas = u64;
    type Visibility = u8;
    type CreateFlags = u8;
    type Session = u64;
    type Dialog = &'static str;
    type NamedKey = u8;
    type IoError = i32;
    type EditFailure = &'static str;
    type UIFailure = &'static str;
    type ChatFailure = &'static str;
}

type App = Application<Names>;

fn send(app: &mut App, event: Event<Names>) -> Effect<Names> {
    assert!(app.awaits(&event));
    app.run(event)
}

fn key(c: char) -> Event<Names> {
    Event::Read(Ok(TerminalEvent::Key(KeyEvent { code: KeyCode::Char(c), modifiers: 0 })))
}

/// A client that waits for the terminal to be watched.
fn waiting() -> App {
    let mut app = App::ready();
    assert!(matches!(send(&mut app, Event::Done), Effect::ClearTerminal));
    assert!(matches!(send(&mut app, Event::Io(Ok(()))), Effect::CountTabs));
    assert!(matches!(send(&mut app, Event::Tabs(1)), Effect::Draw));
    assert!(matches!(send(&mut app, Event::Io(Ok(()))), Effect::Poll(POLL_SECONDS)));
    app
}

/// A client that was given a key and waits for an action of the keybindings.
fn keyed() -> App {
    let mut app = waiting();
    assert!(matches!(send(&mut app, Event::Polled(Ok(true))), Effect::ReadEvent));
    assert!(matches!(send(&mut app, key('j')), Effect::InputKey(_)));
    assert!(!app.holds_store());
    assert!(matches!(send(&mut app, Event::Done), Effect::PopBinding));
    assert!(app.holds_store());
    app
}

fn popped(action: Action<Names>) -> Event<Names> {
    Event::Popped(Some((action, 0)))
}

#[test]
fn nothing_happening_draws_again() {
    assert_eq!(POLL_SECONDS, 1);
    let mut app = waiting();
    assert!(matches!(send(&mut app, Event::Polled(Ok(false))), Effect::Draw));
    assert!(matches!(send(&mut app, Event::Io(Ok(()))), Effect::Poll(1)));
}

#[test]
fn events_that_are_no_keys_draw_again() {
    let events = vec![
        TerminalEvent::Mouse,
        TerminalEvent::FocusGained,
        TerminalEvent::FocusLost,
        TerminalEvent::Resize(80, 24),
    ];
    for event in events {
        let mut app = waiting();
        send(&mut app, Event::Polled(Ok(true)));
        assert!(matches!(send(&mut app, Event::Read(Ok(event))), Effect::Draw));
    }
}

#[test]
fn pasted_text_is_inserted() {
    let mut app = waiting();
    send(&mut app, Event::Polled(Ok(true)));
    let paste = Event::Read(Ok(TerminalEvent::Paste("some text".to_string())));
    match send(&mut app, paste) {
        Effect::Insert(InsertTextAction::Transcribe(text, dir, count)) => {
            assert_eq!(text, "some text");
            assert_eq!(dir, MoveDir1D::Previous);
            assert_eq!(count, Count::Exact(1));
        },
        _ => panic!("not inserted"),
    }
    assert!(matches!(send(&mut app, Event::Pasted(Ok(None))), Effect::Draw));
}

#[test]
fn outcome_of_a_paste_is_told() {
    let paste = || Event::Read(Ok(TerminalEvent::Paste("x".to_string())));
    let mut app = waiting();
    send(&mut app, Event::Polled(Ok(true)));
    send(&mut app, paste());
    let info = InfoMessage::Message("inserted".to_string());
    match send(&mut app, Event::Pasted(Ok(Some(info)))) {
        Effect::PushInfo(text) => assert_eq!(text, "inserted"),
        _ => panic!("not told"),
    }
    assert!(matches!(send(&mut app, Event::Done), Effect::Draw));

    // A paste that has to be confirmed is a failure like any other.
    let mut app = waiting();
    send(&mut app, Event::Polled(Ok(true)));
    send(&mut app, paste());
    assert!(matches!(
        send(&mut app, Event::Pasted(Err(EditError::NeedConfirm("sure?")))),
        Effect::PushEditError(EditError::NeedConfirm("sure?"))
    ));
    assert!(matches!(send(&mut app, Event::Done), Effect::Draw));
}

#[test]
fn key_is_fed_to_the_bindings() {
    let mut app = waiting();
    send(&mut app, Event::Polled(Ok(true)));
    match send(&mut app, key('q')) {
        Effect::InputKey(key) => assert!(matches!(key.code, KeyCode::Char('q'))),
        _ => panic!("not fed"),
    }
}

#[test]
fn bindings_are_asked_until_they_are_empty() {
    let mut app = keyed();
    assert!(matches!(send(&mut app, popped(Action::NoOp)), Effect::PopBinding));
    assert!(matches!(send(&mut app, popped(Action::Suspend)), Effect::Act));
    assert!(matches!(app.task(), Some(ActionTask::Suspend)));
    assert!(matches!(send(&mut app, Event::Acted(Reply::Io(Ok(())))), Effect::PopBinding));
    assert!(app.task().is_none());
    assert!(matches!(send(&mut app, Event::Popped(None)), Effect::CountTabs));
    assert!(!app.holds_store());
}

#[test]
fn information_is_shown_or_paged() {
    let mut app = keyed();
    let info = InfoMessage::Pager("long text".to_string());
    match send(&mut app, popped(Action::ShowInfoMessage(info))) {
        Effect::RunPager(text) => assert_eq!(text, "long text"),
        _ => panic!("no pager"),
    }
    assert!(matches!(send(&mut app, Event::Done), Effect::PopBinding));
    let info = InfoMessage::Message("short".to_string());
    assert!(matches!(send(&mut app, popped(Action::ShowInfoMessage(info))), Effect::PushInfo(_)));
    assert!(matches!(
        App::handle_info(InfoMessage::Message("m".to_string())),
        Effect::PushInfo(_)
    ));
}

#[test]
fn created_actions_run_before_pending_ones() {
    let mut app = keyed();
    send(&mut app, popped(Action::Command("first")));
    let acts = vec![(Action::Command("second"), 1), (Action::Suspend, 2)];
    let effect = send(&mut app, Event::Acted(Reply::Actions(Ok(acts))));
    assert!(matches!(effect, Effect::Act));
    assert!(matches!(app.task(), Some(ActionTask::Command { act: "second", ctx: 1 })));
    let acts = vec![(Action::NoOp, 3), (Action::Scroll(9), 4), (Action::Tab(5), 5)];
    send(&mut app, Event::Acted(Reply::Actions(Ok(acts))));
    assert!(matches!(app.task(), Some(ActionTask::Scroll { style: 9, ctx: 4 })));
    send(&mut app, Event::Acted(Reply::Edit(Ok(None))));
    assert!(matches!(app.task(), Some(ActionTask::Tab { cmd: 5, ctx: 5 })));
    send(&mut app, Event::Acted(Reply::Screen(Ok(None))));
    assert!(matches!(app.task(), Some(ActionTask::Suspend)));
    assert!(matches!(send(&mut app, Event::Acted(Reply::Io(Ok(())))), Effect::PopBinding));
}

#[test]
fn failure_skips_the_bindings_until_the_next_key() {
    let mut app = keyed();
    send(&mut app, popped(Action::Command("c")));
    let acts = vec![(Action::Scroll(1), 0), (Action::Suspend, 0)];
    send(&mut app, Event::Acted(Reply::Actions(Ok(acts))));
    let failed = send(&mut app, Event::Acted(Reply::Edit(Err(EditError::Failure("end")))));
    assert!(matches!(
        failed,
        Effect::PushError(UIError::EditingFailure(EditError::Failure("end")))
    ));
    // What was pending still runs.
    assert!(matches!(send(&mut app, Event::Done), Effect::Act));
    assert!(matches!(app.task(), Some(ActionTask::Suspend)));
    // The keybindings are not asked.
    assert!(matches!(send(&mut app, Event::Acted(Reply::Io(Ok(())))), Effect::CountTabs));
    assert!(matches!(send(&mut app, Event::Tabs(2)), Effect::Draw));
    send(&mut app, Event::Io(Ok(())));
    send(&mut app, Event::Polled(Ok(true)));
    send(&mut app, key('k'));
    assert!(matches!(send(&mut app, Event::Done), Effect::PopBinding));
}

#[test]
fn questions_are_put_and_skip_nothing() {
    for error in [
        UIError::NeedConfirm("really?"),
        UIError::EditingFailure(EditError::NeedConfirm("really?")),
    ] {
        let mut app = keyed();
        send(&mut app, popped(Action::Tab(1)));
        let effect = send(&mut app, Event::Acted(Reply::Screen(Err(error))));
        assert!(matches!(effect, Effect::RunDialog("really?")));
        assert!(matches!(send(&mut app, Event::Done), Effect::PopBinding));
    }
}

#[test]
fn last_tab_closed_ends_the_run() {
    let mut app = keyed();
    send(&mut app, Event::Popped(None));
    assert!(matches!(send(&mut app, Event::Tabs(0)), Effect::DisableRawMode));
    assert!(matches!(send(&mut app, Event::Io(Ok(()))), Effect::LeaveAlternateScreen));
    assert!(matches!(send(&mut app, Event::Io(Ok(()))), Effect::ShowCursor));
    assert!(matches!(send(&mut app, Event::Io(Ok(()))), Effect::Exit(Ok(()))));
    assert!(!app.awaits(&Event::Done));
    assert!(!app.awaits(&Event::Io(Ok(()))));
}

#[test]
fn terminal_failures_end_the_run() {
    let mut app = App::ready();
    send(&mut app, Event::Done);
    assert!(matches!(send(&mut app, Event::Io(Err(1))), Effect::Exit(Err(1))));
    let mut app = waiting();
    assert!(matches!(send(&mut app, Event::Polled(Err(2))), Effect::Exit(Err(2))));
    let mut app = waiting();
    send(&mut app, Event::Polled(Ok(true)));
    assert!(matches!(send(&mut app, Event::Read(Err(3))), Effect::Exit(Err(3))));
    let mut app = waiting();
    send(&mut app, Event::Polled(Ok(false)));
    assert!(matches!(send(&mut app, Event::Io(Err(4))), Effect::Exit(Err(4))));
    let mut app = keyed();
    send(&mut app, Event::Popped(None));
    send(&mut app, Event::Tabs(0));
    assert!(matches!(send(&mut app, Event::Io(Err(5))), Effect::Exit(Err(5))));
}

#[test]
fn prepended_actions_come_out_first() {
    let mut app = App::ready();
    assert!(matches!(app.action_pop(true), NextAction::Nothing));
    assert!(matches!(app.action_pop(false), NextAction::Bindings));
    app.action_prepend(vec![(Action::Tab(3), 3), (Action::Tab(4), 4)]);
    app.action_prepend(vec![(Action::Tab(1), 1), (Action::Tab(2), 2)]);
    app.action_prepend(vec![]);
    for n in 1..5u8 {
        match app.action_pop(n % 2 == 0) {
            NextAction::Pending((Action::Tab(m), ctx)) => {
                assert_eq!(m, n);
                assert_eq!(ctx, u32::from(n));
            },
            _ => panic!("nothing pending"),
        }
    }
    assert!(matches!(app.action_pop(false), NextAction::Bindings));
}

#[test]
fn only_users_are_asked_for_a_verification() {
    let request = |text: &str| {
        popped(Action::Application(IambAction::VerifyRequest(text.to_string())))
    };
    let mut app = keyed();
    assert!(matches!(send(&mut app, request("@bob:example.org")), Effect::Act));
    match app.task() {
        Some(ActionTask::VerifyRequest { user_id }) => assert_eq!(user_id, "@bob:example.org"),
        _ => panic!("not asked"),
    }
    send(&mut app, Event::Acted(Reply::Screen(Ok(None))));
    match send(&mut app, request("bob")) {
        Effect::PushError(UIError::Application(IambError::InvalidUserId(text))) => {
            assert_eq!(text, "bob");
        },
        _ => panic!("not refused"),
    }
    assert!(app.task().is_none());
    assert!(matches!(send(&mut app, Event::Done), Effect::CountTabs));
}

#[test]
fn effects_are_answered_by_one_kind_of_event() {
    let mut app = waiting();
    assert!(app.awaits(&Event::Polled(Ok(false))));
    assert!(!app.awaits(&Event::Done));
    assert!(!app.awaits(&Event::Io(Ok(()))));
    assert!(!app.awaits(&Event::Tabs(1)));
    send(&mut app, Event::Polled(Ok(true)));
    assert!(app.awaits(&key('a')));
    assert!(!app.awaits(&Event::Pasted(Ok(None))));
    assert!(!app.awaits(&Event::Popped(None)));

    let mut app = keyed();
    send(&mut app, popped(Action::Suspend));
    assert!(app.holds_store());
    assert!(app.awaits(&Event::Acted(Reply::Io(Ok(())))));
    assert!(!app.awaits(&Event::Acted(Reply::Done)));
    assert!(!app.awaits(&Event::Io(Ok(()))));
}
