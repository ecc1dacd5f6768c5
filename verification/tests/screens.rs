use iamb::action::Step;
use iamb::application::{Application, Effect, Event};
use iamb::input::{KeyCode, KeyEvent};
use iamb::login::{login, Login, LoginEvent, LoginStyle, LoginTask, Refusal};
use iamb::redraw::{dialog_space, frame_plan, Area, Color, RedrawTask};
use iamb::setup::{panic_cleanup, Cleanup, Opened, Setup, PANIC_EXIT_CODE};
use iamb::startup::{Outcome, Stage};
use iamb::text::{log_prefix, login_notice, login_refusal, window_title, worker_name};
use iamb::types::{Action, IambError, IambId, InfoMessage, ProgramTypes, UIError};
use modalkit::crossterm::event as crossterm;
use modalkit::input::key::TerminalKey as ModalKey;

struct Names;

impl ProgramTypes for Names {
    type Context = u32;
    type EditorAction = &'static str;
    type MacroAction = u8;
    type ScrollStyle = u8;
    type PositionList = u8;
    type RepeatType = u8;
    type CommandAction = &'static str;
    type CommandBarAction = u8;
    type PromptAction = u8;
    type TabAction = u8;
    type WindowCommand = u8;
    type TargetName = u8;
    type PageId = u8;
    type RoomId = u64;
    type ContentId = u16;
    type MessageAction = u8;
    type RoomAction = u8;
    type SendAction = u8;
    type VerifyAction = u8;
    type Sas = u64;
    type Visibility = u8;
    type CreateFlags = u8;
    type Session = u64;
    type Dialog = &'static str;
    type NamedKey = u8;
    type IoError = i32;
    type EditFailure = &'static str;
    type UIFailure = &'static str;
    type ChatFailure = &'static str;
}

type App = Application<Names>;

#[test]
fn texts() {
    assert_eq!(window_title("@alice:example.org"), "iamb (@alice:example.org)");
    assert_eq!(log_prefix("work"), "iamb-log-work");
    assert_eq!(login_notice("@alice:example.org"), "Logging in for @alice:example.org...");
    assert_eq!(login_refusal("wrong password"), "Failed to login: wrong password");
}

#[test]
fn worker_names() {
    assert_eq!(worker_name(0), "iamb-worker-0");
    assert_eq!(worker_name(9), "iamb-worker-9");
    assert_eq!(worker_name(10), "iamb-worker-10");
    assert_eq!(worker_name(20731), "iamb-worker-20731");
    assert_eq!(worker_name(usize::MAX), format!("iamb-worker-{}", usize::MAX));
}

#[test]
fn full_drawing_clears_the_terminal() {
    assert_eq!(App::redraw(false), RedrawTask::Draw);
    assert_eq!(App::redraw(true), RedrawTask::Clear);
    assert_eq!(RedrawTask::Clear.resume::<i32>(Ok(())), Ok(Some(RedrawTask::Draw)));
    assert_eq!(RedrawTask::Draw.resume::<i32>(Ok(())), Ok(None));
    assert_eq!(RedrawTask::Clear.resume(Err(4)), Err(4));
    assert_eq!(RedrawTask::Draw.resume(Err(5)), Err(5));
}

#[test]
fn dialogs_hide_the_cursor() {
    assert_eq!(dialog_space(80, 24), (24, 80));
    let plan = frame_plan(3);
    assert!(plan.borders && plan.hide_cursor);
    assert_eq!(plan.cursor(Some((4, 5)), Some('^')), None);
}

#[test]
fn cursor_is_marked_with_the_indicator() {
    let plan = frame_plan(0);
    assert!(plan.borders && !plan.hide_cursor);
    assert_eq!(plan.cursor(None, Some('^')), None);
    let cursor = plan.cursor(Some((4, 5)), None).unwrap();
    assert_eq!((cursor.x, cursor.y, cursor.indicator), (4, 5, None));
    let cursor = plan.cursor(Some((u16::MAX, 7)), Some('^')).unwrap();
    let indicator = cursor.indicator.unwrap();
    assert_eq!(indicator.text, '^');
    assert_eq!(indicator.color, Color::Green);
    assert_eq!(indicator.area, Area { x: u16::MAX, y: 7, width: 1, height: 1 });
}

#[test]
fn shift_is_part_of_a_character() {
    for bits in 0..8u8 {
        let press = KeyEvent::<Names> { code: KeyCode::Char('?'), modifiers: bits };
        assert_eq!(press.into_key().modifiers, bits & !1);
        let press = KeyEvent::<Names> { code: KeyCode::Named(3), modifiers: bits };
        assert_eq!(press.into_key().modifiers, bits);
    }
}

#[test]
fn keys_are_those_of_the_keybindings() {
    assert_eq!(crossterm::KeyModifiers::SHIFT.bits(), 1);
    let named = [crossterm::KeyCode::Enter, crossterm::KeyCode::F(5), crossterm::KeyCode::Left];
    for bits in 0..8u8 {
        let held = crossterm::KeyModifiers::from_bits_truncate(bits);
        let press = KeyEvent::<Names> { code: KeyCode::Char('x'), modifiers: bits };
        let kept = crossterm::KeyModifiers::from_bits_truncate(press.into_key().modifiers);
        let code = crossterm::KeyCode::Char('x');
        // Parting with the shift key first makes no difference.
        assert_eq!(
            ModalKey::from(crossterm::KeyEvent::new(code, held)),
            ModalKey::from(crossterm::KeyEvent::new(code, kept))
        );
        // A character never differs by the shift key, any other key does.
        let toggled = crossterm::KeyModifiers::from_bits_truncate(bits ^ 1);
        assert_eq!(
            ModalKey::from(crossterm::KeyEvent::new(code, held)),
            ModalKey::from(crossterm::KeyEvent::new(code, toggled))
        );
        for code in named {
            assert_ne!(
                ModalKey::from(crossterm::KeyEvent::new(code, held)),
                ModalKey::from(crossterm::KeyEvent::new(code, toggled))
            );
        }
    }
}

fn changed(setup: Setup<Names>) -> Setup<Names> {
    match setup.changed(Ok(())) {
        Ok(next) => next,
        Err(_) => panic!("failed"),
    }
}

#[test]
fn opening_sets_the_terminal_up() {
    let setup = App::new("@alice:example.org", None);
    assert!(matches!(&setup, Setup::EnableRawMode { .. }));
    let setup = changed(setup);
    assert!(matches!(&setup, Setup::EnterAlternateScreen { .. }));
    let setup = changed(setup);
    assert!(matches!(&setup, Setup::EnableBracketedPaste { .. }));
    let setup = changed(setup);
    match &setup {
        Setup::SetTitle { title, .. } => assert_eq!(title, "iamb (@alice:example.org)"),
        _ => panic!("no title"),
    }
    let setup = changed(setup);
    assert!(matches!(&setup, Setup::OpenTerminal { .. }));
    let setup = changed(setup);
    assert!(matches!(&setup, Setup::OpenWindow(IambId::Welcome)));
    match setup.opened(Some("welcome")) {
        Opened::Ready(mut app, window) => {
            assert_eq!(window, "welcome");
            assert!(matches!(app.run(Event::Done), Effect::ClearTerminal));
        },
        _ => panic!("not ready"),
    }
}

#[test]
fn opening_stops_at_the_first_failure() {
    let mut setup = App::new("@alice:example.org", None);
    for n in 0..5 {
        let mut again = App::new("@alice:example.org", None);
        for _ in 0..n {
            again = changed(again);
        }
        assert!(matches!(again.changed(Err(7)), Err(UIError::IOError(7))));
        setup = changed(setup);
    }
    assert!(matches!(setup, Setup::OpenWindow(IambId::Welcome)));
}

#[test]
fn default_room_comes_before_the_welcome_window() {
    let open = || {
        let mut setup = App::new("@alice:example.org", Some("#lobby:example.org".to_string()));
        for _ in 0..5 {
            setup = changed(setup);
        }
        setup
    };
    match open() {
        Setup::FindRoom(room) => assert_eq!(room, "#lobby:example.org"),
        _ => panic!("no room"),
    }
    assert!(matches!(open().opened(Some(1)), Opened::Ready(_, 1)));
    match open().opened::<i32>(None) {
        Opened::Pending(setup) => {
            assert!(matches!(&setup, Setup::OpenWindow(IambId::Welcome)));
            assert!(matches!(setup.opened(Some(2)), Opened::Ready(_, 2)));
        },
        _ => panic!("ready"),
    }
}

#[test]
fn panic_gives_the_terminal_back() {
    assert_eq!(
        panic_cleanup(),
        vec![
            Cleanup::DisableRawMode,
            Cleanup::DisableBracketedPaste,
            Cleanup::LeaveAlternateScreen,
            Cleanup::ShowCursor,
        ]
    );
    assert_eq!(PANIC_EXIT_CODE, 1);
}

fn answer(state: Login, event: LoginEvent<Names>) -> (Login, LoginTask<Names>) {
    assert!(state.awaits(&event));
    state.resume(event)
}

fn refusal(reason: &str) -> Refusal<Names> {
    Refusal { error: UIError::Failure("refused"), reason: reason.to_string() }
}

#[test]
fn stored_login_is_restored() {
    let (state, task) = login::<Names>("@alice:example.org");
    match task {
        LoginTask::Say(text) => assert_eq!(text, "Logging in for @alice:example.org..."),
        _ => panic!("silent"),
    }
    let (state, task) = answer(state, LoginEvent::Done);
    assert!(matches!(task, LoginTask::FindSession));
    let (state, task) = answer(state, LoginEvent::Found(true));
    assert!(matches!(task, LoginTask::OpenSession));
    let (state, task) = answer(state, LoginEvent::Opened(Ok(())));
    assert!(matches!(task, LoginTask::ParseSession));
    let (state, task) = answer(state, LoginEvent::Parsed(Ok(12)));
    assert!(matches!(task, LoginTask::Submit(LoginStyle::SessionRestore(12))));
    let info = InfoMessage::Message("not shown".to_string());
    assert!(matches!(
        answer(state, LoginEvent::LoggedIn(Ok(Some(info)))).1,
        LoginTask::Finish(Ok(()))
    ));
    assert!(matches!(
        answer(state, LoginEvent::LoggedIn(Err(refusal("expired")))).1,
        LoginTask::Finish(Err(UIError::Failure("refused")))
    ));
}

#[test]
fn stored_login_that_cannot_be_read_fails() {
    assert!(matches!(
        answer(Login::Opening, LoginEvent::Opened(Err(13))).1,
        LoginTask::Finish(Err(UIError::IOError(13)))
    ));
    assert!(matches!(
        answer(Login::Parsing, LoginEvent::Parsed(Err("no json"))).1,
        LoginTask::Finish(Err(UIError::Application(IambError::Failure("no json"))))
    ));
}

#[test]
fn passwords_are_asked_for_until_one_is_accepted() {
    let (state, _) = login::<Names>("@alice:example.org");
    let (state, _) = answer(state, LoginEvent::Done);
    let (mut state, mut task) = answer(state, LoginEvent::Found(false));
    for guess in ["one", "two"] {
        assert!(matches!(task, LoginTask::AskPassword("Password: ")));
        let (trying, submit) = answer(state, LoginEvent::Password(Ok(guess.to_string())));
        match submit {
            LoginTask::Submit(LoginStyle::Password(password)) => assert_eq!(password, guess),
            _ => panic!("not tried"),
        }
        let (refusing, say) = answer(trying, LoginEvent::LoggedIn(Err(refusal("bad password"))));
        match say {
            LoginTask::Say(text) => assert_eq!(text, "Failed to login: bad password"),
            _ => panic!("silent"),
        }
        (state, task) = answer(refusing, LoginEvent::Done);
    }
    assert!(matches!(task, LoginTask::AskPassword(_)));
    let (trying, _) = answer(state, LoginEvent::Password(Ok("three".to_string())));
    assert!(matches!(
        answer(trying, LoginEvent::LoggedIn(Ok(None))).1,
        LoginTask::Finish(Ok(()))
    ));
    let info = InfoMessage::Message("Successfully logged in!".to_string());
    let (welcoming, say) = answer(trying, LoginEvent::LoggedIn(Ok(Some(info))));
    match say {
        LoginTask::Say(text) => assert_eq!(text, "Successfully logged in!"),
        _ => panic!("silent"),
    }
    assert!(matches!(answer(welcoming, LoginEvent::Done).1, LoginTask::Finish(Ok(()))));
    assert!(matches!(
        answer(Login::Asking, LoginEvent::Password(Err(4))).1,
        LoginTask::Finish(Err(UIError::IOError(4)))
    ));
    assert!(!Login::Over.awaits::<Names>(&LoginEvent::Done));
}

#[test]
fn stages_follow_each_other() {
    let mut stage = Stage::first();
    let mut seen = vec![stage];
    loop {
        match stage.resume::<()>(Ok(())) {
            Outcome::Next(next) => {
                stage = next;
                seen.push(stage);
            },
            Outcome::Exit(code) => {
                assert_eq!(code, 0);
                break;
            },
            _ => panic!("failed"),
        }
    }
    assert_eq!(
        seen,
        vec![
            Stage::LoadSettings,
            Stage::MakeMatrixDir,
            Stage::MakeLogDir,
            Stage::StartLogging,
            Stage::StartRuntime,
            Stage::SpawnWorker,
            Stage::InitStore,
            Stage::Login,
            Stage::InstallPanicHook,
            Stage::OpenApplication,
            Stage::RunApplication,
            Stage::FlushLogs,
        ]
    );
}

#[test]
fn failed_stages_end_the_program() {
    assert!(matches!(Stage::LoadSettings.resume(Err("e")), Outcome::PrintExit("e", 2)));
    assert!(matches!(Stage::Login.resume(Err("e")), Outcome::PrintExit("e", 2)));
    assert!(matches!(Stage::MakeMatrixDir.resume(Err("e")), Outcome::Fail("e")));
    assert!(matches!(Stage::MakeLogDir.resume(Err("e")), Outcome::Fail("e")));
    assert!(matches!(Stage::OpenApplication.resume(Err("e")), Outcome::Fail("e")));
    assert!(matches!(Stage::RunApplication.resume(Err("e")), Outcome::Fail("e")));
}

#[test]
fn paged_information_has_a_text() {
    assert_eq!(InfoMessage::Pager("long".to_string()).into_text(), "long");
    assert_eq!(InfoMessage::Message("short".to_string()).into_text(), "short");
    assert!(matches!(App::action_run(Action::NoOp, 0), Step::Finished(Ok(None))));
}

#[test]
fn login_tasks_are_answered_by_one_kind_of_event() {
    let (state, _) = login::<Names>("@alice:example.org");
    assert!(state.awaits(&LoginEvent::<Names>::Done));
    assert!(!state.awaits(&LoginEvent::<Names>::Found(true)));
    let (state, _) = answer(state, LoginEvent::Done);
    assert!(state.awaits(&LoginEvent::<Names>::Found(false)));
    assert!(!state.awaits(&LoginEvent::<Names>::Done));
    let (state, task) = answer(state, LoginEvent::Found(false));
    assert!(matches!(task, LoginTask::AskPassword("Password: ")));
    assert!(!state.awaits(&LoginEvent::<Names>::LoggedIn(Ok(None))));
    let (state, task) = answer(state, LoginEvent::Password(Err(5)));
    assert!(matches!(task, LoginTask::Finish(Err(UIError::IOError(5)))));
    assert!(!state.awaits(&LoginEvent::<Names>::Done));
}
