use iamb::action::{
    edited, room_created, verification_found, verification_requested, ActionTask, Reply, Step,
};
use iamb::application::Application;
use iamb::types::{
    Action, Count, EditError, HomeserverAction, IambAction, IambError, IambId, InfoMessage,
    MoveDir1D, OpenTarget, ProgramTypes, UIError, WindowAction,
};

struct Names;

impl ProgramTypes for Names {
    type Context = u32;
    type EditorAction = &'static str;
    type MacroAction = u8;
    type ScrollStyle = u8;
    type PositionList = u8;
    type RepeatType = u8;
    type CommandAction = &'static str;
    type CommandBarAction = u8;
    type PromptAction = u8;
    type TabAction = u8;
    type WindowCommand = u8;
    type TargetName = u8;
    type PageId = u8;
    type RoomId = u64;
    type ContentId = u16;
    type MessageAction = u8;
    type RoomAction = u8;
    type SendAction = u8;
    type VerifyAction = u8;
    type Sas = u64;
    type Visibility = u8;
    type CreateFlags = u8;
    type Session = u64;
    type Dialog = &'static str;
    type NamedKey = u8;
    type IoError = i32;
    type EditFailure = &'static str;
    type UIFailure = &'static str;
    type ChatFailure = &'static str;
}

type App = Application<Names>;

fn begin(action: Action<Names>, ctx: u32) -> Step<Names> {
    App::action_run(action, ctx)
}

fn task(step: Step<Names>) -> ActionTask<Names> {
    match step {
        Step::Pending(task) => task,
        _ => panic!("no task"),
    }
}

fn silent(step: &Step<Names>) -> bool {
    matches!(step, Step::Finished(Ok(None)))
}

#[test]
fn actions_without_effect_finish_at_once() {
    assert!(silent(&begin(Action::NoOp, 1)));
    assert!(silent(&begin(Action::KeywordLookup, 1)));
    assert!(silent(&begin(Action::Unhandled, 1)));
}

#[test]
fn shown_information_is_the_result() {
    let info = InfoMessage::Message("hello".to_string());
    match begin(Action::ShowInfoMessage(info), 1) {
        Step::Finished(Ok(Some(InfoMessage::Message(text)))) => assert_eq!(text, "hello"),
        _ => panic!("not shown"),
    }
}

#[test]
fn delegations_hand_over_action_and_context() {
    assert!(matches!(
        begin(Action::Editor("x"), 7),
        Step::Pending(ActionTask::Edit { act: "x", ctx: 7 })
    ));
    assert!(matches!(
        begin(Action::CommandBar(3), 7),
        Step::Pending(ActionTask::CommandBar { act: 3, ctx: 7 })
    ));
    assert!(matches!(
        begin(Action::Macro(3), 7),
        Step::Pending(ActionTask::Macro { act: 3, ctx: 7 })
    ));
    assert!(matches!(
        begin(Action::Scroll(3), 7),
        Step::Pending(ActionTask::Scroll { style: 3, ctx: 7 })
    ));
    assert!(matches!(
        begin(Action::Tab(3), 7),
        Step::Pending(ActionTask::Tab { cmd: 3, ctx: 7 })
    ));
    assert!(matches!(
        begin(Action::Window(WindowAction::Command(3)), 7),
        Step::Pending(ActionTask::Window { cmd: WindowAction::Command(3), ctx: 7 })
    ));
    assert!(matches!(
        begin(Action::Prompt(3), 7),
        Step::Pending(ActionTask::Prompt { act: 3, ctx: 7 })
    ));
    assert!(matches!(
        begin(Action::Command("quit"), 7),
        Step::Pending(ActionTask::Command { act: "quit", ctx: 7 })
    ));
    assert!(matches!(
        begin(Action::Repeat(2), 7),
        Step::Pending(ActionTask::Repeat { rt: 2, ctx: 7 })
    ));
    assert!(matches!(begin(Action::Suspend, 7), Step::Pending(ActionTask::Suspend)));
}

#[test]
fn results_of_edits_and_screen_requests_are_passed_on() {
    let info = || Some(InfoMessage::Message("ok".to_string()));
    let edit = task(begin(Action::Scroll(1), 0));
    assert!(matches!(edit.resume(Reply::Edit(Ok(info()))), Step::Finished(Ok(Some(_)))));
    let edit = task(begin(Action::Macro(1), 0));
    assert!(matches!(
        edit.resume(Reply::Edit(Err(EditError::Failure("bad")))),
        Step::Finished(Err(UIError::EditingFailure(EditError::Failure("bad"))))
    ));
    let tab = task(begin(Action::Tab(1), 0));
    assert!(matches!(tab.resume(Reply::Screen(Ok(info()))), Step::Finished(Ok(Some(_)))));
    let tab = task(begin(Action::Tab(1), 0));
    assert!(matches!(
        tab.resume(Reply::Screen(Err(UIError::Failure("no tab")))),
        Step::Finished(Err(UIError::Failure("no tab")))
    ));
}

#[test]
fn edit_in_the_wrong_buffer_switches_and_runs_again() {
    let first = task(begin(Action::Editor("move"), 5));
    let window = Some(IambId::Room(42));
    let reply = Reply::Edited { result: Err(EditError::WrongBuffer(9)), switchable: true, window };
    assert!(first.awaits(&reply));
    let switch = task(first.resume(reply));
    match &switch {
        ActionTask::SwitchThenEdit { window, act, ctx } => {
            assert!(matches!(
                window,
                WindowAction::Switch(OpenTarget::Application(IambId::Room(42)))
            ));
            assert_eq!((*act, *ctx), ("move", 5));
        },
        _ => panic!("no switch"),
    }
    let told = Some(InfoMessage::Message("switched".to_string()));
    let again = task(switch.resume(Reply::Screen(Ok(told))));
    assert!(matches!(&again, ActionTask::EditAgain { act: "move", ctx: 5 }));
    // A second wrong buffer is a failure.
    assert!(matches!(
        again.resume(Reply::Edit(Err(EditError::WrongBuffer(9)))),
        Step::Finished(Err(UIError::EditingFailure(EditError::WrongBuffer(9))))
    ));
}

#[test]
fn edit_in_the_wrong_buffer_fails_without_a_switch() {
    let wrong = || Err(EditError::WrongBuffer(9));
    let stuck = |step: Step<Names>| {
        matches!(
            step,
            Step::Finished(Err(UIError::EditingFailure(EditError::WrongBuffer(9))))
        )
    };
    // The action may not switch windows.
    assert!(stuck(edited::<Names>("x", 1, wrong(), false, Some(IambId::Welcome))));
    // The buffer has no window.
    assert!(stuck(edited::<Names>("x", 1, wrong(), true, None)));
    // Only this failure leads to a switch.
    assert!(matches!(
        edited::<Names>("x", 1, Err(EditError::Failure("bad")), true, Some(IambId::Welcome)),
        Step::Finished(Err(UIError::EditingFailure(EditError::Failure("bad"))))
    ));
    assert!(silent(&edited::<Names>("x", 1, Ok(None), true, Some(IambId::Welcome))));
}

#[test]
fn failed_switch_ends_the_action() {
    let reply = Reply::Edited {
        result: Err(EditError::WrongBuffer(9)),
        switchable: true,
        window: Some(IambId::Page(1)),
    };
    let switch = task(task(begin(Action::Editor("x"), 0)).resume(reply));
    assert!(matches!(
        switch.resume(Reply::Screen(Err(UIError::Failure("gone")))),
        Step::Finished(Err(UIError::Failure("gone")))
    ));
}

#[test]
fn jump_resolves_its_count_and_drops_what_is_left() {
    let resolve = task(begin(Action::Jump(2, MoveDir1D::Next, Count::MinusOne), 3));
    assert!(matches!(
        &resolve,
        ActionTask::ResolveCount { list: 2, dir: MoveDir1D::Next, count: Count::MinusOne, ctx: 3 }
    ));
    let jump = task(resolve.resume(Reply::Count(4)));
    assert!(matches!(
        &jump,
        ActionTask::Jump { list: 2, dir: MoveDir1D::Next, count: 4, ctx: 3 }
    ));
    assert!(silent(&jump.resume(Reply::Jumped(Ok(2)))));
    let jump = task(task(begin(Action::Jump(2, MoveDir1D::Previous, Count::Contextual), 3))
        .resume(Reply::Count(1)));
    assert!(matches!(
        jump.resume(Reply::Jumped(Err(UIError::Failure("no list")))),
        Step::Finished(Err(UIError::Failure("no list")))
    ));
}

#[test]
fn full_redraw_clears_the_message_first() {
    let clear = task(begin(Action::RedrawScreen, 0));
    assert!(matches!(&clear, ActionTask::ClearMessage));
    let draw = task(clear.resume(Reply::Done));
    assert!(matches!(&draw, ActionTask::RedrawAll));
    assert!(silent(&draw.resume(Reply::Io(Ok(())))));
    assert!(matches!(
        ActionTask::<Names>::RedrawAll.resume(Reply::Io(Err(5))),
        Step::Finished(Err(UIError::IOError(5)))
    ));
    assert!(matches!(
        ActionTask::<Names>::Suspend.resume(Reply::Io(Err(6))),
        Step::Finished(Err(UIError::IOError(6)))
    ));
}

#[test]
fn prompts_and_commands_give_actions() {
    let acts = vec![(Action::NoOp, 1), (Action::Suspend, 2)];
    match task(begin(Action::Prompt(1), 0)).resume(Reply::Prompted(Ok(acts))) {
        Step::Spawned(acts) => {
            assert_eq!(acts.len(), 2);
            assert!(matches!(acts[0], (Action::NoOp, 1)));
            assert!(matches!(acts[1], (Action::Suspend, 2)));
        },
        _ => panic!("no actions"),
    }
    assert!(matches!(
        task(begin(Action::Prompt(1), 0)).resume(Reply::Prompted(Err(EditError::Failure("p")))),
        Step::Finished(Err(UIError::EditingFailure(EditError::Failure("p"))))
    ));
    let acts = vec![(Action::Suspend, 2)];
    assert!(matches!(
        task(begin(Action::Command("c"), 0)).resume(Reply::Actions(Ok(acts))),
        Step::Spawned(_)
    ));
    assert!(matches!(
        task(begin(Action::Command("c"), 0)).resume(Reply::Actions(Err(UIError::Failure("c")))),
        Step::Finished(Err(UIError::Failure("c")))
    ));
    assert!(silent(&task(begin(Action::Repeat(1), 0)).resume(Reply::Done)));
}

#[test]
fn chat_actions_go_to_the_current_window() {
    let app = |act| begin(Action::Application(act), 8);
    assert!(matches!(
        app(IambAction::Message(1)),
        Step::Pending(ActionTask::Message { act: 1, ctx: 8 })
    ));
    assert!(matches!(
        app(IambAction::Room(1)),
        Step::Pending(ActionTask::Room { act: 1, ctx: 8 })
    ));
    assert!(matches!(
        app(IambAction::Send(1)),
        Step::Pending(ActionTask::Send { act: 1, ctx: 8 })
    ));
    let toggle = task(app(IambAction::ToggleScrollbackFocus));
    assert!(silent(&toggle.resume(Reply::Toggled(Ok(())))));
    let toggle = task(app(IambAction::ToggleScrollbackFocus));
    assert!(matches!(
        toggle.resume(Reply::Toggled(Err(UIError::Failure("no window")))),
        Step::Finished(Err(UIError::Failure("no window")))
    ));
}

#[test]
fn created_room_is_shown() {
    let alias = Some("lobby".to_string());
    let create = IambAction::Homeserver(HomeserverAction::CreateRoom(alias, 1, 2));
    let create = task(begin(Action::Application(create), 6));
    match &create {
        ActionTask::CreateRoom { alias, vis: 1, flags: 2, ctx: 6 } => {
            assert_eq!(alias.as_deref(), Some("lobby"));
        },
        _ => panic!("no room"),
    }
    match create.resume(Reply::RoomCreated(Ok(77))) {
        Step::Spawned(acts) => {
            assert_eq!(acts.len(), 1);
            assert!(matches!(
                acts[0],
                (
                    Action::Window(WindowAction::Switch(OpenTarget::Application(IambId::Room(77)))),
                    6
                )
            ));
        },
        _ => panic!("not shown"),
    }
    assert_eq!(room_created::<Names>(3, 4).len(), 1);
    let create = IambAction::Homeserver(HomeserverAction::CreateRoom(None, 1, 2));
    let create = task(begin(Action::Application(create), 6));
    assert!(matches!(
        create.resume(Reply::RoomCreated(Err(UIError::Failure("refused")))),
        Step::Finished(Err(UIError::Failure("refused")))
    ));
}

#[test]
fn verification_has_to_exist() {
    let verify = IambAction::Verify(3, "@bob:example.org/PHONE".to_string());
    let find = task(begin(Action::Application(verify), 0));
    let verify = task(find.resume(Reply::Verification(Some(99))));
    assert!(matches!(&verify, ActionTask::Verify { act: 3, sas: 99 }));
    match verification_found::<Names>(3, "@bob:example.org/PHONE".to_string(), None) {
        Step::Finished(Err(UIError::Application(IambError::InvalidVerificationId(id)))) => {
            assert_eq!(id, "@bob:example.org/PHONE");
        },
        _ => panic!("found"),
    }
}

#[test]
fn verification_requests_need_a_user_identifier() {
    let request = |id: &str| begin(Action::Application(IambAction::VerifyRequest(id.to_string())), 0);
    for id in ["@alice:example.org", "@Alice:example.org:8448", "@a:[::1]"] {
        match request(id) {
            Step::Pending(ActionTask::VerifyRequest { user_id }) => assert_eq!(user_id, id),
            _ => panic!("refused"),
        }
    }
    for id in ["", "alice", "@alice", "alice:example.org", "#room:example.org", "@a:exam ple.org"] {
        match request(id) {
            Step::Finished(Err(UIError::Application(IambError::InvalidUserId(user_id)))) => {
                assert_eq!(user_id, id);
            },
            _ => panic!("accepted"),
        }
    }
}

#[test]
fn verification_request_follows_the_check() {
    assert!(matches!(
        verification_requested::<Names>("x".to_string(), true),
        Step::Pending(ActionTask::VerifyRequest { .. })
    ));
    assert!(matches!(
        verification_requested::<Names>("x".to_string(), false),
        Step::Finished(Err(UIError::Application(IambError::InvalidUserId(_))))
    ));
}

#[test]
fn tasks_know_their_replies() {
    assert!(ActionTask::<Names>::Suspend.awaits(&Reply::Io(Ok(()))));
    assert!(!ActionTask::<Names>::Suspend.awaits(&Reply::Done));
    assert!(ActionTask::<Names>::ClearMessage.awaits(&Reply::Done));
    assert!(!ActionTask::<Names>::ToggleFocus.awaits(&Reply::Screen(Ok(None))));
}
