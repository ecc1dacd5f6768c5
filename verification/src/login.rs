//! How the user is logged in.

use crate::text::{login_notice, login_refusal, PASSWORD_PROMPT};
use crate::types::{EditInfo, IambError, InfoMessage, ProgramTypes, UIError};
use vstd::prelude::*;

verus! {

/// What a login is made with.
pub enum LoginStyle<P: ProgramTypes> {
    /// A stored login.
    SessionRestore(P::Session),
    /// The password of the user.
    Password(String),
}

/// Something that has to be done to log in.
pub enum LoginTask<P: ProgramTypes> {
    /// Print a line. Answered by `LoginEvent::Done`.
    Say(String),
    /// See whether there is a file with a stored login. Answered by `LoginEvent::Found`.
    FindSession,
    /// Open that file. Answered by `LoginEvent::Opened`.
    OpenSession,
    /// Take the stored login out of the file. Answered by `LoginEvent::Parsed`.
    ParseSession,
    /// Ask for a password, with this prompt. Answered by `LoginEvent::Password`.
    AskPassword(&'static str),
    /// Have the worker log in. Answered by `LoginEvent::LoggedIn`.
    Submit(LoginStyle<P>),
    /// The login is over.
    Finish(Result<(), UIError<P>>),
}

/// The model of a `LoginTask`: what is printed is a sequence of characters.
pub enum LoginTaskView<P: ProgramTypes> {
    Say(Seq<char>),
    FindSession,
    OpenSession,
    ParseSession,
    AskPassword(Seq<char>),
    Submit(LoginStyle<P>),
    Finish(Result<(), UIError<P>>),
}

impl<P: ProgramTypes> View for LoginTask<P> {
    type V = LoginTaskView<P>;

    open spec fn view(&self) -> LoginTaskView<P> {
        match *self {
            LoginTask::Say(text) => LoginTaskView::Say(text@),
            LoginTask::FindSession => LoginTaskView::FindSession,
            LoginTask::OpenSession => LoginTaskView::OpenSession,
            LoginTask::ParseSession => LoginTaskView::ParseSession,
            LoginTask::AskPassword(prompt) => LoginTaskView::AskPassword(prompt@),
            LoginTask::Submit(style) => LoginTaskView::Submit(style),
            LoginTask::Finish(result) => LoginTaskView::Finish(result),
        }
    }
}

/// A login that was refused: why, and how that is put into words.
pub struct Refusal<P: ProgramTypes> {
    pub error: UIError<P>,
    pub reason: String,
}

/// What came of a task.
pub enum LoginEvent<P: ProgramTypes> {
    /// The task is done; it cannot fail.
    Done,
    /// Whether there is a file with a stored login.
    Found(bool),
    /// Whether the file could be opened.
    Opened(Result<(), P::IoError>),
    /// The stored login.
    Parsed(Result<P::Session, P::ChatFailure>),
    /// The password.
    Password(Result<String, P::IoError>),
    /// What the worker answered.
    LoggedIn(Result<EditInfo, Refusal<P>>),
}

/// What the login waits for.
#[derive(Clone, Copy, Debug, PartialEq, Eq, Structural)]
pub enum Login {
    /// The user is being told of the login.
    Announcing,
    /// A stored login is being looked for.
    Finding,
    /// The stored login is being opened.
    Opening,
    /// The stored login is being read.
    Parsing,
    /// The stored login is being restored.
    Restoring,
    /// A password is being asked for.
    Asking,
    /// The password is being tried.
    Trying,
    /// The user is being told that the login was refused.
    Refusing,
    /// The user is being told what the homeserver has to say.
    Welcoming,
    /// The login is over.
    Over,
}

impl Login {
    /// Whether an event is of the kind that is waited for.
    pub open spec fn fits<P: ProgramTypes>(self, event: LoginEvent<P>) -> bool {
        match self {
            Login::Announcing | Login::Refusing | Login::Welcoming => event is Done,
            Login::Finding => event is Found,
            Login::Opening => event is Opened,
            Login::Parsing => event is Parsed,
            Login::Restoring | Login::Trying => event is LoggedIn,
            Login::Asking => event is Password,
            Login::Over => false,
        }
    }

    /// The end of the login.
    pub open spec fn over<P: ProgramTypes>(result: Result<(), UIError<P>>) -> (
        Login,
        LoginTaskView<P>,
    ) {
        (Login::Over, LoginTaskView::Finish(result))
    }

    /// The question for a password.
    pub open spec fn asking<P: ProgramTypes>() -> (Login, LoginTaskView<P>) {
        (Login::Asking, LoginTaskView::AskPassword("Password: "@))
    }

    /// How the login goes on: a stored login is restored, and without one passwords are asked
    /// for until one is accepted.
    pub open spec fn next<P: ProgramTypes>(self, event: LoginEvent<P>) -> (
        Login,
        LoginTaskView<P>,
    ) {
        match (self, event) {
            (_, LoginEvent::Opened(Err(error))) | (_, LoginEvent::Password(Err(error))) => {
                Login::over(Err(UIError::IOError(error)))
            },
            (_, LoginEvent::Parsed(Err(error))) => Login::over(
                Err(UIError::Application(IambError::Failure(error))),
            ),
            (Login::Announcing, _) => (Login::Finding, LoginTaskView::FindSession),
            (Login::Finding, LoginEvent::Found(true)) => {
                (Login::Opening, LoginTaskView::OpenSession)
            },
            (Login::Opening, _) => (Login::Parsing, LoginTaskView::ParseSession),
            (Login::Parsing, LoginEvent::Parsed(Ok(session))) => {
                (Login::Restoring, LoginTaskView::Submit(LoginStyle::SessionRestore(session)))
            },
            (Login::Restoring, LoginEvent::LoggedIn(Ok(_))) => Login::over(Ok(())),
            (Login::Restoring, LoginEvent::LoggedIn(Err(refusal))) => Login::over(
                Err(refusal.error),
            ),
            (Login::Asking, LoginEvent::Password(Ok(password))) => {
                (Login::Trying, LoginTaskView::Submit(LoginStyle::Password(password)))
            },
            (Login::Trying, LoginEvent::LoggedIn(Ok(Some(info)))) => {
                (Login::Welcoming, LoginTaskView::Say(info.text()))
            },
            (Login::Trying, LoginEvent::LoggedIn(Ok(None))) => Login::over(Ok(())),
            (Login::Trying, LoginEvent::LoggedIn(Err(refusal))) => {
                (Login::Refusing, LoginTaskView::Say("Failed to login: "@ + refusal.reason@))
            },
            (Login::Welcoming, _) => Login::over(Ok(())),
            _ => Login::asking(),
        }
    }

    /// Whether an event is of the kind that is waited for.
    pub fn awaits<P: ProgramTypes>(self, event: &LoginEvent<P>) -> (fits: bool)
        ensures
            fits == self.fits(*event),
    {
        match self {
            Login::Announcing | Login::Refusing | Login::Welcoming => {
                matches!(event, LoginEvent::Done)
            },
            Login::Finding => matches!(event, LoginEvent::Found(_)),
            Login::Opening => matches!(event, LoginEvent::Opened(_)),
            Login::Parsing => matches!(event, LoginEvent::Parsed(_)),
            Login::Restoring | Login::Trying => matches!(event, LoginEvent::LoggedIn(_)),
            Login::Asking => matches!(event, LoginEvent::Password(_)),
            Login::Over => false,
        }
    }

    /// Goes on with the login.
    pub fn resume<P: ProgramTypes>(self, event: LoginEvent<P>) -> (next: (Login, LoginTask<P>))
        requires
            self.fits(event),
        ensures
            (next.0, next.1@) == self.next(event),
    {
        match event {
            LoginEvent::Done => match self {
                Login::Announcing => (Login::Finding, LoginTask::FindSession),
                Login::Welcoming => (Login::Over, LoginTask::Finish(Ok(()))),
                _ => (Login::Asking, LoginTask::AskPassword(PASSWORD_PROMPT)),
            },
            LoginEvent::Found(true) => (Login::Opening, LoginTask::OpenSession),
            LoginEvent::Found(false) => (Login::Asking, LoginTask::AskPassword(PASSWORD_PROMPT)),
            LoginEvent::Opened(Ok(())) => (Login::Parsing, LoginTask::ParseSession),
            LoginEvent::Opened(Err(error)) => {
                (Login::Over, LoginTask::Finish(Err(UIError::IOError(error))))
            },
            LoginEvent::Parsed(Ok(session)) => {
                (Login::Restoring, LoginTask::Submit(LoginStyle::SessionRestore(session)))
            },
            LoginEvent::Parsed(Err(error)) => {
                let error = UIError::Application(IambError::Failure(error));
                (Login::Over, LoginTask::Finish(Err(error)))
            },
            LoginEvent::Password(Ok(password)) => {
                (Login::Trying, LoginTask::Submit(LoginStyle::Password(password)))
            },
            LoginEvent::Password(Err(error)) => {
                (Login::Over, LoginTask::Finish(Err(UIError::IOError(error))))
            },
            LoginEvent::LoggedIn(result) => match (self, result) {
                (Login::Restoring, Ok(_)) => (Login::Over, LoginTask::Finish(Ok(()))),
                (Login::Restoring, Err(refusal)) => {
                    (Login::Over, LoginTask::Finish(Err(refusal.error)))
                },
                (_, Ok(Some(info))) => (Login::Welcoming, LoginTask::Say(info.into_text())),
                (_, Ok(None)) => (Login::Over, LoginTask::Finish(Ok(()))),
                (_, Err(refusal)) => {
                    let text = login_refusal(refusal.reason.as_str());
                    (Login::Refusing, LoginTask::Say(text))
                },
            },
        }
    }
}

/// Begins to log a user in.
pub fn login<P: ProgramTypes>(user_id: &str) -> (begun: (Login, LoginTask<P>))
    ensures
        begun.0 == Login::Announcing,
        begun.1@ == LoginTaskView::<P>::Say("Logging in for "@ + user_id@ + "..."@),
{
    (Login::Announcing, LoginTask::Say(login_notice(user_id)))
}

impl<P: ProgramTypes> LoginTaskView<P> {
    /// Whether an event is of the kind that a task is answered by.
    pub open spec fn answered_by(self, event: LoginEvent<P>) -> bool {
        match self {
            LoginTaskView::Say(_) => event is Done,
            LoginTaskView::FindSession => event is Found,
            LoginTaskView::OpenSession => event is Opened,
            LoginTaskView::ParseSession => event is Parsed,
            LoginTaskView::AskPassword(_) => event is Password,
            LoginTaskView::Submit(_) => event is LoggedIn,
            LoginTaskView::Finish(_) => false,
        }
    }
}

/// A login looks for a stored login once it was announced, and without one asks for a password.
pub proof fn law_login_looks_for_a_session<P: ProgramTypes>(event: LoginEvent<P>)
    ensures
        Login::Announcing.fits(event) <==> event is Done,
        Login::Announcing.next(LoginEvent::<P>::Done) == (
            Login::Finding,
            LoginTaskView::<P>::FindSession,
        ),
        Login::Finding.next(LoginEvent::<P>::Found(true)) == (
            Login::Opening,
            LoginTaskView::<P>::OpenSession,
        ),
        Login::Finding.next(LoginEvent::<P>::Found(false)) == (
            Login::Asking,
            LoginTaskView::<P>::AskPassword("Password: "@),
        ),
{
}

/// The login that is restored is exactly the one that was stored, and the login ends as the
/// worker answers, without a word. It ends with the failure to open or to read what was stored
/// if there is one.
pub proof fn law_stored_login_is_restored_as_it_is<P: ProgramTypes>(
    session: P::Session,
    info: EditInfo,
    refusal: Refusal<P>,
    io: P::IoError,
    broken: P::ChatFailure,
    opened: LoginEvent<P>,
)
    ensures
        opened matches LoginEvent::Opened(Ok(_)) ==> Login::Opening.next(opened) == (
            Login::Parsing,
            LoginTaskView::<P>::ParseSession,
        ),
        Login::Opening.next(LoginEvent::<P>::Opened(Err(io))) == (
            Login::Over,
            LoginTaskView::<P>::Finish(Err(UIError::IOError(io))),
        ),
        Login::Parsing.next(LoginEvent::<P>::Parsed(Ok(session))) == (
            Login::Restoring,
            LoginTaskView::<P>::Submit(LoginStyle::SessionRestore(session)),
        ),
        Login::Parsing.next(LoginEvent::<P>::Parsed(Err(broken))) == (
            Login::Over,
            LoginTaskView::<P>::Finish(Err(UIError::Application(IambError::Failure(broken)))),
        ),
        Login::Restoring.next(LoginEvent::<P>::LoggedIn(Ok(info))).0 is Over,
        Login::Restoring.next(LoginEvent::<P>::LoggedIn(Ok(info))).1 matches LoginTaskView::Finish(
            Ok(_),
        ),
        Login::Restoring.next(LoginEvent::<P>::LoggedIn(Err(refusal))) == (
            Login::Over,
            LoginTaskView::<P>::Finish(Err(refusal.error)),
        ),
{
}

/// Every password that is entered is tried, exactly as it was entered. One that cannot be
/// entered ends the login.
pub proof fn law_every_password_is_tried<P: ProgramTypes>(password: String, io: P::IoError)
    ensures
        Login::Asking.next(LoginEvent::<P>::Password(Ok(password))) == (
            Login::Trying,
            LoginTaskView::<P>::Submit(LoginStyle::Password(password)),
        ),
        Login::Asking.next(LoginEvent::<P>::Password(Err(io))) == (
            Login::Over,
            LoginTaskView::<P>::Finish(Err(UIError::IOError(io))),
        ),
{
}

/// A password that is accepted ends the login with success, once the user was told what the
/// homeserver has to say, word for word, if anything. One that is refused leads to the reason,
/// word for word, and then to the next question.
pub proof fn law_answers_to_passwords_are_told<P: ProgramTypes>(
    text: String,
    refusal: Refusal<P>,
)
    ensures
        Login::Trying.next(LoginEvent::<P>::LoggedIn(Ok(None))).0 is Over,
        Login::Trying.next(LoginEvent::<P>::LoggedIn(Ok(None))).1 matches LoginTaskView::Finish(
            Ok(_),
        ),
        Login::Trying.next(LoginEvent::<P>::LoggedIn(Ok(Some(InfoMessage::Message(text))))) == (
            Login::Welcoming,
            LoginTaskView::<P>::Say(text@),
        ),
        Login::Trying.next(LoginEvent::<P>::LoggedIn(Ok(Some(InfoMessage::Pager(text))))) == (
            Login::Welcoming,
            LoginTaskView::<P>::Say(text@),
        ),
        Login::Welcoming.next(LoginEvent::<P>::Done).0 is Over,
        Login::Welcoming.next(LoginEvent::<P>::Done).1 matches LoginTaskView::Finish(Ok(_)),
        Login::Trying.next(LoginEvent::<P>::LoggedIn(Err(refusal))) == (
            Login::Refusing,
            LoginTaskView::<P>::Say("Failed to login: "@ + refusal.reason@),
        ),
        Login::Refusing.next(LoginEvent::<P>::Done) == (
            Login::Asking,
            LoginTaskView::<P>::AskPassword("Password: "@),
        ),
{
}

/// The tasks that are handed out are those that are spoken of, down to the last character.
pub proof fn law_login_tasks_are_what_they_say<P: ProgramTypes>(
    text: String,
    prompt: &'static str,
    style: LoginStyle<P>,
    result: Result<(), UIError<P>>,
)
    ensures
        LoginTask::<P>::Say(text)@ == LoginTaskView::<P>::Say(text@),
        LoginTask::<P>::FindSession@ == LoginTaskView::<P>::FindSession,
        LoginTask::<P>::OpenSession@ == LoginTaskView::<P>::OpenSession,
        LoginTask::<P>::ParseSession@ == LoginTaskView::<P>::ParseSession,
        LoginTask::<P>::AskPassword(prompt)@ == LoginTaskView::<P>::AskPassword(prompt@),
        LoginTask::<P>::Submit(style)@ == LoginTaskView::<P>::Submit(style),
        LoginTask::<P>::Finish(result)@ == LoginTaskView::<P>::Finish(result),
{
}

/// Whoever answers each task with an event of its kind always gives the login what it waits
/// for, and the login is over exactly when its last task says so.
pub proof fn law_login_tasks_are_answered<P: ProgramTypes>(
    login: Login,
    event: LoginEvent<P>,
    answer: LoginEvent<P>,
)
    requires
        login.fits(event),
    ensures
        ({
            let (after, task) = login.next(event);
            &&& after.fits(answer) <==> task.answered_by(answer)
            &&& after is Over <==> task is Finish
        }),
{
}

/// What a login waits for after a sequence of events.
pub open spec fn login_after<P: ProgramTypes>(events: Seq<LoginEvent<P>>) -> Login
    decreases events.len(),
{
    if events.len() == 0 {
        Login::Announcing
    } else {
        login_after(events.drop_last()).next(events.last()).0
    }
}

/// What one of a sequence of events leads to.
pub open spec fn login_task<P: ProgramTypes>(events: Seq<LoginEvent<P>>, i: int) -> LoginTaskView<
    P,
> {
    login_after(events.take(i)).next(events[i]).1
}

/// A sequence of events in which each is of the kind that is waited for.
pub open spec fn login_possible<P: ProgramTypes>(events: Seq<LoginEvent<P>>) -> bool {
    forall|i: int|
        0 <= i < events.len() ==> #[trigger] login_after(events.take(i)).fits(events[i])
}

/// An event takes the login from what it waited for before it to what it waits for before the
/// next.
proof fn lemma_login_next<P: ProgramTypes>(events: Seq<LoginEvent<P>>, i: int)
    requires
        0 <= i < events.len(),
    ensures
        login_after(events.take(i + 1)) == login_after(events.take(i)).next(events[i]).0,
{
    assert(events.take(i + 1).drop_last() =~= events.take(i));
}

/// A login succeeds only when the worker accepted it, with the last thing it was given.
pub proof fn law_login_is_accepted<P: ProgramTypes>(events: Seq<LoginEvent<P>>, i: int)
    requires
        login_possible(events),
        0 <= i < events.len(),
        login_task(events, i) matches LoginTaskView::Finish(Ok(_)),
    ensures
        ({
            ||| events[i] matches LoginEvent::LoggedIn(Ok(_))
            ||| i > 0 && events[i - 1] matches LoginEvent::LoggedIn(Ok(_))
        }),
{
    assert(login_after(events.take(i)).fits(events[i]));
    if i == 0 {
        assert(events.take(0).len() == 0);
    } else {
        assert(login_after(events.take(i - 1)).fits(events[i - 1]));
        lemma_login_next(events, i - 1);
    }
}

/// A password that is refused does not end the login: the user is told why, and is asked
/// again.
pub proof fn law_refused_password_is_asked_again<P: ProgramTypes>(refusal: Refusal<P>)
    ensures
        Login::Trying.next(LoginEvent::<P>::LoggedIn(Err(refusal))) == (
            Login::Refusing,
            LoginTaskView::<P>::Say("Failed to login: "@ + refusal.reason@),
        ),
        Login::Refusing.next(LoginEvent::<P>::Done) == Login::asking::<P>(),
{
}

/// Once a stored login is found no password is asked for: the login is restored or fails.
pub proof fn law_stored_login_asks_for_nothing<P: ProgramTypes>(
    events: Seq<LoginEvent<P>>,
    found: int,
    i: int,
)
    requires
        login_possible(events),
        0 <= found <= i < events.len(),
        events[found] == LoginEvent::<P>::Found(true),
    ensures
        !(login_task(events, i) is AskPassword),
        ({
            let state = login_after(events.take(i)).next(events[i]).0;
            ||| state is Opening
            ||| state is Parsing
            ||| state is Restoring
            ||| state is Over
        }),
    decreases i,
{
    assert(login_after(events.take(i)).fits(events[i]));
    if found < i {
        law_stored_login_asks_for_nothing(events, found, i - 1);
        lemma_login_next(events, i - 1);
    }
}

/// A password is asked for only when no login is stored, or right after the user was told that
/// the worker refused the last password.
pub proof fn law_passwords_are_asked_for_a_reason<P: ProgramTypes>(
    events: Seq<LoginEvent<P>>,
    i: int,
)
    requires
        login_possible(events),
        0 <= i < events.len(),
        login_task(events, i) is AskPassword,
    ensures
        ({
            ||| events[i] == LoginEvent::<P>::Found(false)
            ||| {
                &&& i > 0
                &&& events[i - 1] matches LoginEvent::LoggedIn(Err(refusal)) && login_task(
                    events,
                    i - 1,
                ) == LoginTaskView::<P>::Say("Failed to login: "@ + refusal.reason@)
                &&& events[i] is Done
            }
        }),
{
    assert(login_after(events.take(i)).fits(events[i]));
    if i == 0 {
        assert(events.take(0).len() == 0);
    } else {
        assert(login_after(events.take(i - 1)).fits(events[i - 1]));
        lemma_login_next(events, i - 1);
    }
}

/// What is tried is always what has just been read from the user or from the stored login, and
/// whatever is read is tried next.
pub proof fn law_what_is_read_is_tried<P: ProgramTypes>(
    events: Seq<LoginEvent<P>>,
    i: int,
    password: String,
    session: P::Session,
)
    requires
        login_possible(events),
        0 <= i < events.len(),
    ensures
        login_task(events, i) == LoginTaskView::<P>::Submit(LoginStyle::Password(password))
            <==> events[i] == LoginEvent::<P>::Password(Ok(password)),
        login_task(events, i) == LoginTaskView::<P>::Submit(LoginStyle::SessionRestore(session))
            <==> events[i] == LoginEvent::<P>::Parsed(Ok(session)),
{
    assert(login_after(events.take(i)).fits(events[i]));
}

} // verus!
