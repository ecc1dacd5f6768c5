//! The stages of the program, from its start to its end.

use vstd::prelude::*;

verus! {

/// The code that the process exits with when the settings cannot be loaded or the login
/// fails.
pub const FAILURE_EXIT_CODE: i32 = 2;

/// The code that the process exits with in the end.
pub const SUCCESS_EXIT_CODE: i32 = 0;

/// A stage of the program: something that has to be done.
#[derive(Clone, Copy, Debug, PartialEq, Eq, Structural)]
pub enum Stage {
    /// Load the settings.
    LoadSettings,
    /// Make the directory that the chat service keeps its data in.
    MakeMatrixDir,
    /// Make the directory of the log files.
    MakeLogDir,
    /// Begin to log.
    StartLogging,
    /// Start the threads.
    StartRuntime,
    /// Start the worker that talks to the homeserver.
    SpawnWorker,
    /// Make the store that the worker and the screen share.
    InitStore,
    /// Log in.
    Login,
    /// Have panics clean up the terminal.
    InstallPanicHook,
    /// Open the client.
    OpenApplication,
    /// Run the client.
    RunApplication,
    /// Write out what is still to be logged.
    FlushLogs,
}

/// How the program goes on after a stage.
pub enum Outcome<E> {
    /// With the next stage.
    Next(Stage),
    /// It prints why it failed, and exits with this code.
    PrintExit(E, i32),
    /// It ends with this failure.
    Fail(E),
    /// It exits with this code.
    Exit(i32),
}

impl Stage {
    /// How many stages come before this one.
    pub open spec fn rank(self) -> int {
        match self {
            Stage::LoadSettings => 0,
            Stage::MakeMatrixDir => 1,
            Stage::MakeLogDir => 2,
            Stage::StartLogging => 3,
            Stage::StartRuntime => 4,
            Stage::SpawnWorker => 5,
            Stage::InitStore => 6,
            Stage::Login => 7,
            Stage::InstallPanicHook => 8,
            Stage::OpenApplication => 9,
            Stage::RunApplication => 10,
            Stage::FlushLogs => 11,
        }
    }

    /// Whether a stage can fail without a panic.
    pub open spec fn can_fail(self) -> bool {
        ||| self is LoadSettings
        ||| self is MakeMatrixDir
        ||| self is MakeLogDir
        ||| self is Login
        ||| self is OpenApplication
        ||| self is RunApplication
    }

    /// The stage that the program starts with.
    pub fn first() -> (stage: Stage)
        ensures
            stage == Stage::LoadSettings,
            stage.rank() == 0,
    {
        Stage::LoadSettings
    }

    /// Goes on after a stage: a stage that fails ends the program, and one that succeeds
    /// leads to the next, until all are done. Failing to load the settings or to log in is
    /// printed, with an exit code of its own.
    pub fn resume<E>(self, result: Result<(), E>) -> (outcome: Outcome<E>)
        requires
            result is Err ==> self.can_fail(),
        ensures
            match result {
                Ok(_) => if self is FlushLogs {
                    outcome == Outcome::<E>::Exit(0)
                } else {
                    outcome matches Outcome::Next(stage) && stage.rank() == self.rank() + 1
                },
                Err(error) => if self is LoadSettings || self is Login {
                    outcome == Outcome::<E>::PrintExit(error, 2)
                } else {
                    outcome == Outcome::<E>::Fail(error)
                },
            },
    {
        if let Err(error) = result {
            return match self {
                Stage::LoadSettings => Outcome::PrintExit(error, FAILURE_EXIT_CODE),
                Stage::Login => Outcome::PrintExit(error, FAILURE_EXIT_CODE),
                _ => Outcome::Fail(error),
            };
        }
        match self {
            Stage::LoadSettings => Outcome::Next(Stage::MakeMatrixDir),
            Stage::MakeMatrixDir => Outcome::Next(Stage::MakeLogDir),
            Stage::MakeLogDir => Outcome::Next(Stage::StartLogging),
            Stage::StartLogging => Outcome::Next(Stage::StartRuntime),
            Stage::StartRuntime => Outcome::Next(Stage::SpawnWorker),
            Stage::SpawnWorker => Outcome::Next(Stage::InitStore),
            Stage::InitStore => Outcome::Next(Stage::Login),
            Stage::Login => Outcome::Next(Stage::InstallPanicHook),
            Stage::InstallPanicHook => Outcome::Next(Stage::OpenApplication),
            Stage::OpenApplication => Outcome::Next(Stage::RunApplication),
            Stage::RunApplication => Outcome::Next(Stage::FlushLogs),
            Stage::FlushLogs => Outcome::Exit(SUCCESS_EXIT_CODE),
        }
    }
}

/// The stages come one after the other: a program that has got to a stage by succeeding in
/// all earlier ones has been through each of them once, in order. In particular the client is
/// opened only after the login, and after panics are made to clean up the terminal.
pub proof fn law_stages_come_in_order(stages: Seq<Stage>, i: int)
    requires
        0 <= i < stages.len(),
        stages[0] is LoadSettings,
        forall|j: int|
            0 <= j < stages.len() - 1 ==> (#[trigger] stages[j + 1]).rank() == stages[j].rank() + 1,
    ensures
        stages[i].rank() == i,
        stages[i] is OpenApplication ==> stages[i - 2] is Login && stages[i - 1]
            is InstallPanicHook,
        i == 0 ==> stages[i] is LoadSettings,
        i == 1 ==> stages[i] is MakeMatrixDir,
        i == 2 ==> stages[i] is MakeLogDir,
        i == 3 ==> stages[i] is StartLogging,
        i == 4 ==> stages[i] is StartRuntime,
        i == 5 ==> stages[i] is SpawnWorker,
        i == 6 ==> stages[i] is InitStore,
        i == 7 ==> stages[i] is Login,
        i == 8 ==> stages[i] is InstallPanicHook,
        i == 9 ==> stages[i] is OpenApplication,
        i == 10 ==> stages[i] is RunApplication,
        i == 11 ==> stages[i] is FlushLogs,
        i <= 11,
    decreases i,
{
    if i > 0 {
        law_stages_come_in_order(stages, i - 1);
        assert(stages[(i - 1) + 1].rank() == stages[i - 1].rank() + 1);
        if i > 1 {
            law_stages_come_in_order(stages, i - 2);
        }
    }
}

/// The stages that can fail are those that touch the settings, the directories, the login and
/// the terminal.
pub proof fn law_stages_that_can_fail(stage: Stage)
    ensures
        stage.can_fail() <==> match stage {
            Stage::LoadSettings
            | Stage::MakeMatrixDir
            | Stage::MakeLogDir
            | Stage::Login
            | Stage::OpenApplication
            | Stage::RunApplication => true,
            _ => false,
        },
{
}

} // verus!
