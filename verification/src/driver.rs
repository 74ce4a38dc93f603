//! What the program does for each subcommand, step by step, and what it
//! says when a step fails.

use vstd::prelude::*;

verus! {

/// The subcommands.
#[derive(Debug, Clone, Copy, PartialEq, Eq, Structural)]
pub enum Command {
    /// Log in and store the credentials.
    Login,
    /// Print what the user liked.
    PrintLikes,
    /// Apply the migrations that are pending.
    Migrations,
}

/// The configuration of a run, as resolved from flags and environment.
#[derive(Debug, PartialEq, Eq)]
pub struct Arguments {
    /// The application's API key.
    pub api_key: String,
    /// The application's API secret.
    pub api_secret: String,
    /// Where the database is.
    pub database_url: String,
    /// The file that holds the user's credentials.
    pub creds_file: String,
    /// What to do.
    pub cmd: Command,
}

/// One step of a run. A step that fails ends the run.
#[derive(Debug, Clone, Copy, PartialEq, Eq, Structural)]
pub enum Step {
    /// Log in interactively.
    Login,
    /// Write the credentials to their file.
    SaveCredentials,
    /// Read the credentials from their file.
    LoadCredentials,
    /// Tell the user who is logged in.
    Greet,
    /// Fetch and print the liked posts.
    PrintLikes,
    /// Open the database.
    ConnectDatabase,
    /// Build the registry and apply what is pending.
    RunMigrations,
}

/// The steps of a run of `cmd`, in order.
pub open spec fn steps_of(cmd: Command) -> Seq<Step> {
    match cmd {
        Command::Login => seq![Step::Login, Step::SaveCredentials, Step::Greet],
        Command::PrintLikes => seq![Step::LoadCredentials, Step::Greet, Step::PrintLikes],
        Command::Migrations => seq![
            Step::LoadCredentials,
            Step::Greet,
            Step::ConnectDatabase,
            Step::RunMigrations,
        ],
    }
}

/// The context that is reported when `step` fails. The greeting has none:
/// it cannot fail.
pub open spec fn context_of(step: Step) -> Option<Seq<char>> {
    match step {
        Step::Login => Some("Login failed"@),
        Step::SaveCredentials => Some("Failed to save user credentials"@),
        Step::LoadCredentials => Some(
            "Failed to load user credentials; do you need to login?"@,
        ),
        Step::Greet => None,
        Step::PrintLikes => Some("Failed to get likes"@),
        Step::ConnectDatabase => Some("Error connecting to database"@),
        Step::RunMigrations => Some("Error running database migrations"@),
    }
}

/// Lays out the run of `cmd`: a login stores what it got; every other
/// subcommand starts from the stored credentials.
pub fn plan(cmd: Command) -> (steps: Vec<Step>)
    ensures
        steps@ == steps_of(cmd),
{
    let mut steps: Vec<Step> = Vec::new();
    match cmd {
        Command::Login => {
            steps.push(Step::Login);
            steps.push(Step::SaveCredentials);
            steps.push(Step::Greet);
        },
        Command::PrintLikes => {
            steps.push(Step::LoadCredentials);
            steps.push(Step::Greet);
            steps.push(Step::PrintLikes);
        },
        Command::Migrations => {
            steps.push(Step::LoadCredentials);
            steps.push(Step::Greet);
            steps.push(Step::ConnectDatabase);
            steps.push(Step::RunMigrations);
        },
    }
    assert(steps@ =~= steps_of(cmd));
    steps
}

/// The context to report when `step` fails, where it can fail.
pub fn failure_context(step: Step) -> (text: Option<&'static str>)
    ensures
        match (text, context_of(step)) {
            (Some(t), Some(expected)) => t@ == expected,
            (None, None) => true,
            _ => false,
        },
{
    match step {
        Step::Login => Some("Login failed"),
        Step::SaveCredentials => Some("Failed to save user credentials"),
        Step::LoadCredentials => Some("Failed to load user credentials; do you need to login?"),
        Step::Greet => None,
        Step::PrintLikes => Some("Failed to get likes"),
        Step::ConnectDatabase => Some("Error connecting to database"),
        Step::RunMigrations => Some("Error running database migrations"),
    }
}

/// Every run tells the user who is logged in, and only a login writes the
/// credentials file.
pub proof fn lemma_plan_shape(cmd: Command)
    ensures
        steps_of(cmd).contains(Step::Greet),
        steps_of(cmd).contains(Step::SaveCredentials) <==> cmd == Command::Login,
        steps_of(cmd)[0] == Step::Login || steps_of(cmd)[0] == Step::LoadCredentials,
{
    let s = steps_of(cmd);
    match cmd {
        Command::Login => {
            assert(s[2] == Step::Greet);
            assert(s[1] == Step::SaveCredentials);
        },
        Command::PrintLikes => {
            assert(s[1] == Step::Greet);
        },
        Command::Migrations => {
            assert(s[1] == Step::Greet);
        },
    }
}

} // verus!
