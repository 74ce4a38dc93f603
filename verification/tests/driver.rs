use likes_scraper::driver::{failure_context, plan, Command, Step};

#[test]
fn login_stores_what_it_got() {
    assert_eq!(plan(Command::Login), vec![Step::Login, Step::SaveCredentials, Step::Greet]);
}

#[test]
fn other_commands_start_from_stored_credentials() {
    assert_eq!(
        plan(Command::PrintLikes),
        vec![Step::LoadCredentials, Step::Greet, Step::PrintLikes]
    );
    assert_eq!(
        plan(Command::Migrations),
        vec![Step::LoadCredentials, Step::Greet, Step::ConnectDatabase, Step::RunMigrations]
    );
}

#[test]
fn each_step_has_its_context() {
    assert_eq!(failure_context(Step::Login), Some("Login failed"));
    assert_eq!(failure_context(Step::SaveCredentials), Some("Failed to save user credentials"));
    assert_eq!(
        failure_context(Step::LoadCredentials),
        Some("Failed to load user credentials; do you need to login?")
    );
    assert_eq!(failure_context(Step::Greet), None);
    assert_eq!(failure_context(Step::PrintLikes), Some("Failed to get likes"));
    assert_eq!(failure_context(Step::ConnectDatabase), Some("Error connecting to database"));
    assert_eq!(failure_context(Step::RunMigrations), Some("Error running database migrations"));
}
