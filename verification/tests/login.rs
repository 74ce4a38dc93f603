use likes_scraper::credentials::{Credentials, KeyPair, Token};
use likes_scraper::login::{
    failure_context, login_step, LoginAction, LoginEvent, LoginFailure, LoginState,
};

fn pair(key: &str, secret: &str) -> KeyPair {
    KeyPair::new(key.to_string(), secret.to_string())
}

fn begin() -> LoginEvent {
    LoginEvent::Begin { api_key: "key".to_string(), api_secret: "secret".to_string() }
}

#[test]
fn login_runs_through_its_steps() {
    let (state, action) = login_step(LoginState::Idle, begin());
    assert_eq!(state, LoginState::AwaitingRequestToken { consumer: pair("key", "secret") });
    assert_eq!(
        action,
        LoginAction::RequestToken { consumer: pair("key", "secret"), callback: "oob".to_string() }
    );

    let (state, action) = login_step(state, LoginEvent::RequestTokenGranted(pair("rk", "rs")));
    assert_eq!(
        state,
        LoginState::Prompting { consumer: pair("key", "secret"), request: pair("rk", "rs") }
    );
    assert_eq!(
        action,
        LoginAction::PromptForPin {
            authorize_url: "https://api.twitter.com/oauth/authorize?oauth_token=rk".to_string()
        }
    );

    let (state, action) = login_step(state, LoginEvent::PromptShown);
    assert_eq!(
        state,
        LoginState::AwaitingPin { consumer: pair("key", "secret"), request: pair("rk", "rs") }
    );
    assert_eq!(action, LoginAction::ReadPin);

    let (state, action) = login_step(state, LoginEvent::PinEntered("1234567\n".to_string()));
    assert_eq!(state, LoginState::AwaitingAccessToken);
    assert_eq!(
        action,
        LoginAction::ExchangePin {
            consumer: pair("key", "secret"),
            request: pair("rk", "rs"),
            verifier: "1234567\n".to_string()
        }
    );

    let token = Token::Access { consumer: pair("key", "secret"), access: pair("ak", "as") };
    let (state, action) = login_step(
        state,
        LoginEvent::AccessGranted { token, user_id: 7, username: "seven".to_string() },
    );
    assert_eq!(state, LoginState::Done);
    let token = Token::Access { consumer: pair("key", "secret"), access: pair("ak", "as") };
    assert_eq!(action, LoginAction::Finish(Credentials::new(token, 7, "seven".to_string())));
}

#[test]
fn authorize_address_holds_the_request_key_only() {
    let state = LoginState::AwaitingRequestToken { consumer: pair("key", "secret") };
    let (_, action) = login_step(state, LoginEvent::RequestTokenGranted(pair("a b&c", "hidden")));
    assert_eq!(
        action,
        LoginAction::PromptForPin {
            authorize_url: "https://api.twitter.com/oauth/authorize?oauth_token=a b&c".to_string()
        }
    );
}

#[test]
fn each_refusal_fails_at_its_step() {
    let state = LoginState::AwaitingRequestToken { consumer: pair("k", "s") };
    assert_eq!(
        login_step(state, LoginEvent::RequestTokenRefused),
        (LoginState::Failed, LoginAction::Fail(LoginFailure::RequestToken))
    );
    let state = LoginState::Prompting { consumer: pair("k", "s"), request: pair("r", "t") };
    assert_eq!(
        login_step(state, LoginEvent::PromptFailed),
        (LoginState::Failed, LoginAction::Fail(LoginFailure::Prompt))
    );
    let state = LoginState::AwaitingPin { consumer: pair("k", "s"), request: pair("r", "t") };
    assert_eq!(
        login_step(state, LoginEvent::PinUnreadable),
        (LoginState::Failed, LoginAction::Fail(LoginFailure::ReadPin))
    );
    assert_eq!(
        login_step(LoginState::AwaitingAccessToken, LoginEvent::AccessRefused),
        (LoginState::Failed, LoginAction::Fail(LoginFailure::AccessToken))
    );
}

#[test]
fn events_out_of_turn_fail() {
    assert_eq!(
        login_step(LoginState::Idle, LoginEvent::PinEntered("1".to_string())),
        (LoginState::Failed, LoginAction::Fail(LoginFailure::OutOfTurn))
    );
    assert_eq!(
        login_step(LoginState::Done, begin()),
        (LoginState::Failed, LoginAction::Fail(LoginFailure::OutOfTurn))
    );
    assert_eq!(
        login_step(LoginState::Failed, begin()),
        (LoginState::Failed, LoginAction::Fail(LoginFailure::OutOfTurn))
    );
    assert_eq!(
        login_step(LoginState::AwaitingAccessToken, LoginEvent::RequestTokenGranted(pair("r", "t"))),
        (LoginState::Failed, LoginAction::Fail(LoginFailure::OutOfTurn))
    );
}

#[test]
fn failures_carry_their_context() {
    assert_eq!(failure_context(LoginFailure::RequestToken), Some("Failed to get request token"));
    assert_eq!(failure_context(LoginFailure::Prompt), Some("Failed to show the PIN prompt"));
    assert_eq!(failure_context(LoginFailure::ReadPin), Some("Failed to read PIN from stdin"));
    assert_eq!(failure_context(LoginFailure::AccessToken), Some("Failed to get access token"));
    assert_eq!(failure_context(LoginFailure::OutOfTurn), None);
}

#[test]
fn each_failing_step_has_a_context_of_its_own() {
    let steps = [
        LoginFailure::RequestToken,
        LoginFailure::Prompt,
        LoginFailure::ReadPin,
        LoginFailure::AccessToken,
    ];
    for (i, a) in steps.iter().enumerate() {
        assert!(failure_context(*a).is_some());
        for (j, b) in steps.iter().enumerate() {
            if i != j {
                assert_ne!(failure_context(*a), failure_context(*b));
            }
        }
    }
}

#[test]
fn nothing_is_read_after_a_failed_prompt() {
    let state = LoginState::Prompting { consumer: pair("k", "s"), request: pair("r", "t") };
    let (state, action) = login_step(state, LoginEvent::PromptFailed);
    assert_eq!(action, LoginAction::Fail(LoginFailure::Prompt));
    assert_eq!(
        login_step(state, LoginEvent::PinEntered("1".to_string())),
        (LoginState::Failed, LoginAction::Fail(LoginFailure::OutOfTurn))
    );
    let state = LoginState::Prompting { consumer: pair("k", "s"), request: pair("r", "t") };
    assert_eq!(
        login_step(state, LoginEvent::PinEntered("1".to_string())),
        (LoginState::Failed, LoginAction::Fail(LoginFailure::OutOfTurn))
    );
}

#[test]
fn login_begins_with_the_application_pair() {
    let args = likes_scraper::driver::Arguments {
        api_key: "key".to_string(),
        api_secret: "secret".to_string(),
        database_url: "likes.db".to_string(),
        creds_file: "user_creds.json".to_string(),
        cmd: likes_scraper::driver::Command::Login,
    };
    let (state, action) = likes_scraper::login::begin(&args);
    assert_eq!(state, LoginState::AwaitingRequestToken { consumer: pair("key", "secret") });
    assert_eq!(
        action,
        LoginAction::RequestToken { consumer: pair("key", "secret"), callback: "oob".to_string() }
    );
}
