//! The interactive login as a sequence of decisions.
//!
//! A login asks the service for a request token, shows the user where to
//! approve the request, reads the verification code that the user got, and
//! exchanges it for an access token. The caller does the asking, showing and
//! reading; after each of them it reports what happened, and `login_step`
//! says what to do next.

use vstd::prelude::*;
use vstd::string::*;
use crate::credentials::{Credentials, KeyPair, Token};
use crate::driver::Arguments;

verus! {

/// Where a login stands.
#[derive(Debug, PartialEq, Eq)]
pub enum LoginState {
    /// Nothing was done yet.
    Idle,
    /// The service was asked for a request token.
    AwaitingRequestToken { consumer: KeyPair },
    /// The user is being shown where to approve the request.
    Prompting { consumer: KeyPair, request: KeyPair },
    /// The user was asked for the verification code.
    AwaitingPin { consumer: KeyPair, request: KeyPair },
    /// The service was asked for the access token.
    AwaitingAccessToken,
    /// The login has yielded credentials.
    Done,
    /// The login has failed.
    Failed,
}

/// What the caller reports.
#[derive(Debug, PartialEq, Eq)]
pub enum LoginEvent {
    /// A login is wanted for the application with this key and secret.
    Begin { api_key: String, api_secret: String },
    /// The service granted a request token.
    RequestTokenGranted(KeyPair),
    /// The service did not grant a request token.
    RequestTokenRefused,
    /// The prompt was shown.
    PromptShown,
    /// The prompt could not be shown.
    PromptFailed,
    /// The user entered this line.
    PinEntered(String),
    /// No line could be read.
    PinUnreadable,
    /// The service granted access.
    AccessGranted { token: Token, user_id: u64, username: String },
    /// The service did not grant access.
    AccessRefused,
}

/// The step at which a login failed.
#[derive(Debug, Clone, Copy, PartialEq, Eq, Structural)]
pub enum LoginFailure {
    /// When asking for the request token.
    RequestToken,
    /// When showing the prompt.
    Prompt,
    /// When reading the verification code.
    ReadPin,
    /// When exchanging the code for the access token.
    AccessToken,
    /// The caller reported something that the state does not wait for.
    OutOfTurn,
}

/// What the caller is to do next.
#[derive(Debug, PartialEq, Eq)]
pub enum LoginAction {
    /// Ask the service for a request token, for this application and with
    /// this callback.
    RequestToken { consumer: KeyPair, callback: String },
    /// Show the user this address and ask for the verification code.
    PromptForPin { authorize_url: String },
    /// Read the line that the user enters.
    ReadPin,
    /// Ask the service for the access token.
    ExchangePin { consumer: KeyPair, request: KeyPair, verifier: String },
    /// Hand out the credentials.
    Finish(Credentials),
    /// Give up.
    Fail(LoginFailure),
}

/// The callback of a login without a web page to return to.
pub open spec fn out_of_band() -> Seq<char> {
    "oob"@
}

/// What every authorisation address starts with.
pub open spec fn authorize_prefix() -> Seq<char> {
    "https://api.twitter.com/oauth/authorize?oauth_token="@
}

/// The address at which a user approves the request with key `request_key`.
pub open spec fn authorize_address(request_key: Seq<char>) -> Seq<char> {
    authorize_prefix() + request_key
}

/// The context that is reported with a failure. Each step at which a
/// login can fail has a text of its own; an event out of turn has none.
pub open spec fn failure_text(failure: LoginFailure) -> Option<Seq<char>> {
    match failure {
        LoginFailure::RequestToken => Some("Failed to get request token"@),
        LoginFailure::Prompt => Some("Failed to show the PIN prompt"@),
        LoginFailure::ReadPin => Some("Failed to read PIN from stdin"@),
        LoginFailure::AccessToken => Some("Failed to get access token"@),
        LoginFailure::OutOfTurn => None,
    }
}

/// Whether `next` and `action` are what follows `event` in `state`.
pub open spec fn follows(
    state: LoginState,
    event: LoginEvent,
    next: LoginState,
    action: LoginAction,
) -> bool {
    match (state, event) {
        (LoginState::Idle, LoginEvent::Begin { api_key, api_secret }) => {
            &&& next == (LoginState::AwaitingRequestToken {
                consumer: KeyPair { key: api_key, secret: api_secret },
            })
            &&& action matches LoginAction::RequestToken { consumer, callback }
            &&& consumer == (KeyPair { key: api_key, secret: api_secret })
            &&& callback@ == out_of_band()
        },
        (
            LoginState::AwaitingRequestToken { consumer },
            LoginEvent::RequestTokenGranted(request),
        ) => {
            &&& next == (LoginState::Prompting { consumer, request })
            &&& action matches LoginAction::PromptForPin { authorize_url }
            &&& authorize_url@ == authorize_address(request.key@)
        },
        (LoginState::AwaitingRequestToken { consumer }, LoginEvent::RequestTokenRefused) => {
            next == LoginState::Failed && action == LoginAction::Fail(LoginFailure::RequestToken)
        },
        (LoginState::AwaitingPin { consumer, request }, LoginEvent::PinEntered(pin)) => {
            &&& next == LoginState::AwaitingAccessToken
            &&& action == (LoginAction::ExchangePin { consumer, request, verifier: pin })
        },
        (LoginState::Prompting { consumer, request }, LoginEvent::PromptShown) => {
            &&& next == (LoginState::AwaitingPin { consumer, request })
            &&& action == LoginAction::ReadPin
        },
        (LoginState::Prompting { consumer, request }, LoginEvent::PromptFailed) => {
            next == LoginState::Failed && action == LoginAction::Fail(LoginFailure::Prompt)
        },
        (LoginState::AwaitingPin { consumer, request }, LoginEvent::PinUnreadable) => {
            next == LoginState::Failed && action == LoginAction::Fail(LoginFailure::ReadPin)
        },
        (
            LoginState::AwaitingAccessToken,
            LoginEvent::AccessGranted { token, user_id, username },
        ) => {
            &&& next == LoginState::Done
            &&& action matches LoginAction::Finish(creds)
            &&& creds.token == token
            &&& creds.user_id == user_id
            &&& creds.username == username
        },
        (LoginState::AwaitingAccessToken, LoginEvent::AccessRefused) => {
            next == LoginState::Failed && action == LoginAction::Fail(LoginFailure::AccessToken)
        },
        _ => next == LoginState::Failed && action == LoginAction::Fail(LoginFailure::OutOfTurn),
    }
}

/// Calls `egg_mode::auth::authorize_url` on the request token. The address
/// it returns is the service's authorisation page, followed by
/// `?oauth_token=` and the request token's key as it is; the secret is not
/// read.
#[verifier::external_body]
fn authorize_url(request: &KeyPair) -> (url: String)
    ensures
        url@ == authorize_address(request.key@),
{
    let pair = egg_mode::auth::KeyPair::new(request.key.clone(), request.secret.clone());
    egg_mode::auth::authorize_url(&pair)
}

/// Decides what follows `event` in `state`.
pub fn login_step(state: LoginState, event: LoginEvent) -> (r: (LoginState, LoginAction))
    ensures
        follows(state, event, r.0, r.1),
{
    match (state, event) {
        (LoginState::Idle, LoginEvent::Begin { api_key, api_secret }) => {
            let consumer = KeyPair::new(api_key, api_secret);
            let callback = "oob".to_owned();
            (
                LoginState::AwaitingRequestToken { consumer: consumer.duplicate() },
                LoginAction::RequestToken { consumer, callback },
            )
        },
        (
            LoginState::AwaitingRequestToken { consumer },
            LoginEvent::RequestTokenGranted(request),
        ) => {
            let authorize_url = authorize_url(&request);
            (
                LoginState::Prompting { consumer, request },
                LoginAction::PromptForPin { authorize_url },
            )
        },
        (LoginState::AwaitingRequestToken { .. }, LoginEvent::RequestTokenRefused) => (
            LoginState::Failed,
            LoginAction::Fail(LoginFailure::RequestToken),
        ),
        (LoginState::AwaitingPin { consumer, request }, LoginEvent::PinEntered(pin)) => (
            LoginState::AwaitingAccessToken,
            LoginAction::ExchangePin { consumer, request, verifier: pin },
        ),
        (LoginState::Prompting { consumer, request }, LoginEvent::PromptShown) => (
            LoginState::AwaitingPin { consumer, request },
            LoginAction::ReadPin,
        ),
        (LoginState::Prompting { .. }, LoginEvent::PromptFailed) => (
            LoginState::Failed,
            LoginAction::Fail(LoginFailure::Prompt),
        ),
        (LoginState::AwaitingPin { .. }, LoginEvent::PinUnreadable) => (
            LoginState::Failed,
            LoginAction::Fail(LoginFailure::ReadPin),
        ),
        (
            LoginState::AwaitingAccessToken,
            LoginEvent::AccessGranted { token, user_id, username },
        ) => (LoginState::Done, LoginAction::Finish(Credentials::new(token, user_id, username))),
        (LoginState::AwaitingAccessToken, LoginEvent::AccessRefused) => (
            LoginState::Failed,
            LoginAction::Fail(LoginFailure::AccessToken),
        ),
        _ => (LoginState::Failed, LoginAction::Fail(LoginFailure::OutOfTurn)),
    }
}

/// Starts a login for the application that `args` names: the first thing to
/// do is to ask for a request token with the application's key and secret.
pub fn begin(args: &Arguments) -> (r: (LoginState, LoginAction))
    ensures
        follows(
            LoginState::Idle,
            LoginEvent::Begin { api_key: args.api_key, api_secret: args.api_secret },
            r.0,
            r.1,
        ),
{
    login_step(
        LoginState::Idle,
        LoginEvent::Begin { api_key: args.api_key.clone(), api_secret: args.api_secret.clone() },
    )
}

/// The context to report with `failure`: the text of the step that failed,
/// or nothing for an event out of turn.
pub fn failure_context(failure: LoginFailure) -> (text: Option<&'static str>)
    ensures
        match (text, failure_text(failure)) {
            (Some(t), Some(expected)) => t@ == expected,
            (None, None) => true,
            _ => false,
        },
{
    match failure {
        LoginFailure::RequestToken => Some("Failed to get request token"),
        LoginFailure::Prompt => Some("Failed to show the PIN prompt"),
        LoginFailure::ReadPin => Some("Failed to read PIN from stdin"),
        LoginFailure::AccessToken => Some("Failed to get access token"),
        LoginFailure::OutOfTurn => None,
    }
}

/// Every step at which a login can fail reports a context, and no two steps
/// report the same: the context tells which step failed. Only an event out
/// of turn has none.
pub proof fn lemma_each_step_has_its_own_context(first: LoginFailure, second: LoginFailure)
    ensures
        failure_text(first) is Some <==> first != LoginFailure::OutOfTurn,
        first != second && first != LoginFailure::OutOfTurn ==> failure_text(first)
            != failure_text(second),
{
    reveal_strlit("Failed to get request token");
    reveal_strlit("Failed to show the PIN prompt");
    reveal_strlit("Failed to read PIN from stdin");
    reveal_strlit("Failed to get access token");
    let request = "Failed to get request token"@;
    let prompt = "Failed to show the PIN prompt"@;
    let read = "Failed to read PIN from stdin"@;
    let access = "Failed to get access token"@;
    assert(request.len() == 27);
    assert(access.len() == 26);
    assert(prompt.len() == 29);
    assert(read.len() == 29);
    assert(prompt[10] == 's');
    assert(read[10] == 'r');
}

/// A failure names the step that failed: each of the four step failures
/// comes only from the state that waits for that step, on the report that
/// the step went wrong.
pub proof fn lemma_failure_names_its_step(
    state: LoginState,
    event: LoginEvent,
    next: LoginState,
    action: LoginAction,
)
    requires
        follows(state, event, next, action),
    ensures
        action matches LoginAction::Fail(failure) ==> next == LoginState::Failed && (
        match failure {
            LoginFailure::RequestToken => state is AwaitingRequestToken
                && event is RequestTokenRefused,
            LoginFailure::Prompt => state is Prompting && event is PromptFailed,
            LoginFailure::ReadPin => state is AwaitingPin && event is PinUnreadable,
            LoginFailure::AccessToken => state is AwaitingAccessToken && event is AccessRefused,
            LoginFailure::OutOfTurn => true,
        }),
        event is RequestTokenRefused && state is AwaitingRequestToken ==> action
            == LoginAction::Fail(LoginFailure::RequestToken),
        event is PromptFailed && state is Prompting ==> action == LoginAction::Fail(
            LoginFailure::Prompt,
        ),
        event is PinUnreadable && state is AwaitingPin ==> action == LoginAction::Fail(
            LoginFailure::ReadPin,
        ),
        event is AccessRefused && state is AwaitingAccessToken ==> action == LoginAction::Fail(
            LoginFailure::AccessToken,
        ),
{
}

/// A login that has ended stays ended: in `Done` and in `Failed` every event
/// leads to `Failed`, and nothing more is asked of the service.
pub proof fn lemma_ended_login_stays_ended(
    state: LoginState,
    event: LoginEvent,
    next: LoginState,
    action: LoginAction,
)
    requires
        state == LoginState::Done || state == LoginState::Failed,
        follows(state, event, next, action),
    ensures
        next == LoginState::Failed,
        action == LoginAction::Fail(LoginFailure::OutOfTurn),
{
}

/// Credentials are handed out only for an access that the service granted,
/// and they hold what it granted.
pub proof fn lemma_credentials_only_from_grant(
    state: LoginState,
    event: LoginEvent,
    next: LoginState,
    action: LoginAction,
)
    requires
        follows(state, event, next, action),
    ensures
        action matches LoginAction::Finish(creds) ==> {
            &&& state == LoginState::AwaitingAccessToken
            &&& next == LoginState::Done
            &&& event matches LoginEvent::AccessGranted { token, user_id, username }
            &&& creds.token == token
            &&& creds.user_id == user_id
            &&& creds.username == username
        },
        next == LoginState::Done ==> action is Finish,
{
}

} // verus!
