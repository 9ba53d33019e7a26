//! The request handlers as sequences of decisions. A handler alternates
//! between deciding and waiting for a collaborator, the data access service
//! or the identity provider. Each function here is one decision: it takes
//! what the last collaborator answered and says what happens next.

use crate::auth0::{
    bearer, spec_bearer, spec_endpoint, Auth0Service, CHANGE_PASSWORD_URL, GET_PROFILE_URL,
    GRANT_TYPE_PASS, LOGIN_URL, REGISTRATION_URL, SCOPE,
};
use crate::db::{CheckUser, CreateUser, Message};
use crate::errors::{
    Error, ErrorMessageResponse, STATUS_BAD_REQUEST, STATUS_OK, STATUS_UNAUTHORIZED,
};
use crate::middleware::{bearer_token, spec_bearer_token, spec_header};
use crate::models::{
    Auth0RegisterResponse, ChangePassFlow, ConnectToAuth0, LoginFlow, LoginUserResponse,
    RegisteredUserData, SignupRequest, UpdatePasswordData, UserData,
};
use vstd::prelude::*;
use vstd::string::*;

verus! {

/// What a reply carries.
#[derive(Debug, Clone, PartialEq, Eq)]
pub enum Payload {
    /// Nothing.
    Empty,
    /// A line of text.
    Text(String),
    /// The provider's answer to a registration.
    Registered(Auth0RegisterResponse),
    /// The token of a user who logged in.
    LoggedIn(LoginUserResponse),
    /// A profile, as the provider gave it.
    Profile(String),
    /// The text of a failure.
    Failure(ErrorMessageResponse),
}

/// A reply to the gateway's caller.
#[derive(Debug, Clone, PartialEq, Eq)]
pub struct HttpReply {
    pub status: u16,
    pub payload: Payload,
}

/// A request to the identity provider.
#[derive(Debug, Clone, PartialEq, Eq)]
pub enum ProviderCall {
    /// Post a registration.
    Register(SignupRequest),
    /// Post a login.
    Login(ConnectToAuth0<LoginFlow>),
    /// Post a change of password.
    ChangePassword(ConnectToAuth0<ChangePassFlow>),
    /// Get a profile, presenting this `Authorization` header.
    Profile(String),
}

/// What a handler does next.
#[derive(Debug, Clone, PartialEq, Eq)]
pub enum Step {
    /// Answer the caller: the handler is done.
    Respond(HttpReply),
    /// Send this message to the data access service and wait for its answer.
    AskDatabase(Message),
    /// Send this request to the provider's address and wait for its answer.
    AskProvider(String, ProviderCall),
}

/// What is said to a caller whose password change was started.
pub const PASSWORD_CHANGE_SENT: &'static str = "Sent email to change password!";

/// The reply that reports `error`: its status and the text meant for the
/// caller.
pub fn failure(error: &Error) -> (reply: HttpReply)
    ensures
        reply.status == error.spec_status(),
        reply.payload matches Payload::Failure(body) && body.message@
            == error.spec_reply_message(),
{
    let told = error.error_response();
    HttpReply { status: told.status, payload: Payload::Failure(told.body) }
}

/// The reply to a request that breaks a business rule.
pub fn bad_request() -> (reply: HttpReply)
    ensures
        reply == (HttpReply { status: STATUS_BAD_REQUEST, payload: Payload::Empty }),
{
    HttpReply { status: STATUS_BAD_REQUEST, payload: Payload::Empty }
}

/// The reply to a caller who is not authenticated. It says nothing of
/// which check failed.
pub fn unauthorized() -> (reply: HttpReply)
    ensures
        reply == (HttpReply { status: STATUS_UNAUTHORIZED, payload: Payload::Empty }),
{
    HttpReply { status: STATUS_UNAUTHORIZED, payload: Payload::Empty }
}

/// Registration begins with the provider: the user is registered there
/// first.
pub fn register_begin(service: &Auth0Service, user: &UserData) -> (step: Step)
    ensures
        step matches Step::AskProvider(url, ProviderCall::Register(body)) && {
            &&& url@ == spec_endpoint(service@.client_url, REGISTRATION_URL@)
            &&& body.client_id@ == service@.client_id
            &&& body.connection@ == service@.connection
            &&& body.username == user.username
            &&& body.password == user.password
            &&& body.email == user.email
        },
{
    let url = service.registration_url();
    match service.build_body_for_register(
        user.password.clone(),
        user.email.clone(),
        user.username.clone(),
    ) {
        Ok(body) => Step::AskProvider(url, ProviderCall::Register(body)),
        Err(error) => Step::Respond(failure(&error)),
    }
}

/// After the provider answered a registration. A user whom the provider
/// registered is created locally under the identifier that the provider
/// issued. A rejection by the provider is a bad request that carries the
/// provider's answer; any other failure is reported as it is.
pub fn register_after_provider(user: UserData, outcome: Result<Auth0RegisterResponse, Error>) -> (step:
    Step)
    ensures
        match outcome {
            Ok(registered) => step == Step::AskDatabase(
                Message::CreateUser(
                    CreateUser {
                        id: registered._id,
                        username: user.username,
                        password: user.password,
                        email: user.email,
                    },
                ),
            ),
            Err(Error::StringError(answer)) => step matches Step::Respond(reply) && {
                &&& reply.status == STATUS_BAD_REQUEST
                &&& reply.payload matches Payload::Failure(body) && body.message@
                    == Error::StringError(answer).spec_message()
            },
            Err(error) => step matches Step::Respond(reply) && {
                &&& reply.status == error.spec_status()
                &&& reply.payload matches Payload::Failure(body) && body.message@
                    == error.spec_reply_message()
            },
        },
{
    match outcome {
        Ok(registered) => Step::AskDatabase(
            Message::CreateUser(
                CreateUser {
                    id: registered._id,
                    username: user.username,
                    password: user.password,
                    email: user.email,
                },
            ),
        ),
        Err(error) => {
            let told = failure(&error);
            match error {
                Error::StringError(_) => Step::Respond(
                    HttpReply { status: STATUS_BAD_REQUEST, payload: told.payload },
                ),
                _ => Step::Respond(told),
            }
        },
    }
}

/// After the data access service answered the creation. A created user is
/// told what the provider answered; a failure, a duplicate among them, is
/// reported as it is.
pub fn register_after_database(registered: Auth0RegisterResponse, answer: Result<(), Error>) -> (reply:
    HttpReply)
    ensures
        match answer {
            Ok(_) => reply == (HttpReply {
                status: STATUS_OK,
                payload: Payload::Registered(registered),
            }),
            Err(error) => {
                &&& reply.status == error.spec_status()
                &&& reply.payload matches Payload::Failure(body) && body.message@
                    == error.spec_reply_message()
            },
        },
{
    match answer {
        Ok(_) => HttpReply { status: STATUS_OK, payload: Payload::Registered(registered) },
        Err(error) => failure(&error),
    }
}

/// The question with which login, change of password and profile begin:
/// whether the user exists locally.
pub fn ask_whether_user_exists(id: &String) -> (step: Step)
    ensures
        step == Step::AskDatabase(Message::CheckUser(CheckUser { id: *id })),
{
    Step::AskDatabase(Message::CheckUser(CheckUser { id: id.clone() }))
}

/// Login begins with the question whether the user exists locally.
pub fn login_begin(user: &RegisteredUserData) -> (step: Step)
    ensures
        step == Step::AskDatabase(Message::CheckUser(CheckUser { id: user.id })),
{
    ask_whether_user_exists(&user.id)
}

/// After the data access service said whether the user exists. A user who
/// exists is logged in at the provider; one who does not is a bad request; a
/// failure to find out is reported as it is.
pub fn login_after_check(service: &Auth0Service, user: RegisteredUserData, answer: Result<
    bool,
    Error,
>) -> (step: Step)
    ensures
        match answer {
            Ok(true) => step matches Step::AskProvider(url, ProviderCall::Login(body)) && {
                &&& url@ == spec_endpoint(service@.client_url, LOGIN_URL@)
                &&& body.client_id@ == service@.client_id
                &&& body.client_secret@ == service@.client_secret
                &&& body.audience@ == service@.audience
                &&& body.grant_type@ == GRANT_TYPE_PASS@
                &&& body.user_id == user.id
                &&& body.connection@ == service@.connection
                &&& body.scope matches Some(scope) && scope@ == SCOPE@
                &&& body.extra.username == user.username
                &&& body.extra.password == user.password
            },
            Ok(false) => step == Step::Respond(
                HttpReply { status: STATUS_BAD_REQUEST, payload: Payload::Empty },
            ),
            Err(error) => step matches Step::Respond(reply) && {
                &&& reply.status == error.spec_status()
                &&& reply.payload matches Payload::Failure(body) && body.message@
                    == error.spec_reply_message()
            },
        },
{
    match answer {
        Ok(true) => {
            let url = service.login_url();
            match service.build_body_for_login(user) {
                Ok(body) => Step::AskProvider(url, ProviderCall::Login(body)),
                Err(error) => Step::Respond(failure(&error)),
            }
        },
        Ok(false) => Step::Respond(bad_request()),
        Err(error) => Step::Respond(failure(&error)),
    }
}

/// After the provider answered the login: the token, or the failure.
pub fn login_after_provider(outcome: Result<LoginUserResponse, Error>) -> (reply: HttpReply)
    ensures
        match outcome {
            Ok(login) => reply == (HttpReply {
                status: STATUS_OK,
                payload: Payload::LoggedIn(login),
            }),
            Err(error) => {
                &&& reply.status == error.spec_status()
                &&& reply.payload matches Payload::Failure(body) && body.message@
                    == error.spec_reply_message()
            },
        },
{
    match outcome {
        Ok(login) => HttpReply { status: STATUS_OK, payload: Payload::LoggedIn(login) },
        Err(error) => failure(&error),
    }
}

/// A change of password begins with the question whether the user exists
/// locally.
pub fn change_password_begin(data: &UpdatePasswordData) -> (step: Step)
    ensures
        step == Step::AskDatabase(Message::CheckUser(CheckUser { id: data.user_id })),
{
    ask_whether_user_exists(&data.user_id)
}

/// After the data access service said whether the user exists. For a user
/// who exists the provider is asked to start the change; one who does not is
/// a bad request; a failure to find out is reported as it is.
pub fn change_password_after_check(
    service: &Auth0Service,
    data: UpdatePasswordData,
    answer: Result<bool, Error>,
) -> (step: Step)
    ensures
        match answer {
            Ok(true) => step matches Step::AskProvider(url, ProviderCall::ChangePassword(body))
                && {
                &&& url@ == spec_endpoint(service@.client_url, CHANGE_PASSWORD_URL@)
                &&& body.client_id@ == service@.client_id
                &&& body.client_secret@ == service@.client_secret
                &&& body.audience@ == service@.audience
                &&& body.grant_type@ == GRANT_TYPE_PASS@
                &&& body.user_id == data.user_id
                &&& body.connection@ == service@.connection
                &&& body.scope is None
                &&& body.extra.email == data.email
            },
            Ok(false) => step == Step::Respond(
                HttpReply { status: STATUS_BAD_REQUEST, payload: Payload::Empty },
            ),
            Err(error) => step matches Step::Respond(reply) && {
                &&& reply.status == error.spec_status()
                &&& reply.payload matches Payload::Failure(body) && body.message@
                    == error.spec_reply_message()
            },
        },
{
    match answer {
        Ok(true) => {
            let url = service.change_password_url();
            match service.build_body_for_change_password(data.user_id, data.email) {
                Ok(body) => Step::AskProvider(url, ProviderCall::ChangePassword(body)),
                Err(error) => Step::Respond(failure(&error)),
            }
        },
        Ok(false) => Step::Respond(bad_request()),
        Err(error) => Step::Respond(failure(&error)),
    }
}

/// After the provider was asked to start the change: a confirmation, or
/// the failure.
pub fn change_password_after_provider(sent: Result<(), Error>) -> (reply: HttpReply)
    ensures
        match sent {
            Ok(_) => reply.status == STATUS_OK && (reply.payload matches Payload::Text(text)
                && text@ == PASSWORD_CHANGE_SENT@),
            Err(error) => {
                &&& reply.status == error.spec_status()
                &&& reply.payload matches Payload::Failure(body) && body.message@
                    == error.spec_reply_message()
            },
        },
{
    match sent {
        Ok(_) => HttpReply {
            status: STATUS_OK,
            payload: Payload::Text(String::from_str(PASSWORD_CHANGE_SENT)),
        },
        Err(error) => failure(&error),
    }
}

/// After the caller's token was put to verification. A caller whose token
/// verified is looked up locally under the identifier it yields; any other
/// is unauthorized, whatever the reason.
pub fn profile_after_verification(verified: Result<String, Error>) -> (step: Step)
    ensures
        match verified {
            Ok(id) => step == Step::AskDatabase(Message::CheckUser(CheckUser { id })),
            Err(_) => step == Step::Respond(
                HttpReply { status: STATUS_UNAUTHORIZED, payload: Payload::Empty },
            ),
        },
{
    match verified {
        Ok(id) => Step::AskDatabase(Message::CheckUser(CheckUser { id })),
        Err(_) => Step::Respond(unauthorized()),
    }
}

/// A request for a profile begins with the caller's token. Without an
/// `Authorization` header, or with one that carries no bearer token, the
/// caller is unauthorized and nothing else happens. With a token the
/// verifier decides: the caller is looked up locally under the
/// identifier, or is unauthorized.
pub fn profile_begin(service: &Auth0Service, authorization: Option<&str>) -> (step: Step)
    ensures
        spec_bearer_token(spec_header(authorization)) is None ==> step == Step::Respond(
            HttpReply { status: STATUS_UNAUTHORIZED, payload: Payload::Empty },
        ),
        step == Step::Respond(HttpReply { status: STATUS_UNAUTHORIZED, payload: Payload::Empty })
            || step matches Step::AskDatabase(Message::CheckUser(_)),
{
    match bearer_token(authorization) {
        Some(token) => profile_after_verification(service.extract_user_id(token.as_str())),
        None => Step::Respond(unauthorized()),
    }
}

/// After the data access service said whether the caller exists. For a
/// caller who exists the provider is asked for the profile, the caller's
/// token presented as it came; one who does not is a bad request; a failure
/// to find out is reported as it is.
pub fn profile_after_check(service: &Auth0Service, access_token: &str, answer: Result<
    bool,
    Error,
>) -> (step: Step)
    ensures
        match answer {
            Ok(true) => step matches Step::AskProvider(url, ProviderCall::Profile(header)) && {
                &&& url@ == spec_endpoint(service@.client_url, GET_PROFILE_URL@)
                &&& header@ == spec_bearer(access_token@)
            },
            Ok(false) => step == Step::Respond(
                HttpReply { status: STATUS_BAD_REQUEST, payload: Payload::Empty },
            ),
            Err(error) => step matches Step::Respond(reply) && {
                &&& reply.status == error.spec_status()
                &&& reply.payload matches Payload::Failure(body) && body.message@
                    == error.spec_reply_message()
            },
        },
{
    match answer {
        Ok(true) => Step::AskProvider(
            service.profile_url(),
            ProviderCall::Profile(bearer(access_token)),
        ),
        Ok(false) => Step::Respond(bad_request()),
        Err(error) => Step::Respond(failure(&error)),
    }
}

/// After the provider answered: the profile as it came, or the failure.
pub fn profile_after_provider(outcome: Result<String, Error>) -> (reply: HttpReply)
    ensures
        match outcome {
            Ok(profile) => reply == (HttpReply {
                status: STATUS_OK,
                payload: Payload::Profile(profile),
            }),
            Err(error) => {
                &&& reply.status == error.spec_status()
                &&& reply.payload matches Payload::Failure(body) && body.message@
                    == error.spec_reply_message()
            },
        },
{
    match outcome {
        Ok(profile) => HttpReply { status: STATUS_OK, payload: Payload::Profile(profile) },
        Err(error) => failure(&error),
    }
}

} // verus!
