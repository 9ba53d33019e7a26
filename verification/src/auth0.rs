//! The identity provider's side of the gateway: where its endpoints are,
//! what is sent to them, and what is made of their answers. Sending is left
//! to the caller; everything around it is decided here.

use crate::errors::Error;
use crate::json::{
    json_text_members, json_unsigned_members, parse_document, spec_document_member,
    spec_document_unsigned_member, spec_member, spec_unsigned_member, text_member,
    unsigned_member,
};
use crate::models::{
    Auth0LoginResponse, Auth0RegisterResponse, Auth0RequestBuilder, ChangePassFlow,
    ConnectToAuth0, LoginFlow, LoginUserResponse, RegisteredUserData, RegistrationFlow,
    SignupRequest, SignupRequestBuilder, UserData,
};
use crate::token::extract_user_id;
use vstd::prelude::*;
use vstd::string::*;

verus! {

/// The endpoint that registers a user, below the provider's base URL.
pub const REGISTRATION_URL: &'static str = "dbconnections/signup";

/// The endpoint that logs a user in.
pub const LOGIN_URL: &'static str = "oauth/token";

/// The endpoint that starts a change of password.
pub const CHANGE_PASSWORD_URL: &'static str = "dbconnections/change_password";

/// The endpoint that returns a user's profile.
pub const GET_PROFILE_URL: &'static str = "userinfo";

/// The scope asked for at login.
pub const SCOPE: &'static str = "openid";

/// The grant by which a user logs in with a password.
pub const GRANT_TYPE_PASS: &'static str = "password";

/// The member of a login answer that holds the access token.
pub const ACCESS_TOKEN: &'static str = "access_token";

/// The member of a login answer that holds the identity token.
pub const ID_TOKEN: &'static str = "id_token";

/// The member of a login answer that holds the token's lifetime in seconds.
pub const EXPIRES_IN: &'static str = "expires_in";

/// The member of a login answer that holds the kind of token.
pub const TOKEN_TYPE: &'static str = "token_type";

/// The member of a registration answer that holds the new identifier.
pub const REGISTERED_ID: &'static str = "_id";

/// The header that names the kind of a body.
pub const CONTENT_TYPE: &'static str = "Content-Type";

/// The kind of every body sent to the provider.
pub const APPLICATION_JSON: &'static str = "application/json";

/// The header that carries a bearer token.
pub const AUTHORIZATION: &'static str = "Authorization";

/// An answer of the provider: its status code and its body.
#[derive(Debug, Clone, PartialEq, Eq)]
pub struct ProviderResponse {
    pub status: u16,
    pub body: String,
}

/// A status code that reports success.
pub open spec fn spec_is_success(status: u16) -> bool {
    200 <= status < 300
}

/// Whether a status code reports success.
pub fn is_success(status: u16) -> (success: bool)
    ensures
        success == spec_is_success(status),
{
    200 <= status && status < 300
}

/// The address of `endpoint` below `base`.
pub open spec fn spec_endpoint(base: Seq<char>, endpoint: Seq<char>) -> Seq<char> {
    base + "/"@ + endpoint
}

/// The value of the header that presents `access_token` as a bearer token.
pub open spec fn spec_bearer(access_token: Seq<char>) -> Seq<char> {
    "Bearer "@ + access_token
}

/// The value of the header that presents `access_token` as a bearer token.
pub fn bearer(access_token: &str) -> (header: String)
    ensures
        header@ == spec_bearer(access_token@),
{
    String::from_str("Bearer ").concat(access_token)
}

/// Reads the provider's answer to a registration from a parsed document:
/// the new identifier, where the document holds one in text.
pub fn registered_of(document: &serde_json::Value) -> (registered: Option<Auth0RegisterResponse>)
    ensures
        match spec_member(json_text_members(*document), REGISTERED_ID@) {
            Some(id) => registered matches Some(read) && read._id@ == id,
            None => registered is None,
        },
{
    match text_member(document, REGISTERED_ID) {
        Some(id) => Some(Auth0RegisterResponse { _id: id }),
        None => None,
    }
}

/// What is made of the provider's answer to a registration: the new
/// identifier where the answer reports success and holds one, the body as a
/// `StringError` where it reports failure.
pub open spec fn spec_registration_outcome(status: u16, body: Seq<char>) -> Result<
    Seq<char>,
    Option<Seq<char>>,
> {
    if spec_is_success(status) {
        match spec_document_member(body, REGISTERED_ID@) {
            Some(id) => Ok(id),
            None => Err(None),
        }
    } else {
        Err(Some(body))
    }
}

/// The reason given for a registration answer that holds no identifier.
pub const MISSING_REGISTERED_ID: &'static str = "missing field `_id`";

/// Interprets the provider's answer to a registration. A success that
/// holds the new identifier yields it. A success without one is a
/// `SerdeJsonError`. A failure is a `StringError` that carries the body.
pub fn registration_outcome(response: &ProviderResponse) -> (outcome: Result<
    Auth0RegisterResponse,
    Error,
>)
    ensures
        match spec_registration_outcome(response.status, response.body@) {
            Ok(id) => outcome matches Ok(registered) && registered._id@ == id,
            Err(Some(body)) => outcome matches Err(Error::StringError(text)) && text@ == body,
            Err(None) => outcome matches Err(Error::SerdeJsonError(_)),
        },
{
    if is_success(response.status) {
        match parse_document(response.body.as_str()) {
            Ok(document) => match registered_of(&document) {
                Some(registered) => Ok(registered),
                None => Err(Error::SerdeJsonError(String::from_str(MISSING_REGISTERED_ID))),
            },
            Err(reason) => Err(Error::SerdeJsonError(reason)),
        }
    } else {
        Err(Error::StringError(response.body.clone()))
    }
}

/// Interprets the provider's answer to a request for a change of password.
/// The answer holds nothing to read: a success is done, and a failure is a
/// `StringError` that carries the body.
pub fn change_password_outcome(response: &ProviderResponse) -> (outcome: Result<(), Error>)
    ensures
        if spec_is_success(response.status) {
            outcome is Ok
        } else {
            outcome matches Err(Error::StringError(text)) && text@ == response.body@
        },
{
    if is_success(response.status) {
        Ok(())
    } else {
        Err(Error::StringError(response.body.clone()))
    }
}

/// Reads the token of a user who logged in from a parsed document: the
/// access token, where the document holds one in text.
pub fn login_of(document: &serde_json::Value) -> (login: Option<LoginUserResponse>)
    ensures
        match spec_member(json_text_members(*document), ACCESS_TOKEN@) {
            Some(token) => login matches Some(read) && read.token@ == token,
            None => login is None,
        },
{
    match text_member(document, ACCESS_TOKEN) {
        Some(token) => Some(LoginUserResponse { token }),
        None => None,
    }
}

/// Interprets the body of the provider's answer to a login: the access
/// token where the body holds one, `InvalidToken` otherwise.
pub fn login_outcome(body: &str) -> (outcome: Result<LoginUserResponse, Error>)
    ensures
        match spec_document_member(body@, ACCESS_TOKEN@) {
            Some(token) => outcome matches Ok(login) && login.token@ == token,
            None => outcome matches Err(Error::InvalidToken),
        },
{
    match parse_document(body) {
        Ok(document) => match login_of(&document) {
            Some(login) => Ok(login),
            None => Err(Error::InvalidToken),
        },
        Err(_) => Err(Error::InvalidToken),
    }
}

/// A login answer is complete when it holds all four of its members: the
/// access token, the identity token and the kind of token in text, and the
/// lifetime as a whole number.
pub open spec fn spec_complete(texts: Map<Seq<char>, Seq<char>>, numbers: Map<Seq<char>, u64>) -> bool {
    &&& spec_member(texts, ACCESS_TOKEN@) is Some
    &&& spec_member(texts, ID_TOKEN@) is Some
    &&& spec_unsigned_member(numbers, EXPIRES_IN@) is Some
    &&& spec_member(texts, TOKEN_TYPE@) is Some
}

/// Reads the provider's answer to a login in full from a parsed document.
/// `None` unless the document is complete.
pub fn login_response_of(document: &serde_json::Value) -> (answer: Option<Auth0LoginResponse>)
    ensures
        answer.is_some() == spec_complete(
            json_text_members(*document),
            json_unsigned_members(*document),
        ),
        answer matches Some(login) ==> {
            &&& login.access_token@ == json_text_members(*document)[ACCESS_TOKEN@]
            &&& login.id_token@ == json_text_members(*document)[ID_TOKEN@]
            &&& login.expires_in == json_unsigned_members(*document)[EXPIRES_IN@]
            &&& login.token_type@ == json_text_members(*document)[TOKEN_TYPE@]
        },
{
    let access_token = match text_member(document, ACCESS_TOKEN) {
        Some(value) => value,
        None => {
            return None;
        },
    };
    let id_token = match text_member(document, ID_TOKEN) {
        Some(value) => value,
        None => {
            return None;
        },
    };
    let expires_in: u64 = match unsigned_member(document, EXPIRES_IN) {
        Some(value) => value,
        None => {
            return None;
        },
    };
    let token_type = match text_member(document, TOKEN_TYPE) {
        Some(value) => value,
        None => {
            return None;
        },
    };
    Some(Auth0LoginResponse { access_token, id_token, expires_in, token_type })
}

/// The body spells a login answer that is complete.
pub open spec fn spec_login_complete(body: Seq<char>) -> bool {
    &&& spec_document_member(body, ACCESS_TOKEN@) is Some
    &&& spec_document_member(body, ID_TOKEN@) is Some
    &&& spec_document_unsigned_member(body, EXPIRES_IN@) is Some
    &&& spec_document_member(body, TOKEN_TYPE@) is Some
}

/// Reads the provider's answer to a login in full. `None` unless the body
/// is a document that holds the access token, the identity token, the
/// lifetime and the kind of token.
pub fn login_response(body: &str) -> (answer: Option<Auth0LoginResponse>)
    ensures
        answer.is_some() == spec_login_complete(body@),
        answer matches Some(login) ==> {
            &&& login.access_token@ == spec_document_member(body@, ACCESS_TOKEN@).unwrap()
            &&& login.id_token@ == spec_document_member(body@, ID_TOKEN@).unwrap()
            &&& login.expires_in == spec_document_unsigned_member(body@, EXPIRES_IN@).unwrap()
            &&& login.token_type@ == spec_document_member(body@, TOKEN_TYPE@).unwrap()
        },
{
    match parse_document(body) {
        Ok(document) => login_response_of(&document),
        Err(_) => None,
    }
}

/// The access token of a login answer that is complete; `InvalidToken`
/// for any other body.
pub fn token_outcome(body: &str) -> (outcome: Result<String, Error>)
    ensures
        if spec_login_complete(body@) {
            outcome matches Ok(token) && token@ == spec_document_member(
                body@,
                ACCESS_TOKEN@,
            ).unwrap()
        } else {
            outcome matches Err(Error::InvalidToken)
        },
{
    match login_response(body) {
        Some(login) => Ok(login.access_token),
        None => Err(Error::InvalidToken),
    }
}

/// Interprets what came of asking the provider for a profile. An answer
/// that reports success yields its body, to be passed on as it is. An
/// answer that reports failure, and a request that could not be made, are a
/// `StringError` that carries the body or the reason.
pub fn profile_outcome(response: Result<ProviderResponse, String>) -> (outcome: Result<
    String,
    Error,
>)
    ensures
        match response {
            Ok(answer) => if spec_is_success(answer.status) {
                outcome == Ok::<String, Error>(answer.body)
            } else {
                outcome == Err::<String, Error>(Error::StringError(answer.body))
            },
            Err(reason) => outcome == Err::<String, Error>(Error::StringError(reason)),
        },
{
    match response {
        Ok(answer) => if is_success(answer.status) {
            Ok(answer.body)
        } else {
            Err(Error::StringError(answer.body))
        },
        Err(reason) => Err(Error::StringError(reason)),
    }
}

/// What the service knows of the provider, as mathematical values.
pub struct Auth0ServiceView {
    pub client_id: Seq<char>,
    pub client_secret: Seq<char>,
    pub connection: Seq<char>,
    pub client_url: Seq<char>,
    pub audience: Seq<char>,
}

/// The gateway's account with the identity provider, and the key and
/// audience by which the provider's tokens are verified.
pub struct Auth0Service {
    client_id: String,
    client_secret: String,
    connection: String,
    client_url: String,
    audience: String,
    decoding_key: jsonwebtoken::DecodingKey,
}

impl View for Auth0Service {
    type V = Auth0ServiceView;

    closed spec fn view(&self) -> Auth0ServiceView {
        Auth0ServiceView {
            client_id: self.client_id@,
            client_secret: self.client_secret@,
            connection: self.connection@,
            client_url: self.client_url@,
            audience: self.audience@,
        }
    }
}

impl Auth0Service {
    /// The key that signatures are checked against.
    pub closed spec fn spec_decoding_key(&self) -> jsonwebtoken::DecodingKey {
        self.decoding_key
    }

    /// A service for this account, base URL, audience and key.
    pub fn new(
        client_id: String,
        client_secret: String,
        connection: String,
        client_url: String,
        audience: String,
        decoding_key: jsonwebtoken::DecodingKey,
    ) -> (service: Self)
        ensures
            service@ == (Auth0ServiceView {
                client_id: client_id@,
                client_secret: client_secret@,
                connection: connection@,
                client_url: client_url@,
                audience: audience@,
            }),
            service.spec_decoding_key() == decoding_key,
    {
        Auth0Service { client_id, client_secret, connection, client_url, audience, decoding_key }
    }

    /// The address of `endpoint` at the provider.
    pub fn endpoint_url(&self, endpoint: &str) -> (url: String)
        ensures
            url@ == spec_endpoint(self@.client_url, endpoint@),
    {
        self.client_url.clone().concat("/").concat(endpoint)
    }

    /// The address to which registrations are sent.
    pub fn registration_url(&self) -> (url: String)
        ensures
            url@ == spec_endpoint(self@.client_url, REGISTRATION_URL@),
    {
        self.endpoint_url(REGISTRATION_URL)
    }

    /// The address to which logins are sent.
    pub fn login_url(&self) -> (url: String)
        ensures
            url@ == spec_endpoint(self@.client_url, LOGIN_URL@),
    {
        self.endpoint_url(LOGIN_URL)
    }

    /// The address to which changes of password are sent.
    pub fn change_password_url(&self) -> (url: String)
        ensures
            url@ == spec_endpoint(self@.client_url, CHANGE_PASSWORD_URL@),
    {
        self.endpoint_url(CHANGE_PASSWORD_URL)
    }

    /// The address at which profiles are asked for.
    pub fn profile_url(&self) -> (url: String)
        ensures
            url@ == spec_endpoint(self@.client_url, GET_PROFILE_URL@),
    {
        self.endpoint_url(GET_PROFILE_URL)
    }

    /// Gives `body` what identifies the gateway to the provider: the client
    /// identifier and secret, the audience and the connection.
    pub fn build_base_request<T>(&self, body: Auth0RequestBuilder<T>) -> (based: Auth0RequestBuilder<
        T,
    >)
        ensures
            based.client_id matches Some(value) && value@ == self@.client_id,
            based.client_secret matches Some(value) && value@ == self@.client_secret,
            based.audience matches Some(value) && value@ == self@.audience,
            based.connection matches Some(value) && value@ == self@.connection,
            based.grant_type == body.grant_type,
            based.user_id == body.user_id,
            based.scope == body.scope,
            based.extra == body.extra,
    {
        body.client_id(self.client_id.clone()).client_secret(self.client_secret.clone()).audience(
            self.audience.clone(),
        ).connection(self.connection.clone())
    }

    /// The body that asks the provider to start a change of password for
    /// the user `user_id` with this email.
    pub fn build_body_for_change_password(&self, user_id: String, email: String) -> (body: Result<
        ConnectToAuth0<ChangePassFlow>,
        Error,
    >)
        ensures
            body matches Ok(request) && {
                &&& request.client_id@ == self@.client_id
                &&& request.client_secret@ == self@.client_secret
                &&& request.audience@ == self@.audience
                &&& request.grant_type@ == GRANT_TYPE_PASS@
                &&& request.user_id == user_id
                &&& request.connection@ == self@.connection
                &&& request.scope is None
                &&& request.extra.email == email
            },
    {
        let body = Auth0RequestBuilder::new();
        let body = self.build_base_request(body).grant_type(
            String::from_str(GRANT_TYPE_PASS),
        ).user_id(user_id).extra(ChangePassFlow { email });
        body.build()
    }

    /// The body that logs `user` in at the provider.
    pub fn build_body_for_login(&self, user: RegisteredUserData) -> (body: Result<
        ConnectToAuth0<LoginFlow>,
        Error,
    >)
        ensures
            body matches Ok(request) && {
                &&& request.client_id@ == self@.client_id
                &&& request.client_secret@ == self@.client_secret
                &&& request.audience@ == self@.audience
                &&& request.grant_type@ == GRANT_TYPE_PASS@
                &&& request.user_id == user.id
                &&& request.connection@ == self@.connection
                &&& request.scope matches Some(scope) && scope@ == SCOPE@
                &&& request.extra.username == user.username
                &&& request.extra.password == user.password
            },
    {
        let body = Auth0RequestBuilder::new();
        let body = self.build_base_request(body).grant_type(
            String::from_str(GRANT_TYPE_PASS),
        ).user_id(user.id).scope(String::from_str(SCOPE)).extra(
            LoginFlow { username: user.username, password: user.password },
        );
        body.build()
    }

    /// The body that registers a user with the provider.
    pub fn build_body_for_register(&self, password: String, email: String, username: String) -> (body:
        Result<SignupRequest, Error>)
        ensures
            body matches Ok(request) && {
                &&& request.client_id@ == self@.client_id
                &&& request.username == username
                &&& request.password == password
                &&& request.email == email
                &&& request.connection@ == self@.connection
            },
    {
        let body = SignupRequestBuilder::new();
        let body = body.client_id(self.client_id.clone()).email(email).password(password).connection(
            self.connection.clone(),
        ).username(username);
        body.build()
    }

    /// The body that registers `user` with the provider.
    pub fn registration_body(&self, user: UserData) -> (body: Result<SignupRequest, Error>)
        ensures
            body matches Ok(request) && {
                &&& request.client_id@ == self@.client_id
                &&& request.username == user.username
                &&& request.password == user.password
                &&& request.email == user.email
                &&& request.connection@ == self@.connection
            },
    {
        self.build_body_for_register(user.password, user.email, user.username)
    }

    /// The body of a registration made on behalf of the user `user_id`,
    /// with the account and the user's data spelled out in full.
    pub fn generate_body_for_registration(
        &self,
        user_id: String,
        username: String,
        password: String,
        email: String,
    ) -> (body: ConnectToAuth0<RegistrationFlow>)
        ensures
            body.client_id@ == self@.client_id,
            body.client_secret@ == self@.client_secret,
            body.audience@ == self@.audience,
            body.grant_type@ == GRANT_TYPE_PASS@,
            body.user_id == user_id,
            body.connection@ == self@.connection,
            body.scope is None,
            body.extra.client_id@ == self@.client_id,
            body.extra.client_secret@ == self@.client_secret,
            body.extra.connection@ == self@.connection,
            body.extra.username == username,
            body.extra.password == password,
            body.extra.email == email,
    {
        ConnectToAuth0 {
            client_id: self.client_id.clone(),
            client_secret: self.client_secret.clone(),
            audience: self.audience.clone(),
            grant_type: String::from_str(GRANT_TYPE_PASS),
            user_id,
            connection: self.connection.clone(),
            scope: None,
            extra: RegistrationFlow {
                client_id: self.client_id.clone(),
                client_secret: self.client_secret.clone(),
                password,
                email,
                connection: self.connection.clone(),
                username,
            },
        }
    }

    /// The body of a login made on behalf of the user `user_id`, without a
    /// scope.
    pub fn generate_body_for_login(&self, user_id: String, username: String, password: String) -> (body:
        ConnectToAuth0<LoginFlow>)
        ensures
            body.client_id@ == self@.client_id,
            body.client_secret@ == self@.client_secret,
            body.audience@ == self@.audience,
            body.grant_type@ == GRANT_TYPE_PASS@,
            body.user_id == user_id,
            body.connection@ == self@.connection,
            body.scope is None,
            body.extra.username == username,
            body.extra.password == password,
    {
        ConnectToAuth0 {
            client_id: self.client_id.clone(),
            client_secret: self.client_secret.clone(),
            audience: self.audience.clone(),
            grant_type: String::from_str(GRANT_TYPE_PASS),
            user_id,
            connection: self.connection.clone(),
            scope: None,
            extra: LoginFlow { username, password },
        }
    }

    /// The body of a change of password made on behalf of the user
    /// `user_id`.
    pub fn generate_body_for_change_password(&self, user_id: String, email: String) -> (body:
        ConnectToAuth0<ChangePassFlow>)
        ensures
            body.client_id@ == self@.client_id,
            body.client_secret@ == self@.client_secret,
            body.audience@ == self@.audience,
            body.grant_type@ == GRANT_TYPE_PASS@,
            body.user_id == user_id,
            body.connection@ == self@.connection,
            body.scope is None,
            body.extra.email == email,
    {
        ConnectToAuth0 {
            client_id: self.client_id.clone(),
            client_secret: self.client_secret.clone(),
            audience: self.audience.clone(),
            grant_type: String::from_str(GRANT_TYPE_PASS),
            user_id,
            connection: self.connection.clone(),
            scope: None,
            extra: ChangePassFlow { email },
        }
    }

    /// The key that signatures are checked against.
    pub fn decoding_key(&self) -> (key: &jsonwebtoken::DecodingKey)
        ensures
            *key == self.spec_decoding_key(),
    {
        &self.decoding_key
    }

    /// The audience that tokens must name.
    pub fn audience(&self) -> (audience: &str)
        ensures
            audience@ == self@.audience,
    {
        self.audience.as_str()
    }

    /// Verifies `token` against the service's key and audience and
    /// extracts the local identifier of its subject. Whatever the outcome, a
    /// failure is a `JsonWebTokenError`.
    pub fn extract_user_id(&self, token: &str) -> (verified: Result<String, Error>)
        ensures
            verified matches Err(error) ==> error is JsonWebTokenError,
    {
        extract_user_id(token, &self.decoding_key, self.audience.as_str())
    }
}

} // verus!
