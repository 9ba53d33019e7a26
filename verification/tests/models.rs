use auth_service::errors::{BuildError, Error, ErrorMessageResponse};
use auth_service::logfmt::{find_first, find_last, parse_thread_id};
use auth_service::models::{
    Auth0RequestBuilder, ChangePassFlow, ConnectToAuth0, LoginFlow, SignInRequest,
    SignInRequestBuilder, SignupRequest, SignupRequestBuilder,
};
use auth_service::opts::{ConfigPath, Opts};
use auth_service::text::{has_prefix_at, remove_prefix, same_text, strip_prefix};

fn s(text: &str) -> String {
    text.to_string()
}

fn build_error<T: std::fmt::Debug>(built: Result<T, Error>) -> BuildError {
    match built {
        Err(Error::Auth0RequestBuildError(missing)) => missing,
        other => panic!("not a build error: {:?}", other),
    }
}

#[test]
fn signup_builder_builds_what_it_was_given() {
    let built = SignupRequestBuilder::new()
        .client_id(s("cid"))
        .username(s("alice"))
        .password(s("p"))
        .email(s("a@x.com"))
        .connection(s("conn"))
        .build();
    assert_eq!(
        built,
        Ok(SignupRequest {
            client_id: s("cid"),
            username: s("alice"),
            password: s("p"),
            email: s("a@x.com"),
            connection: s("conn"),
        })
    );
}

#[test]
fn signup_builder_keeps_the_last_value() {
    let builder = SignupRequestBuilder::new().email(s("first")).email(s("second"));
    assert_eq!(builder.email, Some(s("second")));
    assert_eq!(builder.client_id, None);
    assert_eq!(builder.username, None);
    assert_eq!(builder.password, None);
    assert_eq!(builder.connection, None);
}

#[test]
fn signup_builder_names_the_first_missing_field() {
    assert_eq!(build_error(SignupRequestBuilder::new().build()), BuildError::MissingClientId);
    let b = SignupRequestBuilder::new().client_id(s("c"));
    assert_eq!(build_error(b.clone().build()), BuildError::MissingUsername);
    let b = b.username(s("u"));
    assert_eq!(build_error(b.clone().build()), BuildError::MissingPassword);
    let b = b.password(s("p"));
    assert_eq!(build_error(b.clone().build()), BuildError::MissingEmail);
    let b = b.email(s("e"));
    assert_eq!(build_error(b.clone().build()), BuildError::MissingConnection);
    assert!(b.connection(s("n")).build().is_ok());
    let gap = SignupRequestBuilder::new().connection(s("n")).email(s("e")).username(s("u"));
    assert_eq!(build_error(gap.build()), BuildError::MissingClientId);
    let gap = SignupRequestBuilder::new().client_id(s("c")).connection(s("n")).email(s("e"));
    assert_eq!(build_error(gap.build()), BuildError::MissingUsername);
}

#[test]
fn signin_builder_builds_what_it_was_given() {
    let built = SignInRequestBuilder::new()
        .grant_type(s("password"))
        .audience(s("aud"))
        .client_secret(s("sec"))
        .client_id(s("cid"))
        .build();
    assert_eq!(
        built,
        Ok(SignInRequest {
            client_id: s("cid"),
            client_secret: s("sec"),
            audience: s("aud"),
            grant_type: s("password"),
        })
    );
}

#[test]
fn signin_builder_names_the_first_missing_field() {
    assert_eq!(build_error(SignInRequestBuilder::new().build()), BuildError::MissingClientId);
    let b = SignInRequestBuilder::new().client_id(s("c"));
    assert_eq!(build_error(b.clone().build()), BuildError::MissingClientSecret);
    let b = b.client_secret(s("x"));
    assert_eq!(build_error(b.clone().build()), BuildError::MissingAudience);
    let b = b.audience(s("a"));
    assert_eq!(build_error(b.clone().build()), BuildError::MissingGrantType);
    assert!(b.grant_type(s("g")).build().is_ok());
}

#[test]
fn request_builder_builds_with_and_without_scope() {
    let base = Auth0RequestBuilder::new()
        .client_id(s("cid"))
        .client_secret(s("sec"))
        .audience(s("aud"))
        .grant_type(s("password"))
        .user_id(s("u1"))
        .connection(s("conn"))
        .extra(ChangePassFlow { email: s("a@x.com") });
    assert_eq!(
        base.clone().build(),
        Ok(ConnectToAuth0 {
            client_id: s("cid"),
            client_secret: s("sec"),
            audience: s("aud"),
            grant_type: s("password"),
            user_id: s("u1"),
            connection: s("conn"),
            scope: None,
            extra: ChangePassFlow { email: s("a@x.com") },
        })
    );
    let scoped = base.scope(s("openid")).build().expect("every field was given");
    assert_eq!(scoped.scope, Some(s("openid")));
    assert_eq!(scoped.extra, ChangePassFlow { email: s("a@x.com") });
}

#[test]
fn request_builder_names_the_first_missing_field() {
    let login = || LoginFlow { username: s("u"), password: s("p") };
    let b = Auth0RequestBuilder::<LoginFlow>::new();
    assert_eq!(build_error(b.clone().build()), BuildError::MissingClientId);
    let b = b.client_id(s("c"));
    assert_eq!(build_error(b.clone().build()), BuildError::MissingClientSecret);
    let b = b.client_secret(s("x"));
    assert_eq!(build_error(b.clone().build()), BuildError::MissingAudience);
    let b = b.audience(s("a"));
    assert_eq!(build_error(b.clone().build()), BuildError::MissingGrantType);
    let b = b.grant_type(s("g"));
    assert_eq!(build_error(b.clone().build()), BuildError::MissingUserId);
    let b = b.user_id(s("u"));
    assert_eq!(build_error(b.clone().build()), BuildError::MissingConnection);
    let b = b.connection(s("n"));
    assert_eq!(build_error(b.clone().build()), BuildError::MissingExtra);
    let b = b.extra(login());
    assert!(b.build().is_ok());
    let only_scope = Auth0RequestBuilder::<LoginFlow>::new().scope(s("openid")).extra(login());
    assert_eq!(build_error(only_scope.build()), BuildError::MissingClientId);
}

#[test]
fn build_errors_have_their_texts() {
    assert_eq!(BuildError::MissingClientId.message(), "Missing client id");
    assert_eq!(BuildError::MissingClientSecret.message(), "Missing client secret");
    assert_eq!(BuildError::MissingAudience.message(), "Missing audience");
    assert_eq!(BuildError::MissingGrantType.message(), "Missing grant type");
    assert_eq!(BuildError::MissingUserId.message(), "Missing user id");
    assert_eq!(BuildError::MissingConnection.message(), "Missing connection");
    assert_eq!(BuildError::MissingExtra.message(), "Missing extra");
    assert_eq!(BuildError::MissingEmail.message(), "Missing email");
    assert_eq!(BuildError::MissingPassword.message(), "Missing password");
    assert_eq!(BuildError::MissingUsername.message(), "Missing username");
}

#[test]
fn errors_have_their_texts() {
    assert_eq!(Error::Io(s("gone")).message(), "IO error: gone");
    assert_eq!(Error::Parse(s("bad digit")).message(), "Parse error: bad digit");
    assert_eq!(Error::InvalidInput(s("x")).message(), "Invalid input: x");
    assert_eq!(Error::InvalidInput(s("")).message(), "Invalid input: ");
    assert_eq!(Error::PoolError(s("timeout")).message(), "timeout");
    assert_eq!(Error::DatabaseError(s("db")).message(), "db");
    assert_eq!(Error::BuildError(s("b")).message(), "b");
    assert_eq!(Error::DieselError(s("d")).message(), "d");
    assert_eq!(Error::DuplicateUser.message(), "User already registered");
    assert_eq!(Error::SetLoggerError(s("l")).message(), "l");
    assert_eq!(Error::ParseLevelError(s("pl")).message(), "pl");
    assert_eq!(Error::MailboxError(s("closed")).message(), "closed");
    assert_eq!(Error::ReqwestError(s("r")).message(), "r");
    assert_eq!(Error::InvalidToken.message(), "Cannot get token from Auth0");
    assert_eq!(Error::SerdeJsonError(s("eof")).message(), "eof");
    assert_eq!(Error::ToStrError(s("t")).message(), "t");
    assert_eq!(Error::DotenvError(s("e")).message(), "e");
    assert_eq!(Error::JsonWebTokenError(s("InvalidSignature")).message(), "InvalidSignature");
    assert_eq!(Error::StringError(s("denied")).message(), "Error: denied");
    assert_eq!(Error::ConfigError(s("c")).message(), "c");
    assert_eq!(
        Error::Auth0RequestBuildError(BuildError::MissingExtra).message(),
        "Missing extra"
    );
}

#[test]
fn errors_have_their_status() {
    assert_eq!(Error::Io(s("x")).status(), 400);
    assert_eq!(Error::Parse(s("x")).status(), 400);
    assert_eq!(Error::InvalidInput(s("x")).status(), 400);
    assert_eq!(Error::DuplicateUser.status(), 400);
    assert_eq!(Error::JsonWebTokenError(s("x")).status(), 401);
    assert_eq!(Error::ToStrError(s("x")).status(), 401);
    assert_eq!(Error::PoolError(s("x")).status(), 500);
    assert_eq!(Error::DatabaseError(s("x")).status(), 500);
    assert_eq!(Error::BuildError(s("x")).status(), 500);
    assert_eq!(Error::DieselError(s("x")).status(), 500);
    assert_eq!(Error::SetLoggerError(s("x")).status(), 500);
    assert_eq!(Error::ParseLevelError(s("x")).status(), 500);
    assert_eq!(Error::MailboxError(s("x")).status(), 500);
    assert_eq!(Error::ReqwestError(s("x")).status(), 500);
    assert_eq!(Error::InvalidToken.status(), 500);
    assert_eq!(Error::SerdeJsonError(s("x")).status(), 500);
    assert_eq!(Error::DotenvError(s("x")).status(), 500);
    assert_eq!(Error::StringError(s("x")).status(), 500);
    assert_eq!(Error::ConfigError(s("x")).status(), 500);
    assert_eq!(Error::Auth0RequestBuildError(BuildError::MissingEmail).status(), 500);
}

#[test]
fn mailbox_and_query_failures_are_told_apart() {
    assert!(!Error::MailboxError(s("closed")).was_attempted());
    assert!(!Error::PoolError(s("timeout")).was_attempted());
    assert!(!Error::DatabaseError(s("x")).was_attempted());
    assert!(Error::DieselError(s("constraint")).was_attempted());
    assert!(Error::DuplicateUser.was_attempted());
    assert!(!Error::InvalidToken.was_attempted());
}

#[test]
fn error_replies_carry_status_and_text() {
    let reply = Error::InvalidInput(s("no id")).error_response();
    assert_eq!(reply.status, 400);
    assert_eq!(reply.body.message, "Invalid input: no id");
    let reply = Error::MailboxError(s("closed")).error_response();
    assert_eq!(reply.status, 500);
    assert_eq!(reply.body.message, "closed");
    let reply = Error::JsonWebTokenError(s("ExpiredSignature")).error_response();
    assert_eq!(reply.status, 401);
    assert_eq!(reply.body.message, "Unauthorized");
    let reply = Error::DuplicateUser.error_response();
    assert_eq!(reply.status, 400);
    assert_eq!(reply.body.message, "User already registered");
}

#[test]
fn failed_verification_is_one_reply_whatever_the_reason() {
    let expired = Error::JsonWebTokenError(s("ExpiredSignature")).error_response();
    let forged = Error::JsonWebTokenError(s("InvalidSignature")).error_response();
    let other_audience = Error::JsonWebTokenError(s("InvalidAudience")).error_response();
    let malformed = Error::JsonWebTokenError(s("InvalidToken")).error_response();
    let not_text = Error::ToStrError(s("failed to convert header to a str")).error_response();
    assert_eq!(expired.status, 401);
    assert_eq!(expired.body.message, "Unauthorized");
    assert_eq!(expired, forged);
    assert_eq!(expired, other_audience);
    assert_eq!(expired, malformed);
    assert_eq!(expired, not_text);
    assert_eq!(Error::JsonWebTokenError(s("ExpiredSignature")).message(), "ExpiredSignature");
}

#[test]
fn malformed_json_is_reported_without_the_parser_text() {
    let reply = Error::SerdeJsonError(s("expected value at line 1 column 1")).error_response();
    assert_eq!(reply.status, 500);
    assert_eq!(reply.body.message, "Incorrect data, please check your request");
}

#[test]
fn replies_are_built_from_status_and_text() {
    let reply = ErrorMessageResponse::response_from(418, &Error::StringError(s("tea")));
    assert_eq!(reply.status, 418);
    assert_eq!(reply.body, ErrorMessageResponse { message: s("Error: tea") });
    let reply = ErrorMessageResponse::response_with_message(404, s("nothing here"));
    assert_eq!(reply.status, 404);
    assert_eq!(reply.body.message, "nothing here");
}

#[test]
fn prefixes_are_found() {
    assert!(has_prefix_at("Bearer x", 0, "Bearer "));
    assert!(has_prefix_at("xBearer x", 1, "Bearer "));
    assert!(!has_prefix_at("xBearer x", 0, "Bearer "));
    assert!(has_prefix_at("abc", 3, ""));
    assert!(has_prefix_at("abc", 0, ""));
    assert!(!has_prefix_at("abc", 3, "c"));
    assert!(has_prefix_at("abc", 2, "c"));
    assert!(!has_prefix_at("ab", 0, "abc"));
    assert!(has_prefix_at("\u{e9}\u{e9}a", 2, "a"));
}

#[test]
fn one_prefix_is_stripped() {
    assert_eq!(strip_prefix("Bearer abc", "Bearer "), Some(s("abc")));
    assert_eq!(strip_prefix("aaa", "a"), Some(s("aa")));
    assert_eq!(strip_prefix("abc", ""), Some(s("abc")));
    assert_eq!(strip_prefix("", ""), Some(s("")));
    assert_eq!(strip_prefix("abc", "abc"), Some(s("")));
    assert_eq!(strip_prefix("abc", "abcd"), None);
    assert_eq!(strip_prefix("abc", "b"), None);
    assert_eq!(strip_prefix("", "a"), None);
    assert_eq!(strip_prefix("\u{fc}ber", "\u{fc}"), Some(s("ber")));
    for (text, prefix) in [("Bearer x", "Bearer "), ("x", "y"), ("", ""), ("aa", "a")] {
        assert_eq!(strip_prefix(text, prefix), text.strip_prefix(prefix).map(String::from));
    }
}

#[test]
fn one_prefix_is_removed_or_the_text_kept() {
    assert_eq!(remove_prefix("aaab", "a"), "aab");
    assert_eq!(remove_prefix("abab-ab", "ab"), "ab-ab");
    assert_eq!(remove_prefix("auth0|auth0|abc", "auth0|"), "auth0|abc");
    assert_eq!(remove_prefix("abc", "abc"), "");
    assert_eq!(remove_prefix("abc", ""), "abc");
    assert_eq!(remove_prefix("", "a"), "");
    assert_eq!(remove_prefix("", ""), "");
    assert_eq!(remove_prefix("b", "abc"), "b");
    assert_eq!(remove_prefix("xab", "ab"), "xab");
    assert_eq!(remove_prefix("\u{e9}\u{e9}x", "\u{e9}"), "\u{e9}x");
    for (text, prefix) in [("Bearer x", "Bearer "), ("x", "y"), ("", ""), ("aa", "a")] {
        assert_eq!(remove_prefix(text, prefix), text.strip_prefix(prefix).unwrap_or(text));
    }
}

#[test]
fn texts_are_compared_by_their_characters() {
    assert!(same_text("", ""));
    assert!(same_text("abc", "abc"));
    assert!(!same_text("abc", "abd"));
    assert!(!same_text("abc", "ab"));
    assert!(!same_text("ab", "abc"));
    assert!(!same_text("abc", "Abc"));
    assert!(same_text("\u{e9}", "\u{e9}"));
    assert!(!same_text("\u{e9}", "e"));
}

#[test]
fn characters_are_found_from_both_ends() {
    assert_eq!(find_first("a(b(c", '('), Some(1));
    assert_eq!(find_last("a(b(c", '('), Some(3));
    assert_eq!(find_first("abc", '('), None);
    assert_eq!(find_last("abc", '('), None);
    assert_eq!(find_first("", 'a'), None);
    assert_eq!(find_last("", 'a'), None);
    assert_eq!(find_first("\u{e9}(", '('), Some(1));
    assert_eq!(find_last(")", ')'), Some(0));
}

#[test]
fn thread_identifier_is_what_the_parentheses_hold() {
    assert_eq!(parse_thread_id("ThreadId(7)"), "7");
    assert_eq!(parse_thread_id("ThreadId(123)"), "123");
    assert_eq!(parse_thread_id("ThreadId()"), "");
    assert_eq!(parse_thread_id("a(b(c)d)e"), "b(c)d");
    assert_eq!(parse_thread_id("(x)"), "x");
    assert_eq!(parse_thread_id("ThreadId 7"), "ThreadId 7");
    assert_eq!(parse_thread_id("ThreadId(7"), "ThreadId(7");
    assert_eq!(parse_thread_id("ThreadId7)"), "ThreadId7)");
    assert_eq!(parse_thread_id(")7("), ")7(");
    assert_eq!(parse_thread_id(""), "");
}

#[test]
fn configuration_file_is_the_first_argument() {
    let args = vec![s("auth-service"), s("config.toml"), s("extra")];
    assert_eq!(Opts::get_from_args(&args), Ok(ConfigPath { config: s("config.toml") }));
    let args = vec![s("auth-service"), s("")];
    assert_eq!(Opts::get_from_args(&args), Ok(ConfigPath { config: s("") }));
}

#[test]
fn missing_configuration_file_is_invalid_input() {
    let usage = Error::InvalidInput(s("Usage: cargo run --release <config_file>"));
    assert_eq!(Opts::get_from_args(&vec![s("auth-service")]), Err(usage.clone()));
    assert_eq!(Opts::get_from_args(&Vec::new()), Err(usage.clone()));
    assert_eq!(usage.status(), 400);
}
