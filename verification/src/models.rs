//! The requests sent to the identity provider, the answers it gives, and
//! the bodies exchanged with the gateway's own callers.

use crate::errors::{BuildError, Error};
use vstd::prelude::*;

verus! {

/// The body of a registration with the identity provider.
#[derive(Debug, Clone, PartialEq, Eq)]
pub struct SignupRequest {
    pub client_id: String,
    pub username: String,
    pub password: String,
    pub email: String,
    pub connection: String,
}

/// Collects the fields of a [`SignupRequest`] one by one.
#[derive(Debug, Clone, PartialEq, Eq)]
pub struct SignupRequestBuilder {
    pub client_id: Option<String>,
    pub username: Option<String>,
    pub password: Option<String>,
    pub email: Option<String>,
    pub connection: Option<String>,
}

impl SignupRequestBuilder {
    /// The first field, in the order in which they are asked for, that has
    /// not been given.
    pub open spec fn spec_first_missing(self) -> Option<BuildError> {
        if self.client_id is None {
            Some(BuildError::MissingClientId)
        } else if self.username is None {
            Some(BuildError::MissingUsername)
        } else if self.password is None {
            Some(BuildError::MissingPassword)
        } else if self.email is None {
            Some(BuildError::MissingEmail)
        } else if self.connection is None {
            Some(BuildError::MissingConnection)
        } else {
            None
        }
    }

    /// A builder to which nothing has been given.
    pub fn new() -> (builder: Self)
        ensures
            builder == (SignupRequestBuilder {
                client_id: None,
                username: None,
                password: None,
                email: None,
                connection: None,
            }),
    {
        SignupRequestBuilder { client_id: None, username: None, password: None, email: None, connection: None }
    }

    /// Gives the client id, in place of any given before.
    pub fn client_id(self, client_id: String) -> (builder: Self)
        ensures
            builder == (SignupRequestBuilder { client_id: Some(client_id), ..self }),
    {
        let mut builder = self;
        builder.client_id = Some(client_id);
        builder
    }

    /// Gives the username, in place of any given before.
    pub fn username(self, username: String) -> (builder: Self)
        ensures
            builder == (SignupRequestBuilder { username: Some(username), ..self }),
    {
        let mut builder = self;
        builder.username = Some(username);
        builder
    }

    /// Gives the password, in place of any given before.
    pub fn password(self, password: String) -> (builder: Self)
        ensures
            builder == (SignupRequestBuilder { password: Some(password), ..self }),
    {
        let mut builder = self;
        builder.password = Some(password);
        builder
    }

    /// Gives the email, in place of any given before.
    pub fn email(self, email: String) -> (builder: Self)
        ensures
            builder == (SignupRequestBuilder { email: Some(email), ..self }),
    {
        let mut builder = self;
        builder.email = Some(email);
        builder
    }

    /// Gives the connection, in place of any given before.
    pub fn connection(self, connection: String) -> (builder: Self)
        ensures
            builder == (SignupRequestBuilder { connection: Some(connection), ..self }),
    {
        let mut builder = self;
        builder.connection = Some(connection);
        builder
    }

    /// Builds the request. Fails on the first field, in the order in
    /// which they are asked for, that has not been given.
    pub fn build(self) -> (built: Result<SignupRequest, Error>)
        ensures
            match self.spec_first_missing() {
                Some(missing) => built == Err::<SignupRequest, Error>(
                    Error::Auth0RequestBuildError(missing),
                ),
                None => built == Ok::<SignupRequest, Error>(
                    SignupRequest {
                        client_id: self.client_id.unwrap(),
                        username: self.username.unwrap(),
                        password: self.password.unwrap(),
                        email: self.email.unwrap(),
                        connection: self.connection.unwrap(),
                    },
                ),
            },
    {
        let client_id = match self.client_id {
            Some(value) => value,
            None => {
                return Err(Error::Auth0RequestBuildError(BuildError::MissingClientId));
            },
        };
        let username = match self.username {
            Some(value) => value,
            None => {
                return Err(Error::Auth0RequestBuildError(BuildError::MissingUsername));
            },
        };
        let password = match self.password {
            Some(value) => value,
            None => {
                return Err(Error::Auth0RequestBuildError(BuildError::MissingPassword));
            },
        };
        let email = match self.email {
            Some(value) => value,
            None => {
                return Err(Error::Auth0RequestBuildError(BuildError::MissingEmail));
            },
        };
        let connection = match self.connection {
            Some(value) => value,
            None => {
                return Err(Error::Auth0RequestBuildError(BuildError::MissingConnection));
            },
        };
        Ok(SignupRequest { client_id, username, password, email, connection })
    }
}

/// The body of a sign-in of the gateway itself with the identity provider.
#[derive(Debug, Clone, PartialEq, Eq)]
pub struct SignInRequest {
    pub client_id: String,
    pub client_secret: String,
    pub audience: String,
    pub grant_type: String,
}

/// Collects the fields of a [`SignInRequest`] one by one.
#[derive(Debug, Clone, PartialEq, Eq)]
pub struct SignInRequestBuilder {
    pub client_id: Option<String>,
    pub client_secret: Option<String>,
    pub audience: Option<String>,
    pub grant_type: Option<String>,
}

impl SignInRequestBuilder {
    /// The first field, in the order in which they are asked for, that has
    /// not been given.
    pub open spec fn spec_first_missing(self) -> Option<BuildError> {
        if self.client_id is None {
            Some(BuildError::MissingClientId)
        } else if self.client_secret is None {
            Some(BuildError::MissingClientSecret)
        } else if self.audience is None {
            Some(BuildError::MissingAudience)
        } else if self.grant_type is None {
            Some(BuildError::MissingGrantType)
        } else {
            None
        }
    }

    /// A builder to which nothing has been given.
    pub fn new() -> (builder: Self)
        ensures
            builder == (SignInRequestBuilder {
                client_id: None,
                client_secret: None,
                audience: None,
                grant_type: None,
            }),
    {
        SignInRequestBuilder { client_id: None, client_secret: None, audience: None, grant_type: None }
    }

    /// Gives the client id, in place of any given before.
    pub fn client_id(self, client_id: String) -> (builder: Self)
        ensures
            builder == (SignInRequestBuilder { client_id: Some(client_id), ..self }),
    {
        let mut builder = self;
        builder.client_id = Some(client_id);
        builder
    }

    /// Gives the client secret, in place of any given before.
    pub fn client_secret(self, client_secret: String) -> (builder: Self)
        ensures
            builder == (SignInRequestBuilder { client_secret: Some(client_secret), ..self }),
    {
        let mut builder = self;
        builder.client_secret = Some(client_secret);
        builder
    }

    /// Gives the audience, in place of any given before.
    pub fn audience(self, audience: String) -> (builder: Self)
        ensures
            builder == (SignInRequestBuilder { audience: Some(audience), ..self }),
    {
        let mut builder = self;
        builder.audience = Some(audience);
        builder
    }

    /// Gives the grant type, in place of any given before.
    pub fn grant_type(self, grant_type: String) -> (builder: Self)
        ensures
            builder == (SignInRequestBuilder { grant_type: Some(grant_type), ..self }),
    {
        let mut builder = self;
        builder.grant_type = Some(grant_type);
        builder
    }

    /// Builds the request. Fails on the first field, in the order in
    /// which they are asked for, that has not been given.
    pub fn build(self) -> (built: Result<SignInRequest, Error>)
        ensures
            match self.spec_first_missing() {
                Some(missing) => built == Err::<SignInRequest, Error>(
                    Error::Auth0RequestBuildError(missing),
                ),
                None => built == Ok::<SignInRequest, Error>(
                    SignInRequest {
                        client_id: self.client_id.unwrap(),
                        client_secret: self.client_secret.unwrap(),
                        audience: self.audience.unwrap(),
                        grant_type: self.grant_type.unwrap(),
                    },
                ),
            },
    {
        let client_id = match self.client_id {
            Some(value) => value,
            None => {
                return Err(Error::Auth0RequestBuildError(BuildError::MissingClientId));
            },
        };
        let client_secret = match self.client_secret {
            Some(value) => value,
            None => {
                return Err(Error::Auth0RequestBuildError(BuildError::MissingClientSecret));
            },
        };
        let audience = match self.audience {
            Some(value) => value,
            None => {
                return Err(Error::Auth0RequestBuildError(BuildError::MissingAudience));
            },
        };
        let grant_type = match self.grant_type {
            Some(value) => value,
            None => {
                return Err(Error::Auth0RequestBuildError(BuildError::MissingGrantType));
            },
        };
        Ok(SignInRequest { client_id, client_secret, audience, grant_type })
    }
}

/// The body of a request made on behalf of one user: what identifies the
/// gateway to the provider, the user, and what the kind of request adds.
#[derive(Debug, Clone, PartialEq, Eq)]
pub struct ConnectToAuth0<T> {
    pub client_id: String,
    pub client_secret: String,
    pub audience: String,
    pub grant_type: String,
    pub user_id: String,
    pub connection: String,
    pub scope: Option<String>,
    pub extra: T,
}

/// Collects the fields of a [`ConnectToAuth0`] one by one. The scope may
/// be left out; every other field must be given.
#[derive(Debug, Clone, PartialEq, Eq)]
pub struct Auth0RequestBuilder<T> {
    pub client_id: Option<String>,
    pub client_secret: Option<String>,
    pub audience: Option<String>,
    pub grant_type: Option<String>,
    pub user_id: Option<String>,
    pub connection: Option<String>,
    pub scope: Option<String>,
    pub extra: Option<T>,
}

impl<T> Auth0RequestBuilder<T> {
    /// The first field, in the order in which they are asked for, that has
    /// not been given.
    pub open spec fn spec_first_missing(self) -> Option<BuildError> {
        if self.client_id is None {
            Some(BuildError::MissingClientId)
        } else if self.client_secret is None {
            Some(BuildError::MissingClientSecret)
        } else if self.audience is None {
            Some(BuildError::MissingAudience)
        } else if self.grant_type is None {
            Some(BuildError::MissingGrantType)
        } else if self.user_id is None {
            Some(BuildError::MissingUserId)
        } else if self.connection is None {
            Some(BuildError::MissingConnection)
        } else if self.extra is None {
            Some(BuildError::MissingExtra)
        } else {
            None
        }
    }

    /// A builder to which nothing has been given.
    pub fn new() -> (builder: Self)
        ensures
            builder == (Auth0RequestBuilder::<T> {
                client_id: None,
                client_secret: None,
                audience: None,
                grant_type: None,
                user_id: None,
                connection: None,
                scope: None,
                extra: None,
            }),
    {
        Auth0RequestBuilder {
            client_id: None,
            client_secret: None,
            audience: None,
            grant_type: None,
            user_id: None,
            connection: None,
            scope: None,
            extra: None,
        }
    }

    /// Gives the client id, in place of any given before.
    pub fn client_id(self, client_id: String) -> (builder: Self)
        ensures
            builder == (Auth0RequestBuilder::<T> { client_id: Some(client_id), ..self }),
    {
        let mut builder = self;
        builder.client_id = Some(client_id);
        builder
    }

    /// Gives the client secret, in place of any given before.
    pub fn client_secret(self, client_secret: String) -> (builder: Self)
        ensures
            builder == (Auth0RequestBuilder::<T> { client_secret: Some(client_secret), ..self }),
    {
        let mut builder = self;
        builder.client_secret = Some(client_secret);
        builder
    }

    /// Gives the audience, in place of any given before.
    pub fn audience(self, audience: String) -> (builder: Self)
        ensures
            builder == (Auth0RequestBuilder::<T> { audience: Some(audience), ..self }),
    {
        let mut builder = self;
        builder.audience = Some(audience);
        builder
    }

    /// Gives the grant type, in place of any given before.
    pub fn grant_type(self, grant_type: String) -> (builder: Self)
        ensures
            builder == (Auth0RequestBuilder::<T> { grant_type: Some(grant_type), ..self }),
    {
        let mut builder = self;
        builder.grant_type = Some(grant_type);
        builder
    }

    /// Gives the user id, in place of any given before.
    pub fn user_id(self, user_id: String) -> (builder: Self)
        ensures
            builder == (Auth0RequestBuilder::<T> { user_id: Some(user_id), ..self }),
    {
        let mut builder = self;
        builder.user_id = Some(user_id);
        builder
    }

    /// Gives the connection, in place of any given before.
    pub fn connection(self, connection: String) -> (builder: Self)
        ensures
            builder == (Auth0RequestBuilder::<T> { connection: Some(connection), ..self }),
    {
        let mut builder = self;
        builder.connection = Some(connection);
        builder
    }

    /// Gives the scope, in place of any given before.
    pub fn scope(self, scope: String) -> (builder: Self)
        ensures
            builder == (Auth0RequestBuilder::<T> { scope: Some(scope), ..self }),
    {
        let mut builder = self;
        builder.scope = Some(scope);
        builder
    }

    /// Gives what the kind of request adds, in place of any given before.
    pub fn extra(self, extra: T) -> (builder: Self)
        ensures
            builder == (Auth0RequestBuilder::<T> { extra: Some(extra), ..self }),
    {
        let mut builder = self;
        builder.extra = Some(extra);
        builder
    }

    /// Builds the request. Fails on the first field, in the order in
    /// which they are asked for, that has not been given.
    pub fn build(self) -> (built: Result<ConnectToAuth0<T>, Error>)
        ensures
            match self.spec_first_missing() {
                Some(missing) => built == Err::<ConnectToAuth0<T>, Error>(
                    Error::Auth0RequestBuildError(missing),
                ),
                None => built == Ok::<ConnectToAuth0<T>, Error>(
                    ConnectToAuth0 {
                        client_id: self.client_id.unwrap(),
                        client_secret: self.client_secret.unwrap(),
                        audience: self.audience.unwrap(),
                        grant_type: self.grant_type.unwrap(),
                        user_id: self.user_id.unwrap(),
                        connection: self.connection.unwrap(),
                        scope: self.scope,
                        extra: self.extra.unwrap(),
                    },
                ),
            },
    {
        let client_id = match self.client_id {
            Some(value) => value,
            None => {
                return Err(Error::Auth0RequestBuildError(BuildError::MissingClientId));
            },
        };
        let client_secret = match self.client_secret {
            Some(value) => value,
            None => {
                return Err(Error::Auth0RequestBuildError(BuildError::MissingClientSecret));
            },
        };
        let audience = match self.audience {
            Some(value) => value,
            None => {
                return Err(Error::Auth0RequestBuildError(BuildError::MissingAudience));
            },
        };
        let grant_type = match self.grant_type {
            Some(value) => value,
            None => {
                return Err(Error::Auth0RequestBuildError(BuildError::MissingGrantType));
            },
        };
        let user_id = match self.user_id {
            Some(value) => value,
            None => {
                return Err(Error::Auth0RequestBuildError(BuildError::MissingUserId));
            },
        };
        let connection = match self.connection {
            Some(value) => value,
            None => {
                return Err(Error::Auth0RequestBuildError(BuildError::MissingConnection));
            },
        };
        let extra = match self.extra {
            Some(value) => value,
            None => {
                return Err(Error::Auth0RequestBuildError(BuildError::MissingExtra));
            },
        };
        Ok(
            ConnectToAuth0 {
                client_id,
                client_secret,
                audience,
                grant_type,
                user_id,
                connection,
                scope: self.scope,
                extra,
            },
        )
    }
}

/// What a registration adds to a request.
#[derive(Debug, Clone, PartialEq, Eq)]
pub struct RegistrationFlow {
    pub client_id: String,
    pub client_secret: String,
    pub password: String,
    pub email: String,
    pub connection: String,
    pub username: String,
}

/// What a login adds to a request.
#[derive(Debug, Clone, PartialEq, Eq)]
pub struct LoginFlow {
    pub username: String,
    pub password: String,
}

/// What a change of password adds to a request.
#[derive(Debug, Clone, PartialEq, Eq)]
pub struct ChangePassFlow {
    pub email: String,
}

/// The claims that are read from a verified token.
#[derive(Debug, Clone, PartialEq, Eq)]
pub struct Claims {
    pub sub: String,
}

/// The provider's answer to a registration.
#[derive(Debug, Clone, PartialEq, Eq)]
pub struct Auth0RegisterResponse {
    pub _id: String,
}

/// A registered user together with a token.
#[derive(Debug, Clone, PartialEq, Eq)]
pub struct RegisteredUserResponse {
    pub id: String,
    pub token: String,
}

/// The provider's answer to a login.
#[derive(Debug, Clone, PartialEq, Eq)]
pub struct Auth0LoginResponse {
    pub access_token: String,
    pub id_token: String,
    pub expires_in: u64,
    pub token_type: String,
}

/// What a caller sends to register.
#[derive(Debug, Clone, PartialEq, Eq)]
pub struct UserData {
    pub username: String,
    pub password: String,
    pub email: String,
}

/// What a caller sends to log in.
#[derive(Debug, Clone, PartialEq, Eq)]
pub struct RegisteredUserData {
    pub id: String,
    pub username: String,
    pub password: String,
}

/// What a caller sends to have a password changed.
#[derive(Debug, Clone, PartialEq, Eq)]
pub struct UpdatePasswordData {
    pub user_id: String,
    pub email: String,
}

/// What a caller is told after a registration.
#[derive(Debug, Clone, PartialEq, Eq)]
pub struct RegisterUserResponse {
    pub user_id: String,
    pub token: String,
}

/// What a caller is told after a login.
#[derive(Debug, Clone, PartialEq, Eq)]
pub struct LoginUserResponse {
    pub token: String,
}

} // verus!
