//! The configuration of the gateway and the state built from it at startup.

use crate::auth0::Auth0Service;
use crate::db::DbService;
use crate::errors::Error;
use crate::pool::ConnectionPool;
use crate::token::{decoding_key_from_pem, rsa_pem_is_key};
use crate::users::Mirror;
use vstd::prelude::*;
use vstd::string::*;

verus! {

/// Where the server listens.
#[derive(Debug, Clone, PartialEq, Eq)]
pub struct ApplicationOpts {
    pub bind: String,
}

/// Where the database is.
#[derive(Debug, Clone, PartialEq, Eq)]
pub struct DatabaseOpts {
    pub database_url: String,
}

/// The account with the identity provider, and where the key that verifies
/// its tokens is kept.
#[derive(Debug, Clone, PartialEq, Eq)]
pub struct Auth0Opts {
    pub client_id: String,
    pub client: String,
    pub client_secret: String,
    pub connection: String,
    pub dev_key_file: String,
    pub audience: String,
}

/// The whole configuration.
#[derive(Debug, Clone, PartialEq, Eq)]
pub struct Opts {
    pub application: ApplicationOpts,
    pub database: DatabaseOpts,
    pub auth0: Auth0Opts,
}

/// Where the configuration file is.
#[derive(Debug, Clone, PartialEq, Eq)]
pub struct ConfigPath {
    pub config: String,
}

/// What is said to a caller who names no configuration file.
pub const USAGE: &'static str = "Usage: cargo run --release <config_file>";

impl Opts {
    /// The configuration file named on the command line: the first
    /// argument after the program's name. Without one the caller is told how
    /// to call the program.
    pub fn get_from_args(args: &Vec<String>) -> (path: Result<ConfigPath, Error>)
        ensures
            if args@.len() < 2 {
                path matches Err(Error::InvalidInput(text)) && text@ == USAGE@
            } else {
                path matches Ok(found) && found.config == args@[1]
            },
    {
        if args.len() < 2 {
            Err(Error::InvalidInput(String::from_str(USAGE)))
        } else {
            Ok(ConfigPath { config: args[1].clone() })
        }
    }
}

/// What every request handler is given: the data access service and the
/// identity provider's side.
pub struct AppState {
    pub database: DbService,
    pub auth0: Auth0Service,
}

impl AppState {
    /// The state made of these two.
    pub fn new(database: DbService, auth0: Auth0Service) -> (state: Self)
        ensures
            state.database == database,
            state.auth0 == auth0,
    {
        AppState { database, auth0 }
    }
}

/// Builds the state from the configuration, the contents of the key file
/// and the size of the connection pool. Fails, with a `JsonWebTokenError`,
/// exactly when the key file does not hold an RSA key: without the key no
/// protected route can be served.
pub fn init_state(opts: Opts, pem: &[u8], pool_size: usize) -> (state: Result<AppState, Error>)
    ensures
        state.is_ok() == rsa_pem_is_key(pem@),
        state matches Err(error) ==> error is JsonWebTokenError,
        state matches Ok(built) ==> {
            &&& built.database.wf()
            &&& built.database@ == Mirror::empty()
            &&& built.database.spec_pool().spec_max_size() == pool_size
            &&& built.database.spec_pool().spec_in_use() == 0
            &&& built.auth0@.client_id == opts.auth0.client_id@
            &&& built.auth0@.client_secret == opts.auth0.client_secret@
            &&& built.auth0@.connection == opts.auth0.connection@
            &&& built.auth0@.client_url == opts.auth0.client@
            &&& built.auth0@.audience == opts.auth0.audience@
        },
{
    let decoding_key = match decoding_key_from_pem(pem) {
        Ok(key) => key,
        Err(error) => {
            return Err(error);
        },
    };
    let database = DbService::new(ConnectionPool::new(pool_size));
    let auth0 = Auth0Service::new(
        opts.auth0.client_id,
        opts.auth0.client_secret,
        opts.auth0.connection,
        opts.auth0.client,
        opts.auth0.audience,
        decoding_key,
    );
    Ok(AppState::new(database, auth0))
}

} // verus!
