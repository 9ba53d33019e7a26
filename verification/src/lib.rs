//! Authentication gateway core: bearer-token verification, the request guard
//! in front of protected routes, and the user mirror with its typed operations.

pub mod auth0;
pub mod db;
pub mod errors;
pub mod flow;
pub mod json;
pub mod logfmt;
pub mod middleware;
pub mod models;
pub mod opts;
pub mod pool;
pub mod text;
pub mod token;
pub mod users;
