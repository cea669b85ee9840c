//! Process-wide configuration, loaded once at start-up by the surrounding
//! program and passed by value into the components that need it. Nothing
//! in this crate reads configuration from a global.

use vstd::prelude::*;

verus! {

/// Everything the program is configured with.
#[derive(Clone, Debug)]
pub struct Settings {
    pub server: Server,
    pub mysql: Database,
    pub judger: Judger,
    pub auth: Auth,
}

/// Where the HTTP server listens.
#[derive(Clone, Debug)]
pub struct Server {
    pub host: String,
    pub port: u16,
}

/// How to reach the entity store.
#[derive(Clone, Debug)]
pub struct Database {
    pub host: String,
    pub port: u16,
    pub username: String,
    pub password: String,
    pub database: String,
}

/// Where the external judging service listens.
#[derive(Clone, Debug)]
pub struct Judger {
    pub url: String,
}

/// The token codec's configuration: the signing secret and the validity
/// window, in days, of every issued credential.
#[derive(Clone, Debug)]
pub struct Auth {
    pub secret: String,
    pub expires: i64,
}

} // verus!
