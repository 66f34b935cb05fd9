//! Startup configuration.
//!
//! The five settings the engine needs are handed in as plain optional
//! values (the surrounding program reads them from its environment);
//! the constructor decides whether the configuration is complete.

use vstd::prelude::*;

use crate::error::Error;

verus! {

/// The engine's startup settings: where the deliverable set and the roster
/// are found, where mirrors are kept on disk, and the two serving-layer
/// secrets that the core itself never interprets.
#[derive(Clone, Debug)]
pub struct Config {
    pub assignments: String,
    pub submissions: String,
    pub downloads: String,
    pub password: String,
    pub jwt_key: String,
}

impl Config {
    /// Assembles the configuration from the five environment values,
    /// or reports the configuration incomplete if any of them is absent.
    pub fn load_from_env(
        assignments: Option<String>,
        submissions: Option<String>,
        downloads: Option<String>,
        password: Option<String>,
        jwt_key: Option<String>,
    ) -> (r: Result<Config, Error>)
        ensures
            r is Ok <==> (assignments is Some && submissions is Some && downloads is Some
                && password is Some && jwt_key is Some),
            r matches Ok(c) ==> {
                &&& c.assignments == assignments->0
                &&& c.submissions == submissions->0
                &&& c.downloads == downloads->0
                &&& c.password == password->0
                &&& c.jwt_key == jwt_key->0
            },
            r matches Err(e) ==> e == Error::ConfigMissing,
    {
        match (assignments, submissions, downloads, password, jwt_key) {
            (Some(assignments), Some(submissions), Some(downloads), Some(password), Some(jwt_key)) => {
                Ok(Config { assignments, submissions, downloads, password, jwt_key })
            },
            _ => Err(Error::ConfigMissing),
        }
    }
}

} // verus!
