//! The configuration surface: one explicit record, built once at process
//! start and passed by reference to whatever needs it.  Every field is
//! required; supplying them is the caller's business.

use vstd::prelude::*;

verus! {

/// The settings the companion runs with.
#[derive(Debug, Clone)]
pub struct Conf {
    /// The chat bot's credential.
    pub discord_token: String,
    /// The channel whose history is ingested and replied to.
    pub discord_channel: String,
    /// The recency window, in minutes.
    pub minutes_delta: usize,
    /// The job-execution service's root URL.
    pub synology_root_api: String,
    /// The job-execution service's account.
    pub synology_user: String,
    /// The job-execution service's password.
    pub synology_password: String,
}

} // verus!
