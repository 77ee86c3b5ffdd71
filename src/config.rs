use vstd::prelude::*;

verus! {

/// The poll interval in seconds when the configuration names none; the remote service
/// processes new invertor data at about this cadence.
pub const DEFAULT_POLL_INTERVAL: u64 = 300;

/// The poll interval that a configuration gives: the configured number of seconds, or the
/// default when none is configured.
pub open spec fn poll_interval_of(configured: Option<u64>) -> u64 {
    match configured {
        Some(n) => n,
        None => DEFAULT_POLL_INTERVAL,
    }
}

/// The settings of the poller: the account to log in with, the site to track, and the poll
/// interval in seconds.
pub struct Config {
    pub username: String,
    pub password: String,
    pub site_id: String,
    pub poll_interval: u64,
}

impl Config {
    /// A configuration from its recognised options, with the default poll interval where
    /// `poll_interval_seconds` is absent.
    pub fn new(
        username: String,
        password: String,
        site_id: String,
        poll_interval_seconds: Option<u64>,
    ) -> (c: Config)
        ensures
            c.username@ == username@,
            c.password@ == password@,
            c.site_id@ == site_id@,
            c.poll_interval == poll_interval_of(poll_interval_seconds),
    {
        let poll_interval = match poll_interval_seconds {
            Some(n) => n,
            None => DEFAULT_POLL_INTERVAL,
        };
        Config { username, password, site_id, poll_interval }
    }
}

} // verus!
