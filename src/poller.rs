use vstd::prelude::*;

use crate::cache::StatusCache;
use crate::reading::Reading;

verus! {

/// Seconds that the poller sleeps between two looks at the shutdown signal and the clock.
pub const TICK_SECONDS: u64 = 1;

/// Seconds that the poller waits after a failed re-authentication before it tries again.
pub const AUTH_BACKOFF_SECONDS: u64 = 5;

/// How a call to the remote service for one telemetry value failed.
#[derive(Clone, Copy, Debug, PartialEq, Eq, Structural)]
pub enum FetchError {
    /// A network error or a timeout: the next tick tries again.
    Transient,
    /// The service rejected the session: it must be recreated.
    Unauthorized,
    /// The value could not be read as a non-negative integer: treated as transient.
    Malformed,
}

/// Where the poller stands.
#[derive(Clone, Copy, Debug, PartialEq, Eq, Structural)]
pub enum PollerState {
    /// Not started yet.
    Unauthenticated,
    /// Waiting for the outcome of a call to `authenticate`; there is no session.
    Authenticating,
    /// Holding a session and waiting, tick by tick, for the poll interval to pass.
    Idle,
    /// Waiting for the outcome of the two telemetry fetches of one cycle.
    Fetching,
    /// Without a session after a failed re-authentication; the next tick tries again.
    ReauthNeeded,
    /// Terminal: the session is released and the poller task exits.
    Stopped,
}

/// What the driver of the poller reports back.
#[derive(Clone, Copy, Debug)]
pub enum Event {
    /// The poller task was started.
    Started,
    /// `authenticate` returned a session.
    AuthSucceeded,
    /// `authenticate` failed.
    AuthFailed,
    /// One tick passed; `now` is the time in seconds since the epoch, and `cancelled` says
    /// whether the shutdown signal was seen.
    Tick { now: u64, cancelled: bool },
    /// Both fetches of one cycle returned; `now` is the time at which they completed.
    Fetched { power: Result<u32, FetchError>, energy: Result<u32, FetchError>, now: u64 },
}

/// What the driver of the poller does next.
#[derive(Clone, Copy, Debug, PartialEq, Eq, Structural)]
pub enum Action {
    /// Drop any session and call `authenticate`; report `AuthSucceeded` or `AuthFailed`.
    Authenticate,
    /// Fetch the power and the energy values with the session; report `Fetched`.
    Fetch,
    /// Sleep one tick; report `Tick`.
    Wait,
    /// Sleep the authentication backoff; report `Tick`.
    Backoff,
    /// Release the session and end the poller task cleanly.
    Stop,
    /// The first authentication failed: end the poller task with a fatal error.
    Fail,
    /// The event does not belong to the current state: nothing changes and nothing is done.
    Ignore,
}

/// The poller as a value: its state, the configured poll interval, the time of the last
/// successful fetch (the poll clock), and whether a session was ever obtained.
#[derive(Clone, Copy, Debug, PartialEq, Eq, Structural)]
pub struct PollerView {
    pub state: PollerState,
    pub poll_interval: u64,
    pub clock: Option<u64>,
    pub authenticated_once: bool,
}

/// Whether a tick at `now` should start a fetch cycle: no fetch has succeeded yet, or a
/// full interval has passed since the last one.
pub open spec fn is_due(clock: Option<u64>, poll_interval: u64, now: u64) -> bool {
    match clock {
        None => true,
        Some(last) => now >= last && now - last >= poll_interval,
    }
}

/// The poll clock after a successful fetch at `now`; it never goes back.
pub open spec fn advance(clock: Option<u64>, now: u64) -> u64 {
    match clock {
        None => now,
        Some(last) => if now >= last { now } else { last },
    }
}

/// Whether the poller holds a session in state `s`.
pub open spec fn holds_session(s: PollerState) -> bool {
    s is Idle || s is Fetching
}

/// The consistency of a poller: before the first successful authentication it is not in a
/// state that needs one, and it has no poll clock.
pub open spec fn poller_wf(p: PollerView) -> bool {
    &&& p.state is Unauthenticated ==> !p.authenticated_once
    &&& (p.state is Idle || p.state is Fetching || p.state is ReauthNeeded) ==> p.authenticated_once
    &&& p.clock is Some ==> p.authenticated_once
}

/// Whether a fetch outcome carries an authorization failure.
pub open spec fn is_unauthorized(r: Result<u32, FetchError>) -> bool {
    r matches Err(e) && e is Unauthorized
}

/// The step of the poller on `event` from `p`, with the cache holding `cache`: the next
/// poller, the next cache content, and the action for the driver.
pub open spec fn next(p: PollerView, cache: Option<Reading>, event: Event) -> (
    PollerView,
    Option<Reading>,
    Action,
) {
    let ignored = (p, cache, Action::Ignore);
    match p.state {
        PollerState::Unauthenticated => match event {
            Event::Started => (PollerView { state: PollerState::Authenticating, ..p }, cache, Action::Authenticate),
            _ => ignored,
        },
        PollerState::Authenticating => match event {
            Event::AuthSucceeded => (
                PollerView { state: PollerState::Idle, authenticated_once: true, ..p },
                cache,
                Action::Wait,
            ),
            Event::AuthFailed => if p.authenticated_once {
                (PollerView { state: PollerState::ReauthNeeded, ..p }, cache, Action::Backoff)
            } else {
                (PollerView { state: PollerState::Stopped, ..p }, cache, Action::Fail)
            },
            _ => ignored,
        },
        PollerState::Idle => match event {
            Event::Tick { now, cancelled } => if cancelled {
                (PollerView { state: PollerState::Stopped, ..p }, cache, Action::Stop)
            } else if is_due(p.clock, p.poll_interval, now) {
                (PollerView { state: PollerState::Fetching, ..p }, cache, Action::Fetch)
            } else {
                (p, cache, Action::Wait)
            },
            _ => ignored,
        },
        PollerState::ReauthNeeded => match event {
            Event::Tick { now, cancelled } => if cancelled {
                (PollerView { state: PollerState::Stopped, ..p }, cache, Action::Stop)
            } else {
                (PollerView { state: PollerState::Authenticating, ..p }, cache, Action::Authenticate)
            },
            _ => ignored,
        },
        PollerState::Fetching => match event {
            Event::Fetched { power, energy, now } => if is_unauthorized(power) || is_unauthorized(energy) {
                (PollerView { state: PollerState::Authenticating, ..p }, cache, Action::Authenticate)
            } else {
                match (power, energy) {
                    (Ok(w), Ok(kwh)) => (
                        PollerView { state: PollerState::Idle, clock: Some(advance(p.clock, now)), ..p },
                        Some(Reading { current_w: w, total_kwh: kwh, last_updated: now }),
                        Action::Wait,
                    ),
                    _ => (PollerView { state: PollerState::Idle, ..p }, cache, Action::Wait),
                }
            },
            _ => ignored,
        },
        PollerState::Stopped => ignored,
    }
}

/// The polling and authentication loop's decisions.
///
/// The poller owns the poll clock and decides, from each reported event, what the driver does
/// next; the session itself lives with the driver, which holds one exactly while
/// `holds_session(state)`.
pub struct Poller {
    state: PollerState,
    poll_interval: u64,
    clock: Option<u64>,
    authenticated_once: bool,
}

impl View for Poller {
    type V = PollerView;

    closed spec fn view(&self) -> PollerView {
        PollerView {
            state: self.state,
            poll_interval: self.poll_interval,
            clock: self.clock,
            authenticated_once: self.authenticated_once,
        }
    }
}

impl Poller {
    /// A poller that has not started, polling every `poll_interval` seconds.
    pub fn new(poll_interval: u64) -> (p: Poller)
        ensures
            p@ == (PollerView {
                state: PollerState::Unauthenticated,
                poll_interval,
                clock: None,
                authenticated_once: false,
            }),
            poller_wf(p@),
    {
        Poller { state: PollerState::Unauthenticated, poll_interval, clock: None, authenticated_once: false }
    }

    /// The current state.
    pub fn state(&self) -> (s: PollerState)
        ensures
            s == self@.state,
    {
        self.state
    }

    /// The time of the last successful fetch, if any.
    pub fn last_fetch(&self) -> (t: Option<u64>)
        ensures
            t == self@.clock,
    {
        self.clock
    }

    /// Handles `event`: moves to the next state, writes the cycle's reading to `cache` after a
    /// fully successful fetch cycle, and returns what the driver does next.
    pub fn step(&mut self, event: Event, cache: &mut StatusCache) -> (a: Action)
        requires
            poller_wf(old(self)@),
        ensures
            (final(self)@, final(cache)@, a) == next(old(self)@, old(cache)@, event),
            poller_wf(final(self)@),
    {
        match self.state {
            PollerState::Unauthenticated => match event {
                Event::Started => {
                    self.state = PollerState::Authenticating;
                    Action::Authenticate
                },
                _ => Action::Ignore,
            },
            PollerState::Authenticating => match event {
                Event::AuthSucceeded => {
                    self.state = PollerState::Idle;
                    self.authenticated_once = true;
                    Action::Wait
                },
                Event::AuthFailed => {
                    if self.authenticated_once {
                        self.state = PollerState::ReauthNeeded;
                        Action::Backoff
                    } else {
                        self.state = PollerState::Stopped;
                        Action::Fail
                    }
                },
                _ => Action::Ignore,
            },
            PollerState::Idle => match event {
                Event::Tick { now, cancelled } => {
                    if cancelled {
                        self.state = PollerState::Stopped;
                        Action::Stop
                    } else if self.due(now) {
                        self.state = PollerState::Fetching;
                        Action::Fetch
                    } else {
                        Action::Wait
                    }
                },
                _ => Action::Ignore,
            },
            PollerState::ReauthNeeded => match event {
                Event::Tick { now: _, cancelled } => {
                    if cancelled {
                        self.state = PollerState::Stopped;
                        Action::Stop
                    } else {
                        self.state = PollerState::Authenticating;
                        Action::Authenticate
                    }
                },
                _ => Action::Ignore,
            },
            PollerState::Fetching => match event {
                Event::Fetched { power, energy, now } => self.finish_cycle(power, energy, now, cache),
                _ => Action::Ignore,
            },
            PollerState::Stopped => Action::Ignore,
        }
    }

    fn due(&self, now: u64) -> (r: bool)
        ensures
            r == is_due(self.clock, self.poll_interval, now),
    {
        match self.clock {
            None => true,
            Some(last) => now >= last && now - last >= self.poll_interval,
        }
    }

    fn finish_cycle(
        &mut self,
        power: Result<u32, FetchError>,
        energy: Result<u32, FetchError>,
        now: u64,
        cache: &mut StatusCache,
    ) -> (a: Action)
        requires
            old(self).state is Fetching,
            poller_wf(old(self)@),
        ensures
            (final(self)@, final(cache)@, a) == next(
                old(self)@,
                old(cache)@,
                Event::Fetched { power, energy, now },
            ),
    {
        let unauthorized = matches!(power, Err(FetchError::Unauthorized))
            || matches!(energy, Err(FetchError::Unauthorized));
        if unauthorized {
            self.state = PollerState::Authenticating;
            return Action::Authenticate;
        }
        self.state = PollerState::Idle;
        match (power, energy) {
            (Ok(w), Ok(kwh)) => {
                let t = match self.clock {
                    None => now,
                    Some(last) => if now >= last { now } else { last },
                };
                self.clock = Some(t);
                cache.write(Reading::new(w, kwh, now));
            },
            _ => {},
        }
        Action::Wait
    }
}

} // verus!
