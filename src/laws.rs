use vstd::prelude::*;

use crate::poller::{
    holds_session, is_due, is_unauthorized, next, poller_wf, Action, Event, FetchError,
    PollerState, PollerView,
};
use crate::reading::Reading;

verus! {

/// The outcome of one fully successful fetch cycle that yields `r`: a tick at
/// `r.last_updated`, then both fetches returning `r`'s values at that time.
pub open spec fn successful_cycle(p: PollerView, cache: Option<Reading>, r: Reading) -> (
    PollerView,
    Option<Reading>,
) {
    let (p1, c1, _a1) = next(p, cache, Event::Tick { now: r.last_updated, cancelled: false });
    let (p2, c2, _a2) = next(
        p1,
        c1,
        Event::Fetched { power: Ok(r.current_w), energy: Ok(r.total_kwh), now: r.last_updated },
    );
    (p2, c2)
}

/// The poller and the cache after the successful cycles that yield `rs`, in order.
pub open spec fn run_cycles(p: PollerView, cache: Option<Reading>, rs: Seq<Reading>) -> (
    PollerView,
    Option<Reading>,
)
    decreases rs.len(),
{
    if rs.len() == 0 {
        (p, cache)
    } else {
        let (p1, c1) = run_cycles(p, cache, rs.drop_last());
        successful_cycle(p1, c1, rs.last())
    }
}

/// Whether each reading of `rs` is observed when a fetch is due: a full poll interval after
/// the previous one, and the first one after the poll clock `clock`.
pub open spec fn spaced(clock: Option<u64>, poll_interval: u64, rs: Seq<Reading>) -> bool {
    forall|i: int|
        0 <= i < rs.len() ==> is_due(
            if i == 0 {
                clock
            } else {
                Some(rs[i - 1].last_updated)
            },
            poll_interval,
            #[trigger] rs[i].last_updated,
        )
}

/// A fetch that was due at `start` is still due at any later time while the poll clock
/// stays as it is.
pub proof fn lemma_due_stays_due(clock: Option<u64>, poll_interval: u64, start: u64, later: u64)
    requires
        is_due(clock, poll_interval, start),
        start <= later,
    ensures
        is_due(clock, poll_interval, later),
{
}

/// After any number N > 0 of successful fetch cycles from an idle poller, the cache holds
/// exactly the reading of the Nth cycle, and the poll clock is that reading's time.
pub proof fn lemma_cache_holds_last_cycle(p: PollerView, cache: Option<Reading>, rs: Seq<Reading>)
    requires
        poller_wf(p),
        p.state is Idle,
        rs.len() > 0,
        spaced(p.clock, p.poll_interval, rs),
    ensures
        run_cycles(p, cache, rs) == (
        PollerView { state: PollerState::Idle, clock: Some(rs.last().last_updated), ..p },
        Some(rs.last()),
        ),
    decreases rs.len(),
{
    let r = rs.last();
    let n = rs.len() - 1;
    let prev = rs.drop_last();
    if rs.len() == 1 {
        assert(is_due(p.clock, p.poll_interval, rs[0].last_updated));
        assert(run_cycles(p, cache, prev) == (p, cache));
    } else {
        assert forall|i: int| 0 <= i < prev.len() implies is_due(
            if i == 0 {
                p.clock
            } else {
                Some(prev[i - 1].last_updated)
            },
            p.poll_interval,
            #[trigger] prev[i].last_updated,
        ) by {
            assert(prev[i] == rs[i]);
            if i > 0 {
                assert(prev[i - 1] == rs[i - 1]);
            }
        }
        lemma_cache_holds_last_cycle(p, cache, prev);
        assert(prev.last() == rs[n - 1]);
        assert(is_due(Some(rs[n - 1].last_updated), p.poll_interval, rs[n].last_updated));
    }
}

/// A fetch cycle that fails without an authorization failure leaves the cache and the poll
/// clock unchanged and returns to idle; the next tick, at any time from the one that started
/// the cycle (`started_at`) on, fetches again without waiting a further interval.
pub proof fn lemma_transient_failure_retries(
    p: PollerView,
    cache: Option<Reading>,
    power: Result<u32, FetchError>,
    energy: Result<u32, FetchError>,
    now: u64,
    started_at: u64,
    tick: u64,
)
    requires
        poller_wf(p),
        p.state is Fetching,
        !is_unauthorized(power),
        !is_unauthorized(energy),
        !(power is Ok && energy is Ok),
        is_due(p.clock, p.poll_interval, started_at),
        started_at <= tick,
    ensures
        next(p, cache, Event::Fetched { power, energy, now }) == (
        PollerView { state: PollerState::Idle, ..p },
        cache,
        Action::Wait,
        ),
        next(PollerView { state: PollerState::Idle, ..p }, cache, Event::Tick { now: tick, cancelled: false })
            == (PollerView { state: PollerState::Fetching, ..p }, cache, Action::Fetch),
{
    lemma_due_stays_due(p.clock, p.poll_interval, started_at, tick);
}

/// An authorization failure in either fetch of a cycle discards the session and
/// re-authenticates; once that succeeds the poller is idle again with its poll clock kept, and
/// its next tick fetches, with no restart.
pub proof fn lemma_reauth_resumes_fetching(
    p: PollerView,
    cache: Option<Reading>,
    power: Result<u32, FetchError>,
    energy: Result<u32, FetchError>,
    now: u64,
    started_at: u64,
    tick: u64,
)
    requires
        poller_wf(p),
        p.state is Fetching,
        is_unauthorized(power) || is_unauthorized(energy),
        is_due(p.clock, p.poll_interval, started_at),
        started_at <= tick,
    ensures
        next(p, cache, Event::Fetched { power, energy, now }) == (
        PollerView { state: PollerState::Authenticating, ..p },
        cache,
        Action::Authenticate,
        ),
        !holds_session(next(p, cache, Event::Fetched { power, energy, now }).0.state),
        next(PollerView { state: PollerState::Authenticating, ..p }, cache, Event::AuthSucceeded) == (
        PollerView { state: PollerState::Idle, ..p },
        cache,
        Action::Wait,
        ),
        next(PollerView { state: PollerState::Idle, ..p }, cache, Event::Tick { now: tick, cancelled: false })
            == (PollerView { state: PollerState::Fetching, ..p }, cache, Action::Fetch),
{
    lemma_due_stays_due(p.clock, p.poll_interval, started_at, tick);
}

/// A failed re-authentication is not fatal: the poller backs off without a session, and its
/// next tick that carries no shutdown signal authenticates again.
pub proof fn lemma_failed_reauth_is_retried(p: PollerView, cache: Option<Reading>, tick: u64)
    requires
        poller_wf(p),
        p.state is Authenticating,
        p.authenticated_once,
    ensures
        next(p, cache, Event::AuthFailed) == (
        PollerView { state: PollerState::ReauthNeeded, ..p },
        cache,
        Action::Backoff,
        ),
        next(PollerView { state: PollerState::ReauthNeeded, ..p }, cache, Event::Tick { now: tick, cancelled: false })
            == (PollerView { state: PollerState::Authenticating, ..p }, cache, Action::Authenticate),
{
}

/// The shutdown signal seen on a tick of an idle poller stops it on that very tick, with its
/// session released and the cache untouched.
pub proof fn lemma_shutdown_when_idle(p: PollerView, cache: Option<Reading>, now: u64)
    requires
        poller_wf(p),
        p.state is Idle,
    ensures
        next(p, cache, Event::Tick { now, cancelled: true }) == (
        PollerView { state: PollerState::Stopped, ..p },
        cache,
        Action::Stop,
        ),
        !holds_session(next(p, cache, Event::Tick { now, cancelled: true }).0.state),
{
}

/// A shutdown requested while a cycle is in flight does not cut it short: the cycle finishes
/// (its reading is written when both fetches succeeded), the poller does not stop on the
/// fetch outcome, and once back to idle the first tick that carries the signal stops it.
pub proof fn lemma_shutdown_when_fetching(
    p: PollerView,
    cache: Option<Reading>,
    power: Result<u32, FetchError>,
    energy: Result<u32, FetchError>,
    now: u64,
    tick: u64,
)
    requires
        poller_wf(p),
        p.state is Fetching,
    ensures
        ({
            let (p1, c1, a1) = next(p, cache, Event::Fetched { power, energy, now });
            &&& p1.state !is Stopped
            &&& a1 !is Stop
            &&& c1 == match (power, energy) {
                (Ok(w), Ok(kwh)) => Some(Reading { current_w: w, total_kwh: kwh, last_updated: now }),
                _ => cache,
            }
            &&& p1.state is Idle ==> next(p1, c1, Event::Tick { now: tick, cancelled: true }) == (
            PollerView { state: PollerState::Stopped, ..p1 },
            c1,
            Action::Stop,
            )
        }),
{
}


/// The poller and the cache after handling `events` in order.
pub open spec fn run_events(p: PollerView, cache: Option<Reading>, events: Seq<Event>) -> (
    PollerView,
    Option<Reading>,
)
    decreases events.len(),
{
    if events.len() == 0 {
        (p, cache)
    } else {
        let (p1, c1) = run_events(p, cache, events.drop_last());
        let (p2, c2, _a) = next(p1, c1, events.last());
        (p2, c2)
    }
}

/// Whether `r` is exactly what one fetch event `e` reported, both values and the time.
pub open spec fn reported_by(e: Event, r: Reading) -> bool {
    e matches Event::Fetched { power, energy, now } && power == Ok::<u32, FetchError>(r.current_w)
        && energy == Ok::<u32, FetchError>(r.total_kwh) && now == r.last_updated
}

/// The poll clock only moves on a fully successful fetch cycle, and then never backwards.
pub proof fn lemma_clock_moves_only_forward(p: PollerView, cache: Option<Reading>, e: Event)
    requires
        poller_wf(p),
    ensures
        ({
            let p1 = next(p, cache, e).0;
            &&& p1.clock != p.clock ==> p.state is Fetching && e is Fetched && e->power is Ok
                && e->energy is Ok
            &&& p.clock is Some ==> p1.clock is Some && p.clock->Some_0 <= p1.clock->Some_0
        }),
{
}

/// Whatever sequence of events the poller handles, the cache ends either as it started or
/// holding a reading that one single fetch event reported whole: fields of two cycles are
/// never mixed.
pub proof fn lemma_cache_never_mixes_cycles(p: PollerView, cache: Option<Reading>, events: Seq<Event>)
    requires
        poller_wf(p),
    ensures
        ({
            let c = run_events(p, cache, events).1;
            ||| c == cache
            ||| c is Some && exists|i: int|
                0 <= i < events.len() && reported_by(#[trigger] events[i], c->Some_0)
        }),
        poller_wf(run_events(p, cache, events).0),
    decreases events.len(),
{
    if events.len() > 0 {
        let prev = events.drop_last();
        lemma_cache_never_mixes_cycles(p, cache, prev);
        let (p1, c1) = run_events(p, cache, prev);
        let c2 = next(p1, c1, events.last()).1;
        if c2 != c1 {
            assert(reported_by(events[events.len() - 1], c2->Some_0));
        } else if c1 != cache {
            let i = choose|i: int| 0 <= i < prev.len() && reported_by(#[trigger] prev[i], c1->Some_0);
            assert(events[i] == prev[i]);
        }
    }
}

} // verus!
