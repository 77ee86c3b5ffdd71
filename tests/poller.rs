use autarco_scraper::{Action, Event, FetchError, Poller, PollerState, Reading, StatusCache};

fn idle_poller(interval: u64, cache: &mut StatusCache) -> Poller {
    let mut p = Poller::new(interval);
    assert_eq!(p.step(Event::Started, cache), Action::Authenticate);
    assert_eq!(p.state(), PollerState::Authenticating);
    assert_eq!(p.step(Event::AuthSucceeded, cache), Action::Wait);
    assert_eq!(p.state(), PollerState::Idle);
    p
}

fn cycle(p: &mut Poller, cache: &mut StatusCache, w: u32, kwh: u32, now: u64) -> Action {
    assert_eq!(p.step(Event::Tick { now, cancelled: false }, cache), Action::Fetch);
    p.step(Event::Fetched { power: Ok(w), energy: Ok(kwh), now }, cache)
}

#[test]
fn read_before_and_after_two_cycles() {
    let mut cache = StatusCache::new();
    assert_eq!(cache.read(), None);
    let mut p = idle_poller(300, &mut cache);
    assert_eq!(cache.read(), None);

    let t1: u64 = 1_700_000_000;
    assert_eq!(cycle(&mut p, &mut cache, 500, 1200, t1), Action::Wait);
    assert_eq!(cache.read(), Some(Reading { current_w: 500, total_kwh: 1200, last_updated: t1 }));

    let t2 = t1 + 300;
    assert_eq!(cycle(&mut p, &mut cache, 480, 1201, t2), Action::Wait);
    assert_eq!(cache.read(), Some(Reading { current_w: 480, total_kwh: 1201, last_updated: t2 }));
}

#[test]
fn cache_holds_the_last_of_many_cycles() {
    let mut cache = StatusCache::new();
    let mut p = idle_poller(60, &mut cache);
    let mut now: u64 = 10_000;
    for i in 0..20u32 {
        cycle(&mut p, &mut cache, 100 + i, 5000 + 2 * i, now);
        assert_eq!(p.last_fetch(), Some(now));
        assert_eq!(
            cache.read(),
            Some(Reading { current_w: 100 + i, total_kwh: 5000 + 2 * i, last_updated: now })
        );
        now += 60;
    }
}

#[test]
fn waits_until_the_interval_has_passed() {
    let mut cache = StatusCache::new();
    let mut p = idle_poller(300, &mut cache);
    cycle(&mut p, &mut cache, 1, 2, 1000);
    for t in 1001..1300u64 {
        assert_eq!(p.step(Event::Tick { now: t, cancelled: false }, &mut cache), Action::Wait);
        assert_eq!(p.state(), PollerState::Idle);
    }
    assert_eq!(p.step(Event::Tick { now: 1300, cancelled: false }, &mut cache), Action::Fetch);
    assert_eq!(p.state(), PollerState::Fetching);
}

#[test]
fn transient_failure_keeps_cache_and_clock_and_retries_next_tick() {
    let mut cache = StatusCache::new();
    let mut p = idle_poller(300, &mut cache);
    cycle(&mut p, &mut cache, 500, 1200, 1000);
    let before = cache.read();

    assert_eq!(p.step(Event::Tick { now: 1300, cancelled: false }, &mut cache), Action::Fetch);
    let a = p.step(
        Event::Fetched { power: Ok(480), energy: Err(FetchError::Transient), now: 1301 },
        &mut cache,
    );
    assert_eq!(a, Action::Wait);
    assert_eq!(p.state(), PollerState::Idle);
    assert_eq!(cache.read(), before);
    assert_eq!(p.last_fetch(), Some(1000));

    assert_eq!(p.step(Event::Tick { now: 1302, cancelled: false }, &mut cache), Action::Fetch);
}

#[test]
fn malformed_value_is_a_transient_failure() {
    let mut cache = StatusCache::new();
    let mut p = idle_poller(300, &mut cache);
    assert_eq!(p.step(Event::Tick { now: 50, cancelled: false }, &mut cache), Action::Fetch);
    let a = p.step(
        Event::Fetched { power: Err(FetchError::Malformed), energy: Ok(7), now: 51 },
        &mut cache,
    );
    assert_eq!(a, Action::Wait);
    assert_eq!(cache.read(), None);
    assert_eq!(p.last_fetch(), None);
    assert_eq!(p.step(Event::Tick { now: 52, cancelled: false }, &mut cache), Action::Fetch);
}

#[test]
fn unauthorized_fetch_reauthenticates_and_resumes() {
    let mut cache = StatusCache::new();
    let mut p = idle_poller(300, &mut cache);
    cycle(&mut p, &mut cache, 500, 1200, 1000);

    assert_eq!(p.step(Event::Tick { now: 1300, cancelled: false }, &mut cache), Action::Fetch);
    let a = p.step(
        Event::Fetched { power: Ok(1), energy: Err(FetchError::Unauthorized), now: 1300 },
        &mut cache,
    );
    assert_eq!(a, Action::Authenticate);
    assert_eq!(p.state(), PollerState::Authenticating);
    assert_eq!(cache.read(), Some(Reading { current_w: 500, total_kwh: 1200, last_updated: 1000 }));

    assert_eq!(p.step(Event::AuthSucceeded, &mut cache), Action::Wait);
    assert_eq!(p.state(), PollerState::Idle);
    assert_eq!(cycle(&mut p, &mut cache, 480, 1201, 1301), Action::Wait);
    assert_eq!(cache.read(), Some(Reading { current_w: 480, total_kwh: 1201, last_updated: 1301 }));
}

#[test]
fn unauthorized_wins_over_transient_in_one_cycle() {
    let mut cache = StatusCache::new();
    let mut p = idle_poller(300, &mut cache);
    assert_eq!(p.step(Event::Tick { now: 5, cancelled: false }, &mut cache), Action::Fetch);
    let a = p.step(
        Event::Fetched {
            power: Err(FetchError::Unauthorized),
            energy: Err(FetchError::Transient),
            now: 6,
        },
        &mut cache,
    );
    assert_eq!(a, Action::Authenticate);
}

#[test]
fn failed_reauthentication_backs_off_and_retries() {
    let mut cache = StatusCache::new();
    let mut p = idle_poller(300, &mut cache);
    assert_eq!(p.step(Event::Tick { now: 5, cancelled: false }, &mut cache), Action::Fetch);
    p.step(
        Event::Fetched { power: Err(FetchError::Unauthorized), energy: Ok(1), now: 6 },
        &mut cache,
    );
    assert_eq!(p.step(Event::AuthFailed, &mut cache), Action::Backoff);
    assert_eq!(p.state(), PollerState::ReauthNeeded);
    assert_eq!(p.step(Event::Tick { now: 11, cancelled: false }, &mut cache), Action::Authenticate);
    assert_eq!(p.step(Event::AuthSucceeded, &mut cache), Action::Wait);
    assert_eq!(p.step(Event::Tick { now: 12, cancelled: false }, &mut cache), Action::Fetch);
}

#[test]
fn first_authentication_failure_is_fatal() {
    let mut cache = StatusCache::new();
    let mut p = Poller::new(300);
    p.step(Event::Started, &mut cache);
    assert_eq!(p.step(Event::AuthFailed, &mut cache), Action::Fail);
    assert_eq!(p.state(), PollerState::Stopped);
    assert_eq!(p.step(Event::Tick { now: 1, cancelled: false }, &mut cache), Action::Ignore);
}

#[test]
fn shutdown_while_idle_stops_on_that_tick() {
    let mut cache = StatusCache::new();
    let mut p = idle_poller(300, &mut cache);
    cycle(&mut p, &mut cache, 500, 1200, 1000);
    assert_eq!(p.step(Event::Tick { now: 1001, cancelled: true }, &mut cache), Action::Stop);
    assert_eq!(p.state(), PollerState::Stopped);
    assert_eq!(cache.read(), Some(Reading { current_w: 500, total_kwh: 1200, last_updated: 1000 }));
}

#[test]
fn shutdown_while_fetching_lets_the_cycle_finish() {
    let mut cache = StatusCache::new();
    let mut p = idle_poller(300, &mut cache);
    assert_eq!(p.step(Event::Tick { now: 1000, cancelled: false }, &mut cache), Action::Fetch);
    let a = p.step(Event::Fetched { power: Ok(500), energy: Ok(1200), now: 1000 }, &mut cache);
    assert_eq!(a, Action::Wait);
    assert_eq!(cache.read(), Some(Reading { current_w: 500, total_kwh: 1200, last_updated: 1000 }));
    assert_eq!(p.step(Event::Tick { now: 1001, cancelled: true }, &mut cache), Action::Stop);
    assert_eq!(p.state(), PollerState::Stopped);
}

#[test]
fn shutdown_while_waiting_to_reauthenticate() {
    let mut cache = StatusCache::new();
    let mut p = idle_poller(300, &mut cache);
    p.step(Event::Tick { now: 5, cancelled: false }, &mut cache);
    p.step(
        Event::Fetched { power: Err(FetchError::Unauthorized), energy: Ok(1), now: 6 },
        &mut cache,
    );
    p.step(Event::AuthFailed, &mut cache);
    assert_eq!(p.step(Event::Tick { now: 11, cancelled: true }, &mut cache), Action::Stop);
    assert_eq!(p.state(), PollerState::Stopped);
}

#[test]
fn events_out_of_place_are_ignored() {
    let mut cache = StatusCache::new();
    let mut p = Poller::new(300);
    assert_eq!(p.step(Event::AuthSucceeded, &mut cache), Action::Ignore);
    assert_eq!(p.state(), PollerState::Unauthenticated);
    p.step(Event::Started, &mut cache);
    assert_eq!(p.step(Event::Tick { now: 1, cancelled: true }, &mut cache), Action::Ignore);
    assert_eq!(p.state(), PollerState::Authenticating);
    p.step(Event::AuthSucceeded, &mut cache);
    let a = p.step(Event::Fetched { power: Ok(1), energy: Ok(2), now: 3 }, &mut cache);
    assert_eq!(a, Action::Ignore);
    assert_eq!(cache.read(), None);
}

#[test]
fn poll_clock_never_goes_back() {
    let mut cache = StatusCache::new();
    let mut p = idle_poller(0, &mut cache);
    cycle(&mut p, &mut cache, 1, 1, 1000);
    assert_eq!(p.step(Event::Tick { now: 1000, cancelled: false }, &mut cache), Action::Fetch);
    p.step(Event::Fetched { power: Ok(2), energy: Ok(2), now: 900 }, &mut cache);
    assert_eq!(p.last_fetch(), Some(1000));
    assert_eq!(cache.read(), Some(Reading { current_w: 2, total_kwh: 2, last_updated: 900 }));
}
