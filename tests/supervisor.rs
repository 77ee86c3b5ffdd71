use autarco_scraper::{Config, Supervisor, SupervisorAction, TaskEnded, DEFAULT_POLL_INTERVAL};

#[test]
fn server_stop_signals_the_poller() {
    let mut s = Supervisor::new();
    assert_eq!(s.task_ended(TaskEnded::Server), SupervisorAction::SignalPoller);
    assert!(!s.is_finished());
    assert_eq!(s.task_ended(TaskEnded::Server), SupervisorAction::Ignore);
    assert_eq!(
        s.task_ended(TaskEnded::Poller { fatal: false }),
        SupervisorAction::Finish { failed: false }
    );
    assert!(s.is_finished());
}

#[test]
fn fatal_poller_stops_the_server_and_fails() {
    let mut s = Supervisor::new();
    assert_eq!(s.task_ended(TaskEnded::Poller { fatal: true }), SupervisorAction::SignalServer);
    assert!(!s.is_finished());
    assert_eq!(s.task_ended(TaskEnded::Poller { fatal: false }), SupervisorAction::Ignore);
    assert_eq!(s.task_ended(TaskEnded::Server), SupervisorAction::Finish { failed: true });
    assert!(s.is_finished());
}

#[test]
fn clean_poller_stop_finishes_without_failure() {
    let mut s = Supervisor::new();
    assert_eq!(s.task_ended(TaskEnded::Poller { fatal: false }), SupervisorAction::SignalServer);
    assert_eq!(s.task_ended(TaskEnded::Server), SupervisorAction::Finish { failed: false });
}

#[test]
fn config_poll_interval_defaults_to_300() {
    let c = Config::new("user".to_string(), "pw".to_string(), "site".to_string(), None);
    assert_eq!(c.poll_interval, 300);
    assert_eq!(DEFAULT_POLL_INTERVAL, 300);
    assert_eq!(c.username, "user");
    let c = Config::new("u".to_string(), "p".to_string(), "s".to_string(), Some(60));
    assert_eq!(c.poll_interval, 60);
    assert_eq!(c.site_id, "s");
}
