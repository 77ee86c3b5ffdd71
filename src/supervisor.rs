use vstd::prelude::*;

verus! {

/// A task that the supervisor watches has ended.
#[derive(Clone, Copy, Debug, PartialEq, Eq, Structural)]
pub enum TaskEnded {
    /// The server has terminated, for instance after a shutdown request.
    Server,
    /// The poller task has exited; `fatal` when it ended on an error rather than on the
    /// shutdown signal.
    Poller { fatal: bool },
}

/// What the supervisor does next.
#[derive(Clone, Copy, Debug, PartialEq, Eq, Structural)]
pub enum SupervisorAction {
    /// Broadcast the shutdown signal to the poller, then await its exit.
    SignalPoller,
    /// Ask the server to shut down, then await its termination.
    SignalServer,
    /// Both tasks have ended: end the process, with a failure status when `failed`.
    Finish { failed: bool },
    /// The task had already ended: nothing to do.
    Ignore,
}

/// The supervisor as a value: which tasks still run, and whether the poller failed.
#[derive(Clone, Copy, Debug, PartialEq, Eq, Structural)]
pub struct SupervisorView {
    pub poller_running: bool,
    pub server_running: bool,
    pub failed: bool,
}

/// The supervisor's step on `ended` from `v`: whichever task ends first, the other is told to
/// stop; once both have ended the process finishes, failed exactly when the poller failed.
pub open spec fn supervise(v: SupervisorView, ended: TaskEnded) -> (SupervisorView, SupervisorAction) {
    match ended {
        TaskEnded::Server => if !v.server_running {
            (v, SupervisorAction::Ignore)
        } else if v.poller_running {
            (SupervisorView { server_running: false, ..v }, SupervisorAction::SignalPoller)
        } else {
            (SupervisorView { server_running: false, ..v }, SupervisorAction::Finish { failed: v.failed })
        },
        TaskEnded::Poller { fatal } => if !v.poller_running {
            (v, SupervisorAction::Ignore)
        } else if v.server_running {
            (SupervisorView { poller_running: false, failed: v.failed || fatal, ..v }, SupervisorAction::SignalServer)
        } else {
            (
                SupervisorView { poller_running: false, failed: v.failed || fatal, ..v },
                SupervisorAction::Finish { failed: v.failed || fatal },
            )
        },
    }
}

/// Owns the lifetimes of the poller and the server and makes them stop together.
pub struct Supervisor {
    poller_running: bool,
    server_running: bool,
    failed: bool,
}

impl View for Supervisor {
    type V = SupervisorView;

    closed spec fn view(&self) -> SupervisorView {
        SupervisorView {
            poller_running: self.poller_running,
            server_running: self.server_running,
            failed: self.failed,
        }
    }
}

impl Supervisor {
    /// A supervisor of two freshly started tasks.
    pub fn new() -> (s: Supervisor)
        ensures
            s@ == (SupervisorView { poller_running: true, server_running: true, failed: false }),
    {
        Supervisor { poller_running: true, server_running: true, failed: false }
    }

    /// Whether both tasks have ended.
    pub fn is_finished(&self) -> (r: bool)
        ensures
            r == (!self@.poller_running && !self@.server_running),
    {
        !self.poller_running && !self.server_running
    }

    /// Records that a task ended and returns what to do about the other one.
    pub fn task_ended(&mut self, ended: TaskEnded) -> (a: SupervisorAction)
        ensures
            (final(self)@, a) == supervise(old(self)@, ended),
    {
        match ended {
            TaskEnded::Server => {
                if !self.server_running {
                    return SupervisorAction::Ignore;
                }
                self.server_running = false;
                if self.poller_running {
                    SupervisorAction::SignalPoller
                } else {
                    SupervisorAction::Finish { failed: self.failed }
                }
            },
            TaskEnded::Poller { fatal } => {
                if !self.poller_running {
                    return SupervisorAction::Ignore;
                }
                self.poller_running = false;
                self.failed = self.failed || fatal;
                if self.server_running {
                    SupervisorAction::SignalServer
                } else {
                    SupervisorAction::Finish { failed: self.failed }
                }
            },
        }
    }
}

} // verus!
