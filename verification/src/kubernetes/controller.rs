//! Vocabulary shared by both controllers: the next-action of a
//! reconciliation, the events it emits, and the in-memory controller state.
use vstd::prelude::*;

verus! {

/// What the control loop does after one reconciliation: revisit the resource
/// after a fixed number of seconds, or wait for the next watch event.
#[derive(Clone, Copy, Debug, PartialEq, Eq, Structural)]
pub enum Action {
    Requeue(u64),
    AwaitChange,
}

/// Classification of an emitted Kubernetes event.
#[derive(Clone, Copy, Debug, PartialEq, Eq, Structural)]
pub enum EventKind {
    Normal,
    Warning,
}

/// One event to publish against the reconciled resource.
pub struct EventRecord {
    pub kind: EventKind,
    pub reason: String,
    pub action: String,
    pub note: Option<String>,
}

/// Coarse health snapshot of one controller: when it last saw an event, and
/// the reporter identity its events carry.
pub struct State {
    /// Seconds since the epoch of the last observed watch event.
    pub last_event: i64,
    /// Identity under which events are reported.
    pub reporter: String,
}

impl State {
    /// A fresh controller state observed at `now` (seconds since the epoch),
    /// reporting as `chappai-<name>-controller`.
    pub fn new(name: String, now: i64) -> (s: State)
        ensures
            s.last_event == now,
            s.reporter@ == "chappai-"@ + name@ + "-controller"@,
    {
        let mut reporter = "chappai-".to_owned();
        reporter.append(name.as_str());
        reporter.append("-controller");
        State { last_event: now, reporter }
    }

    /// Records the instant of a newly observed watch event.
    pub fn record_event(&mut self, now: i64)
        ensures
            final(self).last_event == now,
            final(self).reporter == old(self).reporter,
    {
        self.last_event = now;
    }
}

/// The outer error policy: any reconciliation error not handled inline is
/// retried after five minutes.
pub fn error_policy() -> (a: Action)
    ensures
        a == Action::Requeue(300),
{
    Action::Requeue(300)
}

} // verus!
