//! Reconciliation of a provider definition. Providers are static
//! configuration: every observed change is acknowledged by patching status
//! to `Registered` and emitting one Normal event.
use vstd::prelude::*;
use crate::kubernetes::controller::{Action, EventKind, EventRecord};
use crate::oauth_api::resource::{OAuthApiPhase, OAuthApiStatus};

verus! {

/// Everything one provider reconciliation asks the control loop to do.
pub struct ApiReconcileOutcome {
    pub status_patch: OAuthApiStatus,
    pub events: Vec<EventRecord>,
    pub action: Action,
}

/// One reconciliation of an `OAuthApi`: unconditionally patch status to
/// `Registered`, emit exactly one Normal event, then wait for the next
/// change.
pub fn reconcile_step() -> (out: ApiReconcileOutcome)
    ensures
        out.status_patch.phase == Some(OAuthApiPhase::Registered),
        out.events@.len() == 1,
        out.events@[0].kind == EventKind::Normal,
        out.events@[0].action@ == "Registered"@,
        out.events@[0].reason@ == "Successfully registered OAuthAPI"@,
        out.events@[0].note is None,
        out.action == Action::AwaitChange,
{
    let mut events: Vec<EventRecord> = Vec::new();
    events.push(
        EventRecord {
            kind: EventKind::Normal,
            reason: "Successfully registered OAuthAPI".to_owned(),
            action: "Registered".to_owned(),
            note: None,
        },
    );
    ApiReconcileOutcome {
        status_patch: OAuthApiStatus { phase: Some(OAuthApiPhase::Registered) },
        events,
        action: Action::AwaitChange,
    }
}

} // verus!
