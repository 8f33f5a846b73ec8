//! The reconciliation state machine of an `OAuthConnection`.
//!
//! One reconciliation is a pure decision over the current resource snapshot
//! and the outcomes of the outside calls the control loop made on its
//! behalf (credential resolution, secret deletion, the clock). Each phase
//! has one step function; the control loop performs the writes, publishes
//! the events and schedules the action the step asks for.
use vstd::prelude::*;
use crate::kubernetes::controller::{Action, EventKind, EventRecord};
use crate::kubernetes::secrets::{get_string_value, key_resolves, key_value, Secret};
use crate::oauth_connection::resource::{
    status_view, status_wf, OAuthConnection, OAuthConnectionPhase, OAuthConnectionStatus,
};
use crate::timefmt::{parse_rfc3339, rfc3339_secs};
use crate::{api_version, CredentialError, RESOURCE_NAMESPACE, RESOURCE_VERSION};

verus! {

/// Everything one phase step asks the control loop to do: an optional
/// status patch, the events to publish, and the next action.
pub struct PhaseOutcome {
    pub status_patch: Option<OAuthConnectionStatus>,
    pub events: Vec<EventRecord>,
    pub action: Action,
}

/// The phase a snapshot is reconciled under: the status phase when the
/// resource carries one, `None` for a fresh resource.
pub open spec fn spec_phase(conn: OAuthConnection) -> Option<OAuthConnectionPhase> {
    match conn.status {
        Some(st) => st.phase,
        None => None,
    }
}

/// Which phase step the control loop must run for this snapshot.
pub fn dispatch_phase(conn: &OAuthConnection) -> (p: Option<OAuthConnectionPhase>)
    ensures
        p == spec_phase(*conn),
{
    match &conn.status {
        Some(st) => st.phase,
        None => None,
    }
}

/// Full description of the bootstrap step: patch the phase to
/// `Initializing`, emit exactly one Normal event, then wait for the watch
/// event the patch triggers.
pub open spec fn none_outcome(out: PhaseOutcome) -> bool {
    &&& out.status_patch matches Some(st) && st == (OAuthConnectionStatus {
        phase: Some(OAuthConnectionPhase::Initializing),
        secret_name: None,
        expires_at: None,
    })
    &&& out.events@.len() == 1
    &&& out.events@[0].kind == EventKind::Normal
    &&& out.events@[0].reason@ == "Unknown State"@
    &&& out.events@[0].action@ == "Bootstrapping"@
    &&& out.events@[0].note matches Some(n) && n@ == "Bootstrapped. Moving to Initializing"@
    &&& out.action == Action::AwaitChange
}

/// Reconciles a connection that has no status phase yet.
pub fn none_step() -> (out: PhaseOutcome)
    ensures
        none_outcome(out),
{
    let mut events: Vec<EventRecord> = Vec::new();
    events.push(
        EventRecord {
            kind: EventKind::Normal,
            reason: "Unknown State".to_owned(),
            action: "Bootstrapping".to_owned(),
            note: Some("Bootstrapped. Moving to Initializing".to_owned()),
        },
    );
    PhaseOutcome {
        status_patch: Some(
            OAuthConnectionStatus {
                phase: Some(OAuthConnectionPhase::Initializing),
                secret_name: None,
                expires_at: None,
            },
        ),
        events,
        action: Action::AwaitChange,
    }
}

/// Full description of the `Initializing` step: with resolvable
/// credentials the phase advances to `Disconnected` with one Normal event;
/// otherwise nothing is patched and one Warning event is emitted. Either
/// way the resource is revisited after a minute.
pub open spec fn initializing_outcome(
    creds: Result<(String, String), CredentialError>,
    out: PhaseOutcome,
) -> bool {
    &&& (creds is Ok ==> {
        &&& out.status_patch matches Some(st) && st == (OAuthConnectionStatus {
            phase: Some(OAuthConnectionPhase::Disconnected),
            secret_name: None,
            expires_at: None,
        })
        &&& out.events@.len() == 1
        &&& out.events@[0].kind == EventKind::Normal
        &&& out.events@[0].reason@ == "Client ID/Secret available"@
        &&& out.events@[0].action@ == "Disconnected"@
        &&& out.events@[0].note matches Some(n) && n@ == "Initialized. Moving to Disconnected"@
    })
    &&& (creds is Err ==> {
        &&& out.status_patch is None
        &&& out.events@.len() == 1
        &&& out.events@[0].kind == EventKind::Warning
        &&& out.events@[0].reason@ == "Client ID/Secret unavailable"@
        &&& out.events@[0].action@ == "Initializing"@
        &&& out.events@[0].note matches Some(n) && n@ == "Failed to initialize"@
    })
    &&& out.action == Action::Requeue(60)
}

/// Reconciles a connection in `Initializing`, given the outcome of
/// resolving its client credentials.
pub fn initializing_step(creds: &Result<(String, String), CredentialError>) -> (out: PhaseOutcome)
    ensures
        initializing_outcome(*creds, out),
{
    let mut events: Vec<EventRecord> = Vec::new();
    match creds {
        Ok(_) => {
            events.push(
                EventRecord {
                    kind: EventKind::Normal,
                    reason: "Client ID/Secret available".to_owned(),
                    action: "Disconnected".to_owned(),
                    note: Some("Initialized. Moving to Disconnected".to_owned()),
                },
            );
            PhaseOutcome {
                status_patch: Some(
                    OAuthConnectionStatus {
                        phase: Some(OAuthConnectionPhase::Disconnected),
                        secret_name: None,
                        expires_at: None,
                    },
                ),
                events,
                action: Action::Requeue(60),
            }
        },
        Err(_) => {
            events.push(
                EventRecord {
                    kind: EventKind::Warning,
                    reason: "Client ID/Secret unavailable".to_owned(),
                    action: "Initializing".to_owned(),
                    note: Some("Failed to initialize".to_owned()),
                },
            );
            PhaseOutcome { status_patch: None, events, action: Action::Requeue(60) }
        },
    }
}

/// Full description of the `Disconnected` step: a liveness check only. With
/// resolvable credentials nothing happens; when the credentials vanish the
/// phase falls back to `Initializing` with one Warning event. This phase
/// never self-advances to `Connected`: only the interactive flow does.
pub open spec fn disconnected_outcome(
    creds: Result<(String, String), CredentialError>,
    out: PhaseOutcome,
) -> bool {
    &&& (creds is Ok ==> {
        &&& out.status_patch is None
        &&& out.events@.len() == 0
    })
    &&& (creds is Err ==> {
        &&& out.status_patch matches Some(st) && st == (OAuthConnectionStatus {
            phase: Some(OAuthConnectionPhase::Initializing),
            secret_name: None,
            expires_at: None,
        })
        &&& out.events@.len() == 1
        &&& out.events@[0].kind == EventKind::Warning
        &&& out.events@[0].reason@ == "Client ID/Secret unavailable"@
        &&& out.events@[0].action@ == "Initializing"@
        &&& out.events@[0].note matches Some(n) && n@ == "Failed to initialize"@
    })
    &&& out.action == Action::Requeue(60)
}

/// Reconciles a connection in `Disconnected`, given the outcome of
/// resolving its client credentials.
pub fn disconnected_step(creds: &Result<(String, String), CredentialError>) -> (out: PhaseOutcome)
    ensures
        disconnected_outcome(*creds, out),
{
    let mut events: Vec<EventRecord> = Vec::new();
    match creds {
        Ok(_) => PhaseOutcome { status_patch: None, events, action: Action::Requeue(60) },
        Err(_) => {
            events.push(
                EventRecord {
                    kind: EventKind::Warning,
                    reason: "Client ID/Secret unavailable".to_owned(),
                    action: "Initializing".to_owned(),
                    note: Some("Failed to initialize".to_owned()),
                },
            );
            PhaseOutcome {
                status_patch: Some(
                    OAuthConnectionStatus {
                        phase: Some(OAuthConnectionPhase::Initializing),
                        secret_name: None,
                        expires_at: None,
                    },
                ),
                events,
                action: Action::Requeue(60),
            }
        },
    }
}

/// What the `Connected` step decides before any write happens.
#[derive(Clone, Copy, Debug, PartialEq, Eq, Structural)]
pub enum ConnectedStep {
    /// The status was lost: delete the derived secret and roll the phase
    /// back (see [`rollback_step`]).
    RollBack,
    /// Nothing to do now; schedule the contained action.
    Wait(Action),
    /// The token expires within three hours (or already has): attempt a
    /// refresh-token exchange.
    Refresh,
}

/// Seconds before expiry under which a refresh is attempted.
pub const REFRESH_MARGIN_SECS: i64 = 10800;

/// Full description of the `Connected` decision: roll back when the status
/// was lost; revisit in a minute when the expiry is missing or does not
/// parse; do nothing for an hour while the token has at least three hours
/// left; otherwise attempt a refresh.
pub open spec fn connected_decision(
    status: Option<OAuthConnectionStatus>,
    now: i64,
) -> ConnectedStep {
    match status {
        None => ConnectedStep::RollBack,
        Some(st) => match st.expires_at {
            None => ConnectedStep::Wait(Action::Requeue(60)),
            Some(ea) => match rfc3339_secs(ea@) {
                None => ConnectedStep::Wait(Action::Requeue(60)),
                Some(e) => if e - now >= REFRESH_MARGIN_SECS {
                    ConnectedStep::Wait(Action::Requeue(3600))
                } else {
                    ConnectedStep::Refresh
                },
            },
        },
    }
}

/// Decides what a reconciliation of a `Connected` connection does, given
/// the clock reading `now` (seconds since the epoch).
pub fn connected_step(conn: &OAuthConnection, now: i64) -> (s: ConnectedStep)
    ensures
        s == connected_decision(conn.status, now),
{
    let st = match &conn.status {
        Some(st) => st,
        None => {
            return ConnectedStep::RollBack;
        },
    };
    let ea = match &st.expires_at {
        Some(ea) => ea,
        None => {
            return ConnectedStep::Wait(Action::Requeue(60));
        },
    };
    match parse_rfc3339(ea.as_str()) {
        None => ConnectedStep::Wait(Action::Requeue(60)),
        Some(e) => {
            if (e as i128) - (now as i128) >= REFRESH_MARGIN_SECS as i128 {
                ConnectedStep::Wait(Action::Requeue(3600))
            } else {
                ConnectedStep::Refresh
            }
        },
    }
}

/// Full description of the rollback step run after [`ConnectedStep::RollBack`]:
/// when the derived secret could not be deleted, warn and retry in five
/// minutes; once it is gone, patch the phase back to `Disconnected` with a
/// Warning event and revisit in a minute.
pub open spec fn rollback_outcome(delete_ok: bool, out: PhaseOutcome) -> bool {
    &&& (delete_ok ==> {
        &&& out.status_patch matches Some(st) && st == (OAuthConnectionStatus {
            phase: Some(OAuthConnectionPhase::Disconnected),
            secret_name: None,
            expires_at: None,
        })
        &&& out.events@.len() == 1
        &&& out.events@[0].kind == EventKind::Warning
        &&& out.events@[0].reason@ == "Client ID/Secret unavailable"@
        &&& out.events@[0].action@ == "Initializing"@
        &&& out.events@[0].note matches Some(n) && n@ == "Failed to initialize"@
        &&& out.action == Action::Requeue(60)
    })
    &&& (!delete_ok ==> {
        &&& out.status_patch is None
        &&& out.events@.len() == 1
        &&& out.events@[0].kind == EventKind::Warning
        &&& out.events@[0].reason@ == "Failed to delete secret for disconnected connection"@
        &&& out.events@[0].action@ == "Disconnected Cleanup"@
        &&& out.events@[0].note matches Some(n) && n@ == "Will try again in 5 minutes"@
        &&& out.action == Action::Requeue(300)
    })
}

/// Continues a rollback, given whether deleting the derived secret
/// succeeded.
pub fn rollback_step(delete_ok: bool) -> (out: PhaseOutcome)
    ensures
        rollback_outcome(delete_ok, out),
{
    let mut events: Vec<EventRecord> = Vec::new();
    if delete_ok {
        events.push(
            EventRecord {
                kind: EventKind::Warning,
                reason: "Client ID/Secret unavailable".to_owned(),
                action: "Initializing".to_owned(),
                note: Some("Failed to initialize".to_owned()),
            },
        );
        PhaseOutcome {
            status_patch: Some(
                OAuthConnectionStatus {
                    phase: Some(OAuthConnectionPhase::Disconnected),
                    secret_name: None,
                    expires_at: None,
                },
            ),
            events,
            action: Action::Requeue(60),
        }
    } else {
        events.push(
            EventRecord {
                kind: EventKind::Warning,
                reason: "Failed to delete secret for disconnected connection".to_owned(),
                action: "Disconnected Cleanup".to_owned(),
                note: Some("Will try again in 5 minutes".to_owned()),
            },
        );
        PhaseOutcome { status_patch: None, events, action: Action::Requeue(300) }
    }
}

/// The refresh token a [`ConnectedStep::Refresh`] decision hands to the
/// token-endpoint exchange: exactly the text stored under `refreshToken`
/// in the derived secret. Returns `None` — and the exchange is skipped —
/// when the key is absent or not UTF-8 text.
pub fn refresh_request(secret: &Secret) -> (r: Option<String>)
    ensures
        r is Some <==> key_resolves(*secret, "refreshToken"@),
        r matches Some(t) ==> t@ == key_value(*secret, "refreshToken"@),
{
    let key = "refreshToken".to_owned();
    match get_string_value(secret, &key) {
        Ok(t) => Some(t),
        Err(_) => None,
    }
}

/// The action scheduled after a refresh attempt. Success and failure both
/// requeue in an hour: a failed exchange deliberately leaves the phase
/// untouched, since the stored token may still be valid.
pub fn refresh_done_action(succeeded: bool) -> (a: Action)
    ensures
        a == Action::Requeue(3600),
{
    let _ = succeeded;
    Action::Requeue(3600)
}

/// The status patch document sent to the status subresource: the fixed
/// `apiVersion` and `kind` of the connection resource around the patched
/// status.
pub struct StatusPatch {
    pub api_version: String,
    pub kind: String,
    pub status: OAuthConnectionStatus,
}

/// Builds the server-side-apply document for a status patch. The document
/// is a function of the status alone, so re-applying the same status
/// yields an identical document.
pub fn connection_status_patch(status: OAuthConnectionStatus) -> (p: StatusPatch)
    ensures
        p.api_version@ == RESOURCE_NAMESPACE@ + "/"@ + RESOURCE_VERSION@,
        p.kind@ == "OAuthConnection"@,
        p.status == status,
{
    StatusPatch { api_version: api_version(), kind: "OAuthConnection".to_owned(), status }
}

/// Whether applying `patch` to the stored status `current` changes the
/// stored value: server-side apply with a fixed field manager makes the
/// stored status equal to the patch, so nothing changes exactly when they
/// already agree.
pub open spec fn spec_apply_changes(
    current: Option<OAuthConnectionStatus>,
    patch: OAuthConnectionStatus,
) -> bool {
    match current {
        Some(c) => status_view(c) != status_view(patch),
        None => true,
    }
}

/// Reports whether applying `patch` over `current` would alter the stored
/// status.
pub fn status_apply_changed(
    current: &Option<OAuthConnectionStatus>,
    patch: &OAuthConnectionStatus,
) -> (changed: bool)
    ensures
        changed == spec_apply_changes(*current, *patch),
{
    match current {
        Some(c) => !status_same(c, patch),
        None => true,
    }
}

/// Compares two statuses by wire content.
fn status_same(a: &OAuthConnectionStatus, b: &OAuthConnectionStatus) -> (r: bool)
    ensures
        r == (status_view(*a) == status_view(*b)),
{
    let phase_eq = match (&a.phase, &b.phase) {
        (Some(x), Some(y)) => *x == *y,
        (None, None) => true,
        _ => false,
    };
    let name_eq = opt_string_same(&a.secret_name, &b.secret_name);
    let expires_eq = opt_string_same(&a.expires_at, &b.expires_at);
    phase_eq && name_eq && expires_eq
}

/// Compares two optional strings by content.
fn opt_string_same(a: &Option<String>, b: &Option<String>) -> (r: bool)
    ensures
        r == (a.deep_view() == b.deep_view()),
{
    match (a, b) {
        (Some(x), Some(y)) => {
            let eq = *x == *y;
            proof {
                if x@ == y@ {
                    assert(a.deep_view() =~= b.deep_view());
                }
            }
            eq
        },
        (None, None) => true,
        _ => false,
    }
}

// ------------------------------------------------------------------
// Laws of the state machine.
// ------------------------------------------------------------------

/// A connection with no status phase is bootstrapped: one reconciliation
/// patches the phase to `Initializing`, with a well-formed status, and
/// emits exactly one Normal event.
pub proof fn lemma_uninitialized_bootstraps(conn: OAuthConnection, out: PhaseOutcome)
    requires
        spec_phase(conn) is None,
        none_outcome(out),
    ensures
        out.status_patch matches Some(st) && st.phase == Some(OAuthConnectionPhase::Initializing)
            && status_wf(st),
        out.events@.len() == 1 && out.events@[0].kind == EventKind::Normal,
{
}

/// From `Initializing` with resolvable credentials, reconciliation
/// advances the phase to `Disconnected`, and doing so is idempotent: any
/// two runs in that situation produce the same well-formed patch, never a
/// regression.
pub proof fn lemma_initializing_advances_idempotently(
    creds1: Result<(String, String), CredentialError>,
    creds2: Result<(String, String), CredentialError>,
    out1: PhaseOutcome,
    out2: PhaseOutcome,
)
    requires
        creds1 is Ok,
        creds2 is Ok,
        initializing_outcome(creds1, out1),
        initializing_outcome(creds2, out2),
    ensures
        out1.status_patch matches Some(st) && st.phase == Some(OAuthConnectionPhase::Disconnected)
            && status_wf(st),
        out1.status_patch == out2.status_patch,
        out1.action == out2.action,
{
}

/// Once `Disconnected` with credentials still resolvable, reconciliation
/// patches nothing: the phase never regresses while the credentials hold,
/// and never self-advances to `Connected`.
pub proof fn lemma_disconnected_stable(
    creds: Result<(String, String), CredentialError>,
    out: PhaseOutcome,
)
    requires
        creds is Ok,
        disconnected_outcome(creds, out),
    ensures
        out.status_patch is None,
{
}

/// A `Connected` connection whose token expires at least three hours from
/// now is left alone: the decision performs no write and schedules a
/// one-hour requeue.
pub proof fn lemma_connected_fresh_no_write(conn: OAuthConnection, now: i64)
    ensures
        (conn.status matches Some(st) && st.expires_at matches Some(ea) && rfc3339_secs(ea@)
            matches Some(e) && e - now >= REFRESH_MARGIN_SECS) ==> connected_decision(
            conn.status,
            now,
        ) == ConnectedStep::Wait(Action::Requeue(3600)),
{
}

/// A `Connected` connection whose token expires within three hours (or
/// already has) triggers a refresh attempt; the token handed to the
/// exchange is the stored `refreshToken` (pinned by `refresh_request`).
pub proof fn lemma_connected_expiring_refreshes(conn: OAuthConnection, now: i64)
    ensures
        (conn.status matches Some(st) && st.expires_at matches Some(ea) && rfc3339_secs(ea@)
            matches Some(e) && e - now < REFRESH_MARGIN_SECS) ==> connected_decision(
            conn.status,
            now,
        ) == ConnectedStep::Refresh,
{
}

/// Every status patch the phase steps emit keeps the status invariant:
/// `secret_name` and `expires_at` are populated exactly in `Connected`.
/// (The `Connected` update of the interactive flow states the same of its
/// own result.)
pub proof fn lemma_patches_keep_status_invariant(out: PhaseOutcome)
    requires
        none_outcome(out) || (exists|creds: Result<(String, String), CredentialError>|
            initializing_outcome(creds, out) || disconnected_outcome(creds, out))
            || rollback_outcome(true, out) || rollback_outcome(false, out),
    ensures
        out.status_patch matches Some(st) ==> status_wf(st),
{
}

/// Re-applying a status patch over a stored status with identical field
/// values changes nothing: server-side apply, as modelled here, converges
/// after one application.
pub proof fn lemma_status_apply_idempotent(
    stored: OAuthConnectionStatus,
    patch: OAuthConnectionStatus,
)
    requires
        status_view(stored) == status_view(patch),
    ensures
        !spec_apply_changes(Some(stored), patch),
{
}

} // verus!
