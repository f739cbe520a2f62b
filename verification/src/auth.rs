//! The authorization gate: decides whether a privileged install may proceed.
//!
//! It resolves the calling process's identity and asks the system
//! policy service whether the privileged action is permitted, allowing the
//! service to prompt interactively. The decision logic lives here; the
//! caller performs the policy-service round trip and hands back its reply.
//! A process id of zero means there is no meaningful subject (the process
//! already runs fully privileged): such a caller is authorized outright and
//! the policy service is never consulted.
//!
//! Of the two deployment strategies for privileged installs, this engine
//! follows the transaction session itself (its interactive session hint lets
//! the package manager raise the privilege prompt); what is here supports
//! the alternate direct-helper strategy.

use vstd::prelude::*;

verus! {

/// The subject descriptor and options of one policy-service query.
#[derive(Debug)]
pub struct AuthRequest {
    pub pid: u32,
    pub action_id: String,
    pub allow_interaction: bool,
}

/// What the policy service answered, as the caller hands it back: the
/// `is_authorized` flag of a completed check, or the failure of the check
/// itself (identity resolution, unreachable service, failed call).
#[derive(Debug)]
pub enum PolicyReply {
    Completed { is_authorized: bool },
    Unavailable { reason: String },
}

/// The authorization verdict. `Denied` is a legitimate outcome, distinct from the
/// plumbing failures of `GateError`.
#[derive(Debug)]
pub enum AuthOutcome {
    Authorized,
    Denied,
    GateError { reason: String },
}

/// Whether the policy service must be consulted for this process
/// identity: every process but the privileged subject-less one (id zero).
pub fn needs_policy_check(pid: u32) -> (r: bool)
    ensures
        r == (pid != 0),
{
    pid != 0
}

/// Builds the policy-service query for one privileged action, or nothing
/// when the process id is zero and the service must not be consulted.
pub fn plan_authorization(pid: u32, action_id: String) -> (plan: Option<AuthRequest>)
    ensures
        (pid == 0) == (plan is None),
        plan matches Some(req) ==> req.pid == pid && req.action_id@ == action_id@
            && req.allow_interaction,
{
    if pid == 0 {
        None
    } else {
        Some(AuthRequest { pid, action_id, allow_interaction: true })
    }
}

/// The authorization verdict from the process identity and the policy service's
/// reply, when one was obtained. A zero process id is authorized outright,
/// whatever was handed back; otherwise a completed check decides, and a
/// missing or failed check is a gate error.
pub fn gate_outcome(pid: u32, reply: Option<PolicyReply>) -> (o: AuthOutcome)
    ensures
        pid == 0 ==> o is Authorized,
        pid != 0 ==> match reply {
            Some(PolicyReply::Completed { is_authorized }) => if is_authorized {
                o is Authorized
            } else {
                o is Denied
            },
            Some(PolicyReply::Unavailable { reason }) => o matches AuthOutcome::GateError {
                reason: r,
            } && r@ == reason@,
            None => o is GateError,
        },
{
    if pid == 0 {
        AuthOutcome::Authorized
    } else {
        match reply {
            Some(PolicyReply::Completed { is_authorized }) => {
                if is_authorized {
                    AuthOutcome::Authorized
                } else {
                    AuthOutcome::Denied
                }
            },
            Some(PolicyReply::Unavailable { reason }) => AuthOutcome::GateError { reason },
            None => AuthOutcome::GateError {
                reason: String::from_str("policy service was not consulted"),
            },
        }
    }
}

} // verus!
