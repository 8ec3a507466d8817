//! The second-factor flows' decisions. The challenge tries the TOTP
//! code first and falls back to a backup code only when the TOTP code
//! was simply wrong; every failure answers the same "Could not verify
//! your code." The enrolment form accepts a six-digit candidate only.
use vstd::prelude::*;
use crate::recovery::{parse_u32, parse_u32_chars};
use crate::text::chars_of;

verus! {

/// What the TOTP check answered.
#[derive(Debug, Clone, Copy, PartialEq, Eq, Structural)]
pub enum TotpOutcome {
    Verified,
    /// The code does not match.
    Invalid,
    /// The code was already used in its time step.
    Replay,
    /// The user has no second factor.
    NotEnrolled,
}

/// What the challenge handler has just learned.
#[derive(Debug, Clone, Copy, PartialEq, Eq, Structural)]
pub enum MfaEvent {
    /// The submitted code (trimmed) is empty or not.
    CodeSubmitted { empty: bool },
    /// The request's session was resolved from its cookie, or not.
    SessionResolved { found: bool },
    TotpChecked { outcome: TotpOutcome },
    /// The backup-code fallback consumed a code, or not.
    BackupChecked { consumed: bool },
}

/// What the challenge handler does next.
#[derive(Debug, Clone, Copy, PartialEq, Eq, Structural)]
pub enum MfaAction {
    ResolveSession,
    CheckTotp,
    TryBackupCode,
    /// Rotate the session to a verified one and go to the dashboard.
    Promote,
    /// The uniform 401.
    Fail,
}

/// The challenge's rules: an empty code or an unknown session fails; a
/// verified TOTP code promotes; a wrong one (only) gets the backup-code
/// fallback; a replayed code or a user without a second factor fails
/// without trying a backup code.
pub open spec fn mfa_rule(ev: MfaEvent) -> MfaAction {
    match ev {
        MfaEvent::CodeSubmitted { empty } => if empty { MfaAction::Fail } else { MfaAction::ResolveSession },
        MfaEvent::SessionResolved { found } => if found { MfaAction::CheckTotp } else { MfaAction::Fail },
        MfaEvent::TotpChecked { outcome } => match outcome {
            TotpOutcome::Verified => MfaAction::Promote,
            TotpOutcome::Invalid => MfaAction::TryBackupCode,
            _ => MfaAction::Fail,
        },
        MfaEvent::BackupChecked { consumed } => if consumed { MfaAction::Promote } else { MfaAction::Fail },
    }
}

/// The next step of the challenge (see [`mfa_rule`]).
pub fn mfa_verify_step(ev: MfaEvent) -> (a: MfaAction)
    ensures
        a == mfa_rule(ev),
{
    match ev {
        MfaEvent::CodeSubmitted { empty } => if empty {
            MfaAction::Fail
        } else {
            MfaAction::ResolveSession
        },
        MfaEvent::SessionResolved { found } => if found {
            MfaAction::CheckTotp
        } else {
            MfaAction::Fail
        },
        MfaEvent::TotpChecked { outcome } => match outcome {
            TotpOutcome::Verified => MfaAction::Promote,
            TotpOutcome::Invalid => MfaAction::TryBackupCode,
            TotpOutcome::Replay => MfaAction::Fail,
            TotpOutcome::NotEnrolled => MfaAction::Fail,
        },
        MfaEvent::BackupChecked { consumed } => if consumed {
            MfaAction::Promote
        } else {
            MfaAction::Fail
        },
    }
}

/// The message of every failed challenge or enrolment attempt.
pub fn could_not_verify() -> (m: &'static str)
    ensures
        m@ == "Could not verify your code."@,
{
    "Could not verify your code."
}

/// The enrolment candidate: the trimmed code as a `u32` below one
/// million.
pub open spec fn candidate_of(code: Seq<char>) -> Option<u32> {
    match parse_u32(code) {
        Some(n) => if n < 1000000 { Some(n) } else { None },
        None => None,
    }
}

/// Reads the enrolment candidate (see [`candidate_of`]).
pub fn enrol_candidate_code(code: &str) -> (r: Option<u32>)
    ensures
        r == candidate_of(code@),
{
    let v = chars_of(code);
    match parse_u32_chars(v.as_slice()) {
        Some(n) => if n < 1000000 {
            Some(n)
        } else {
            None
        },
        None => None,
    }
}

/// A session is promoted only after a verified TOTP code or a consumed
/// backup code; a replayed TOTP code never reaches the backup-code
/// fallback.
pub proof fn lemma_promotion_needs_a_factor(ev: MfaEvent)
    ensures
        mfa_rule(ev) == MfaAction::Promote ==> (ev == MfaEvent::TotpChecked { outcome: TotpOutcome::Verified }
            || ev == MfaEvent::BackupChecked { consumed: true }),
        mfa_rule(MfaEvent::TotpChecked { outcome: TotpOutcome::Replay }) == MfaAction::Fail,
{
}

} // verus!
