use rustio_admin::mfa::{could_not_verify, enrol_candidate_code, mfa_verify_step, MfaAction, MfaEvent, TotpOutcome};

#[test]
fn challenge_flow_tries_backup_codes_only_after_a_wrong_totp() {
    assert_eq!(mfa_verify_step(MfaEvent::CodeSubmitted { empty: true }), MfaAction::Fail);
    assert_eq!(mfa_verify_step(MfaEvent::CodeSubmitted { empty: false }), MfaAction::ResolveSession);
    assert_eq!(mfa_verify_step(MfaEvent::SessionResolved { found: false }), MfaAction::Fail);
    assert_eq!(mfa_verify_step(MfaEvent::SessionResolved { found: true }), MfaAction::CheckTotp);
    assert_eq!(mfa_verify_step(MfaEvent::TotpChecked { outcome: TotpOutcome::Verified }), MfaAction::Promote);
    assert_eq!(mfa_verify_step(MfaEvent::TotpChecked { outcome: TotpOutcome::Invalid }), MfaAction::TryBackupCode);
    assert_eq!(mfa_verify_step(MfaEvent::TotpChecked { outcome: TotpOutcome::Replay }), MfaAction::Fail);
    assert_eq!(mfa_verify_step(MfaEvent::TotpChecked { outcome: TotpOutcome::NotEnrolled }), MfaAction::Fail);
    assert_eq!(mfa_verify_step(MfaEvent::BackupChecked { consumed: true }), MfaAction::Promote);
    assert_eq!(mfa_verify_step(MfaEvent::BackupChecked { consumed: false }), MfaAction::Fail);
    assert_eq!(could_not_verify(), "Could not verify your code.");
}

#[test]
fn enrolment_candidate_is_below_a_million() {
    assert_eq!(enrol_candidate_code("123456"), Some(123456));
    assert_eq!(enrol_candidate_code("000042"), Some(42));
    assert_eq!(enrol_candidate_code("+7"), Some(7));
    assert_eq!(enrol_candidate_code("1000000"), None);
    assert_eq!(enrol_candidate_code("12 34"), None);
    assert_eq!(enrol_candidate_code(""), None);
    assert_eq!(enrol_candidate_code("-1"), None);
}
