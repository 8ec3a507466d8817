use rustio_admin::health::{
    active_admin_check, auth_tables_check, db_reachable_check, secret_key_check, HealthStatus,
};

#[test]
fn status_as_str_is_snake_case_and_stable() {
    assert_eq!(HealthStatus::Good.as_str(), "ok");
    assert_eq!(HealthStatus::Warn.as_str(), "warn");
    assert_eq!(HealthStatus::Error.as_str(), "error");
}

// ---- additional cases ----

#[test]
fn probe_verdicts() {
    assert_eq!(db_reachable_check(true).status, HealthStatus::Good);
    assert_eq!(db_reachable_check(false).status, HealthStatus::Error);
    assert_eq!(auth_tables_check(false).label, "Auth tables present");
    let c = active_admin_check(3);
    assert_eq!(c.status, HealthStatus::Good);
    assert_eq!(c.message, "3 active administrator(s) on file.");
    assert_eq!(active_admin_check(0).status, HealthStatus::Error);
}

#[test]
fn secret_key_verdicts() {
    let c = secret_key_check(Some(43));
    assert_eq!(c.status, HealthStatus::Good);
    assert_eq!(c.message, "Set (43 chars).");
    assert_eq!(secret_key_check(Some(0)).status, HealthStatus::Warn);
    let c = secret_key_check(Some(10));
    assert_eq!(c.status, HealthStatus::Error);
    assert_eq!(
        c.message,
        "Too short (10 chars; need ≥ 43 URL-safe-base64 chars = 32 raw bytes)."
    );
    assert_eq!(secret_key_check(None).status, HealthStatus::Warn);
}

#[test]
fn health_checks_come_in_fixed_order() {
    let rows = rustio_admin::health::health_checks(true, false, 5, None);
    let labels: Vec<&str> = rows.iter().map(|c| c.label).collect();
    assert_eq!(labels, vec!["Postgres reachable", "Auth tables present", "Active administrator", "RUSTIO_SECRET_KEY"]);
    assert_eq!(rows[2].status, rustio_admin::health::HealthStatus::Error);
    assert_eq!(rows[3].status, rustio_admin::health::HealthStatus::Warn);
    let rows = rustio_admin::health::health_checks(true, true, 2, Some(43));
    assert_eq!(rows[2].message, "2 active administrator(s) on file.");
    assert_eq!(rows[3].message, "Set (43 chars).");
}
