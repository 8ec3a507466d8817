//! The admin health dashboard: one row per check, and the verdicts
//! each check draws from what was probed.
use vstd::prelude::*;
use crate::text::{decimal, decimal_int, i64_string, push_str, push_string, to_owned_string, usize_string};

verus! {

/// Severity of one health check, ordered Good < Warn < Error.
#[derive(Debug, Clone, PartialEq, Eq, Structural)]
pub enum HealthStatus {
    Good,
    Warn,
    Error,
}

pub open spec fn health_status_name(s: HealthStatus) -> Seq<char> {
    match s {
        HealthStatus::Good => "ok"@,
        HealthStatus::Warn => "warn"@,
        HealthStatus::Error => "error"@,
    }
}

impl HealthStatus {
    /// Stable lowercase pill class.
    pub fn as_str(&self) -> (s: &'static str)
        ensures
            s@ == health_status_name(*self),
    {
        match self {
            HealthStatus::Good => "ok",
            HealthStatus::Warn => "warn",
            HealthStatus::Error => "error",
        }
    }
}

/// One row of the health dashboard.
#[derive(Debug, Clone)]
pub struct HealthCheck {
    pub label: &'static str,
    pub status: HealthStatus,
    pub message: String,
}

/// The row of the `SELECT 1` probe.
pub open spec fn is_db_check(c: HealthCheck, db_ok: bool) -> bool {
    &&& c.label@ == "Postgres reachable"@
    &&& c.status == (if db_ok { HealthStatus::Good } else { HealthStatus::Error })
    &&& c.message@ == (if db_ok {
        "Pool accepted `SELECT 1`."@
    } else {
        "Pool query failed. Check `DATABASE_URL` + network."@
    })
}

/// Verdict on the `SELECT 1` probe.
pub fn db_reachable_check(db_ok: bool) -> (c: HealthCheck)
    ensures
        is_db_check(c, db_ok),
{
    HealthCheck {
        label: "Postgres reachable",
        status: if db_ok {
            HealthStatus::Good
        } else {
            HealthStatus::Error
        },
        message: if db_ok {
            to_owned_string("Pool accepted `SELECT 1`.")
        } else {
            to_owned_string("Pool query failed. Check `DATABASE_URL` + network.")
        },
    }
}

/// The row of the auth-table probe.
pub open spec fn is_auth_tables_check(c: HealthCheck, exists: bool) -> bool {
    &&& c.label@ == "Auth tables present"@
    &&& c.status == (if exists { HealthStatus::Good } else { HealthStatus::Error })
    &&& c.message@ == (if exists {
        "rustio_users + rustio_sessions are in place."@
    } else {
        "Boot the app once or run `rustio user create` to seed them."@
    })
}

/// Verdict on whether the auth tables exist.
pub fn auth_tables_check(exists: bool) -> (c: HealthCheck)
    ensures
        is_auth_tables_check(c, exists),
{
    HealthCheck {
        label: "Auth tables present",
        status: if exists {
            HealthStatus::Good
        } else {
            HealthStatus::Error
        },
        message: if exists {
            to_owned_string("rustio_users + rustio_sessions are in place.")
        } else {
            to_owned_string("Boot the app once or run `rustio user create` to seed them.")
        },
    }
}

/// The row of the active-administrator count.
pub open spec fn is_admin_check(c: HealthCheck, admin_count: i64) -> bool {
    &&& c.label@ == "Active administrator"@
    &&& c.status == (if admin_count > 0 { HealthStatus::Good } else { HealthStatus::Error })
    &&& c.message@ == (if admin_count > 0 {
        decimal_int(admin_count as int) + " active administrator(s) on file."@
    } else {
        "No active administrator. Run `rustio user create --email … --role administrator`."@
    })
}

/// Verdict on the count of active administrators.
pub fn active_admin_check(admin_count: i64) -> (c: HealthCheck)
    ensures
        is_admin_check(c, admin_count),
{
    if admin_count > 0 {
        let mut m = i64_string(admin_count);
        push_str(&mut m, " active administrator(s) on file.");
        HealthCheck { label: "Active administrator", status: HealthStatus::Good, message: m }
    } else {
        HealthCheck {
            label: "Active administrator",
            status: HealthStatus::Error,
            message: to_owned_string(
                "No active administrator. Run `rustio user create --email … --role administrator`.",
            ),
        }
    }
}

/// Verdict on `RUSTIO_SECRET_KEY`, given its length in bytes when set:
/// at least 43 is Ok, empty or unset is a warning, anything else is
/// too short.
pub open spec fn is_secret_key_check(c: HealthCheck, key_len: Option<usize>) -> bool {
    &&& c.label@ == "RUSTIO_SECRET_KEY"@
    &&& match key_len {
            Some(n) if n >= 43 => c.status == HealthStatus::Good && c.message@ == "Set ("@ + decimal(
                n as nat,
            ) + " chars)."@,
            Some(n) if n == 0 => c.status == HealthStatus::Warn && c.message@
                == "Empty. MFA enrol + emergency-access URL signing will refuse."@,
            Some(n) => c.status == HealthStatus::Error && c.message@ == "Too short ("@ + decimal(
                n as nat,
            ) + " chars; need ≥ 43 URL-safe-base64 chars = 32 raw bytes)."@,
            None => c.status == HealthStatus::Warn && c.message@
                == "Not set. MFA enrol + emergency-access URL signing will refuse."@,
        }
}

/// Verdict on `RUSTIO_SECRET_KEY` (see [`is_secret_key_check`]).
pub fn secret_key_check(key_len: Option<usize>) -> (c: HealthCheck)
    ensures
        is_secret_key_check(c, key_len),
{
    match key_len {
        Some(n) => {
            if n >= 43 {
                let mut m = to_owned_string("Set (");
                push_string(&mut m, usize_string(n));
                push_str(&mut m, " chars).");
                HealthCheck { label: "RUSTIO_SECRET_KEY", status: HealthStatus::Good, message: m }
            } else if n == 0 {
                HealthCheck {
                    label: "RUSTIO_SECRET_KEY",
                    status: HealthStatus::Warn,
                    message: to_owned_string(
                        "Empty. MFA enrol + emergency-access URL signing will refuse.",
                    ),
                }
            } else {
                let mut m = to_owned_string("Too short (");
                push_string(&mut m, usize_string(n));
                push_str(&mut m, " chars; need ≥ 43 URL-safe-base64 chars = 32 raw bytes).");
                HealthCheck { label: "RUSTIO_SECRET_KEY", status: HealthStatus::Error, message: m }
            }
        },
        None => HealthCheck {
            label: "RUSTIO_SECRET_KEY",
            status: HealthStatus::Warn,
            message: to_owned_string("Not set. MFA enrol + emergency-access URL signing will refuse."),
        },
    }
}

/// The dashboard's rows in their fixed order, from the probes'
/// outcomes: database reachable, auth tables, active administrators
/// (counted as none when the auth tables are missing), secret key.
pub fn health_checks(db_ok: bool, auth_exists: bool, admin_count: i64, key_len: Option<usize>) -> (r: Vec<
    HealthCheck,
>)
    ensures
        r@.len() == 4,
        is_db_check(r@[0], db_ok),
        is_auth_tables_check(r@[1], auth_exists),
        is_admin_check(r@[2], if auth_exists { admin_count } else { 0 }),
        is_secret_key_check(r@[3], key_len),
{
    let mut out: Vec<HealthCheck> = Vec::new();
    out.push(db_reachable_check(db_ok));
    out.push(auth_tables_check(auth_exists));
    out.push(
        active_admin_check(
            if auth_exists {
                admin_count
            } else {
                0
            },
        ),
    );
    out.push(secret_key_check(key_len));
    out
}

} // verus!
