use rustio_admin::auth::{Identity, Role};
use rustio_admin::bulk::{BulkActionContext, BulkActionFailure, BulkActionResult};

#[test]
fn ok_constructs_clean_result() {
    let r = BulkActionResult::ok(7);
    assert_eq!(r.succeeded, 7);
    assert!(r.failed.is_empty());
    assert!(r.message.is_none());
    assert_eq!(r.total(), 7);
}

#[test]
fn partial_carries_failures_into_total() {
    let r = BulkActionResult::partial(
        5,
        vec![
            BulkActionFailure::new(42, "already overdue"),
            BulkActionFailure::new(51, "row not active"),
        ],
    );
    assert_eq!(r.succeeded, 5);
    assert_eq!(r.failed.len(), 2);
    assert_eq!(r.total(), 7);
    assert_eq!(r.failed[0].id, 42);
    assert_eq!(r.failed[0].reason, "already overdue");
}

#[test]
fn with_message_attaches_summary() {
    let r = BulkActionResult::ok(3).with_message("Marked 3 loans overdue");
    assert_eq!(r.message.as_deref(), Some("Marked 3 loans overdue"));
}

#[test]
fn default_is_zero_result() {
    let r = BulkActionResult::default();
    assert_eq!(r.succeeded, 0);
    assert!(r.failed.is_empty());
    assert_eq!(r.total(), 0);
}

#[test]
fn failure_new_owns_reason() {
    let f1 = BulkActionFailure::new(1, "static");
    let f2 = BulkActionFailure::new(2, String::from("owned"));
    let f3 = BulkActionFailure::new(3, format!("{}-{}", "fmt", "string"));
    assert_eq!(f1.reason, "static");
    assert_eq!(f2.reason, "owned");
    assert_eq!(f3.reason, "fmt-string");
}

// ---- additional cases ----

#[test]
fn context_new_is_actor_only() {
    let who = Identity { user_id: 9, email: "a@b.c".into(), role: Role::Staff };
    let ctx = BulkActionContext::new(&who);
    assert_eq!(ctx.actor.user_id, 9);
    assert!(ctx.correlation_id.is_none());
    assert!(ctx.ip_address.is_none());
}
