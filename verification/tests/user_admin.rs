use rustio_admin::auth::Role;
use rustio_admin::user_admin::{
    duplicate_group_message, group_created_summary, group_edit_summary, group_name_check,
    ids_missing, new_user_check, ticked_ids, user_created_summary, user_edit_summary,
};

fn pairs(p: &[(&str, &str)]) -> Vec<(String, String)> {
    p.iter().map(|(k, v)| (k.to_string(), v.to_string())).collect()
}

#[test]
fn ticked_ids_take_on_checkboxes_with_numeric_suffix() {
    let form = pairs(&[
        ("group_3", "on"),
        ("group_x", "on"),
        ("group_7", "off"),
        ("role", "staff"),
        ("group_-1", "on"),
        ("group_12", "on"),
        ("perm_5", "on"),
    ]);
    assert_eq!(ticked_ids(&form, "group_"), vec![3, -1, 12]);
    assert_eq!(ticked_ids(&form, "perm_"), vec![5]);
    assert!(ticked_ids(&[], "group_").is_empty());
}

#[test]
fn added_and_removed_ids_keep_order() {
    let before = [1, 2, 3];
    let after = [3, 4, 1, 5];
    assert_eq!(ids_missing(&after, &before), vec![4, 5]);
    assert_eq!(ids_missing(&before, &after), vec![2]);
}

#[test]
fn user_and_group_edit_summaries() {
    assert_eq!(
        user_edit_summary(Role::Staff, Role::Supervisor, true, &[4, 5], &[2], true),
        "role: staff → supervisor; active: true; +groups [4,5]; -groups [2]; password reset"
    );
    assert_eq!(
        user_edit_summary(Role::User, Role::User, false, &[], &[], false),
        "role: user → user; active: false"
    );
    assert_eq!(group_edit_summary("Editors", &[9], &[]), "name: Editors; +perms [9]");
    assert_eq!(group_edit_summary("Editors", &[], &[1, 2]), "name: Editors; -perms [1,2]");
}

#[test]
fn new_user_validation_order_and_ceiling() {
    let c = new_user_check("", "wizard", None, false, Some("too short"), Some("ceiling"));
    assert_eq!(
        c.errors,
        vec![
            "Unknown role: \"wizard\".".to_string(),
            "Email is required.".to_string(),
            "too short".to_string(),
        ]
    );
    assert_eq!(c.field_errors[0].0, "role");
    assert_eq!(c.field_errors[1].0, "email");
    assert_eq!(c.field_errors[2].0, "password");
    let c = new_user_check("nope", "staff", Some(Role::Staff), false, None, None);
    assert_eq!(c.errors, vec!["Enter a valid email address.".to_string()]);
    let c = new_user_check("a@b.co", "staff", Some(Role::Staff), true, None, None);
    assert_eq!(c.errors, vec!["A user with email \"a@b.co\" already exists.".to_string()]);
    let c = new_user_check("a@b.co", "developer", Some(Role::Developer), false, None, Some("too high"));
    assert_eq!(c.field_errors, vec![("role", "too high".to_string())]);
    let ok = new_user_check("a@b.co", "staff", Some(Role::Staff), false, None, None);
    assert!(ok.errors.is_empty());
    assert_eq!(user_created_summary("a@b.co", Role::Staff), "created user a@b.co as staff");
}

#[test]
fn group_name_rules() {
    assert_eq!(group_name_check("").errors, vec!["Name is required.".to_string()]);
    assert!(group_name_check(&"a".repeat(150)).errors.is_empty());
    assert_eq!(
        group_name_check(&"a".repeat(151)).errors,
        vec!["Name must be 150 characters or fewer.".to_string()]
    );
    assert_eq!(group_name_check(&"é".repeat(76)).errors.len(), 1);
    assert!(group_name_check(&"é".repeat(75)).errors.is_empty());
    assert_eq!(duplicate_group_message("Ops"), "A group named \"Ops\" already exists.");
    assert_eq!(group_created_summary("Ops"), "created group Ops");
}
