use rustio_admin::history_views::{history_title, label_or_id, positive_id_param};

#[test]
fn actor_filter_takes_positive_ids_only() {
    assert_eq!(positive_id_param(Some(" 12 ")), Some(12));
    assert_eq!(positive_id_param(Some("0")), None);
    assert_eq!(positive_id_param(Some("-3")), None);
    assert_eq!(positive_id_param(Some("abc")), None);
    assert_eq!(positive_id_param(None), None);
}

#[test]
fn history_labels() {
    assert_eq!(label_or_id(Some("Ada".to_string()), 4), "Ada");
    assert_eq!(label_or_id(None, 4), "#4");
    assert_eq!(history_title("Patient", "#4"), "History: Patient — #4");
}
