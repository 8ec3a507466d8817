use rustio_admin::naming::{
    camel_to_snake, classify_type, find_label_field, humanise, humanise_field,
    is_auto_timestamp_name, plural_snake, FieldKind,
};

#[test]
fn regular_plurals() {
    assert_eq!(plural_snake("Post"), "posts");
    assert_eq!(plural_snake("Loan"), "loans");
    assert_eq!(plural_snake("BlogPost"), "blog_posts");
    assert_eq!(plural_snake("CaseAction"), "case_actions");
}

#[test]
fn ch_sh_x_z_suffixes_take_es() {
    assert_eq!(plural_snake("Branch"), "branches");
    assert_eq!(plural_snake("Box"), "boxes");
    assert_eq!(plural_snake("Dish"), "dishes");
    assert_eq!(plural_snake("Buzz"), "buzzes");
}

#[test]
fn consonant_y_becomes_ies_vowel_y_keeps_s() {
    assert_eq!(plural_snake("Category"), "categories");
    assert_eq!(plural_snake("Story"), "stories");
    assert_eq!(plural_snake("Toy"), "toys");
    assert_eq!(plural_snake("Day"), "days");
}

#[test]
fn trailing_s_left_alone() {
    assert_eq!(plural_snake("Posts"), "posts");
    assert_eq!(plural_snake("Status"), "status");
}

#[test]
fn snake_case_to_title_case() {
    assert_eq!(humanise_field("title"), "Title");
    assert_eq!(humanise_field("chart_number"), "Chart Number");
    assert_eq!(humanise_field("full_name"), "Full Name");
    assert_eq!(humanise_field("performed_by_technician"), "Performed By Technician");
}

#[test]
fn standalone_acronyms_are_uppercased() {
    assert_eq!(humanise_field("id"), "ID");
    assert_eq!(humanise_field("ip"), "IP");
    assert_eq!(humanise_field("url"), "URL");
    assert_eq!(humanise_field("uuid"), "UUID");
    assert_eq!(humanise_field("mfa"), "MFA");
}

#[test]
fn acronyms_inside_compound_names_are_uppercased() {
    assert_eq!(humanise_field("email_id"), "Email ID");
    assert_eq!(humanise_field("id_card"), "ID Card");
    assert_eq!(humanise_field("user_ip"), "User IP");
    assert_eq!(humanise_field("api_token"), "API Token");
    assert_eq!(humanise_field("mfa_secret_key_id"), "MFA Secret Key ID");
    assert_eq!(humanise_field("csv_export_path"), "CSV Export Path");
}

#[test]
fn acronym_substrings_are_not_uppercased() {
    assert_eq!(humanise_field("video"), "Video");
    assert_eq!(humanise_field("video_url"), "Video URL");
    assert_eq!(humanise_field("hidden_field"), "Hidden Field");
    assert_eq!(humanise_field("idle_seconds"), "Idle Seconds");
}

#[test]
fn empty_and_trivial_inputs_are_safe() {
    assert_eq!(humanise_field(""), "");
    assert_eq!(humanise_field("a"), "A");
}

#[test]
fn datetime_suffixes_preserved() {
    assert_eq!(humanise_field("created_at"), "Created At");
    assert_eq!(humanise_field("revoked_by"), "Revoked By");
    assert_eq!(humanise_field("expires_at"), "Expires At");
}

// ---- additional cases ----

#[test]
fn snake_and_sentence_forms() {
    assert_eq!(camel_to_snake("HTTPServer"), "h_t_t_p_server");
    assert_eq!(camel_to_snake("post"), "post");
    assert_eq!(humanise("blog_posts"), "Blog posts");
    assert_eq!(humanise(""), "");
    assert_eq!(humanise_field("a__b"), "A  B");
    assert_eq!(humanise_field("ID_X"), "ID X");
    assert!(is_auto_timestamp_name("created_at"));
    assert!(!is_auto_timestamp_name("created"));
}

#[test]
fn field_kinds_from_type_text() {
    assert_eq!(classify_type("Option < String >").unwrap(), FieldKind::OptionalString);
    assert_eq!(classify_type("chrono :: NaiveDate").unwrap(), FieldKind::Date);
    assert_eq!(
        classify_type("Vec < u8 >").unwrap_err(),
        "unsupported field type for RustioAdmin: Vec<u8>"
    );
    assert_eq!(FieldKind::Choice.field_type_ident(), "String");
    assert_eq!(FieldKind::Email.row_getter(), "get_string");
    assert_eq!(FieldKind::OptionalFilePath.row_getter(), "get_optional_string");
}

#[test]
fn label_field_preference() {
    assert_eq!(find_label_field(&["id", "email", "title"]).as_deref(), Some("title"));
    assert_eq!(find_label_field(&["id", "count"]), None);
}
