use rustio_admin::icons::{is_directional, render_inline, DIRECTIONAL_ICONS, ICONS};

#[test]
fn known_icons_render() {
    let svg = render_inline("home", "w-4 h-4");
    assert!(svg.starts_with("<svg"));
    assert!(svg.contains(r#"class="w-4 h-4""#));
    assert!(svg.contains(r#"stroke="currentColor""#));
    assert!(svg.contains(r#"viewBox="0 0 24 24""#));
    assert!(svg.contains("</svg>"));
}

#[test]
fn unknown_icon_returns_empty_not_panic() {
    let svg = render_inline("not-a-real-icon", "");
    assert_eq!(svg, "");
}

#[test]
fn directional_icon_appends_marker_class() {
    let svg = render_inline("arrow-left", "rio-icon");
    assert!(
        svg.contains(r#"class="rio-icon rio-icon--directional""#),
        "rio-icon class chain wrong: {svg}"
    );
}

#[test]
fn symbol_icon_does_not_get_directional_marker() {
    let svg = render_inline("home", "rio-icon");
    assert!(svg.contains(r#"class="rio-icon""#));
    assert!(!svg.contains("rio-icon--directional"));
}

#[test]
fn vertical_chevron_is_not_directional() {
    let svg = render_inline("chevron-down", "rio-chev");
    assert!(!svg.contains("rio-icon--directional"));
}

#[test]
fn directional_icon_with_empty_class_still_marked() {
    let svg = render_inline("arrow-left", "");
    assert!(
        svg.contains(r#"class="rio-icon--directional""#),
        "missing marker with empty class: {svg}"
    );
}

#[test]
fn icon_names_are_unique_and_every_icon_renders() {
    for (i, (name, inner)) in ICONS.iter().enumerate() {
        for (other, _) in ICONS.iter().skip(i + 1) {
            assert_ne!(name, other);
        }
        let svg = render_inline(name, "c");
        assert!(svg.ends_with(&format!(r#"aria-hidden="true">{inner}</svg>"#)));
    }
    assert_eq!(ICONS.len(), 26);
}

#[test]
fn exact_markup_of_plus() {
    assert_eq!(
        render_inline("plus", "x"),
        r#"<svg xmlns="http://www.w3.org/2000/svg" width="16" height="16" viewBox="0 0 24 24" fill="none" stroke="currentColor" stroke-width="2" stroke-linecap="round" stroke-linejoin="round" class="x" aria-hidden="true"><path d="M5 12h14"/><path d="M12 5v14"/></svg>"#
    );
}

#[test]
fn directional_set_is_arrow_left_and_log_out() {
    assert!(is_directional("arrow-left"));
    assert!(is_directional("log-out"));
    assert!(!is_directional("chevron-down"));
    assert!(!is_directional(""));
    assert_eq!(DIRECTIONAL_ICONS, ["arrow-left", "log-out"]);
    assert!(render_inline("log-out", "a").contains(r#"class="a rio-icon--directional""#));
}
