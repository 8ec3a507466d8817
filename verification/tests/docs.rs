use rustio_admin::docs::{
    find, kept_event_positions, link_filter_step, link_is_navigable, render_markdown, LinkEvent,
    EMBEDDED_DOCS,
};

#[test]
fn embedded_doc_slugs_are_unique() {
    let mut seen = std::collections::HashSet::new();
    for (slug, _) in EMBEDDED_DOCS {
        assert!(seen.insert(slug), "duplicate doc slug `{}`", slug);
    }
}

#[test]
fn find_returns_none_for_unknown_slug() {
    assert!(find("definitely-not-a-doc").is_none());
    assert!(find("").is_none());
}

#[test]
fn find_returns_each_embedded_doc() {
    let d = find("modeladmin").expect("known slug");
    assert_eq!(d.slug, "modeladmin");
    assert_eq!(d.title, "ModelAdmin customisation");
    assert_eq!(find("architecture").unwrap().title, "Architecture");
    assert_eq!(find("public-api").unwrap().title, "Public API surface");
    assert!(find("Architecture").is_none());
}

#[test]
fn navigable_links_are_external_mail_and_anchors() {
    assert!(link_is_navigable("https://example.com"));
    assert!(link_is_navigable("http://x"));
    assert!(link_is_navigable("mailto:x@y.z"));
    assert!(link_is_navigable("#heading"));
    assert!(!link_is_navigable("./design/DESIGN_THEME.md"));
    assert!(!link_is_navigable("public-api.md"));
    assert!(!link_is_navigable("HTTPS://example.com"));
    assert!(!link_is_navigable(""));
}

#[test]
fn link_filter_drops_only_non_navigable_link_tags() {
    let start_bad = LinkEvent::LinkStart("./a.md".to_string());
    let start_ok = LinkEvent::LinkStart("https://a".to_string());
    assert_eq!(link_filter_step(false, &start_bad), (false, true));
    assert_eq!(link_filter_step(true, &LinkEvent::Other), (true, true));
    assert_eq!(link_filter_step(true, &LinkEvent::LinkEnd), (false, false));
    assert_eq!(link_filter_step(false, &start_ok), (true, false));
    assert_eq!(link_filter_step(false, &LinkEvent::LinkEnd), (true, false));
}

#[test]
fn render_markdown_emits_html_for_headings_and_code() {
    let src = "# Title\n\nA paragraph.\n\n```rust\nlet x = 1;\n```\n";
    let html = render_markdown(src);
    assert!(html.contains("<h1>Title</h1>"), "missing H1: {html}");
    assert!(html.contains("<p>A paragraph.</p>"), "missing P: {html}");
    assert!(html.contains("<pre><code"), "missing code block: {html}");
}

#[test]
fn render_markdown_strips_non_navigable_links_to_text() {
    let src = "See [the theme doc](./design/DESIGN_THEME.md) \
               and [a sibling](public-api.md) \
               and [reset plan](./archive/PLAN.md#8-rules).";
    let html = render_markdown(src);
    assert!(!html.contains("<a "), "cross-doc links must be de-linked: {html}");
    assert!(html.contains("the theme doc"), "link text kept: {html}");
    assert!(html.contains("a sibling"), "link text kept: {html}");
    assert!(html.contains("reset plan"), "link text kept: {html}");
}

#[test]
fn render_markdown_keeps_external_and_anchor_links() {
    let src = "[site](https://example.com) · [mail](mailto:x@y.z) · [top](#heading)";
    let html = render_markdown(src);
    assert!(html.contains(r#"<a href="https://example.com""#), "external link kept: {html}");
    assert!(html.contains(r#"<a href="mailto:x@y.z""#), "mailto kept: {html}");
    assert!(html.contains(r##"<a href="#heading""##), "in-page anchor kept: {html}");
}

#[test]
fn render_markdown_escapes_html_in_source() {
    let src = "<script>alert(1)</script>";
    let html = render_markdown(src);
    assert!(
        html.contains("<script>"),
        "raw HTML passes through (source is framework-trusted): {html}"
    );
}

#[test]
fn render_markdown_uses_the_extension_options() {
    let html = render_markdown("| a | b |\n|---|---|\n| 1 | 2 |\n\n~~gone~~ and \"quoted\"\n");
    assert!(html.contains("<table>"), "tables enabled: {html}");
    assert!(html.contains("<del>gone</del>"), "strikethrough enabled: {html}");
    assert!(html.contains("\u{201c}quoted\u{201d}"), "smart punctuation enabled: {html}");
    assert!(!render_markdown("plain").is_empty());
}

#[test]
fn kept_positions_drop_only_dead_link_tags() {
    let views = vec![
        LinkEvent::LinkStart("./a.md".to_string()),
        LinkEvent::Other,
        LinkEvent::LinkEnd,
        LinkEvent::LinkStart("#top".to_string()),
        LinkEvent::Other,
        LinkEvent::LinkEnd,
    ];
    assert_eq!(kept_event_positions(&views), vec![1, 3, 4, 5]);
    assert!(kept_event_positions(&[]).is_empty());
}

#[test]
fn embedded_docs_have_non_empty_sources() {
    for (slug, title) in EMBEDDED_DOCS {
        assert!(!slug.is_empty(), "doc slug is empty");
        assert!(!title.is_empty(), "doc `{slug}` has an empty title");
    }
}
