//! Inline stroke icons for the admin UI: a fixed table of 24×24 icon
//! shapes and the `<svg>` wrapper the templates emit around them.
use vstd::prelude::*;
use crate::text::{chars_of, push_str, str_eq, to_owned_string};

verus! {

broadcast use vstd::string::group_string_axioms;

/// Number of icons in [`ICONS`].
pub const ICON_COUNT: usize = 26;

/// Each icon's name and the inner shapes of its `<svg>` (lucide, MIT).
pub const ICONS: [(&'static str, &'static str); 26] = [
    (
        "home",
        r#"<path d="m3 9 9-7 9 7v11a2 2 0 0 1-2 2H5a2 2 0 0 1-2-2z"/><polyline points="9 22 9 12 15 12 15 22"/>"#,
    ),
    (
        "table",
        r#"<rect width="18" height="18" x="3" y="3" rx="2"/><path d="M3 9h18"/><path d="M3 15h18"/><path d="M9 3v18"/><path d="M15 3v18"/>"#,
    ),
    (
        "users",
        r#"<path d="M16 21v-2a4 4 0 0 0-4-4H6a4 4 0 0 0-4 4v2"/><circle cx="9" cy="7" r="4"/><path d="M22 21v-2a4 4 0 0 0-3-3.87"/><path d="M16 3.13a4 4 0 0 1 0 7.75"/>"#,
    ),
    (
        "users-2",
        r#"<path d="M14 19a6 6 0 0 0-12 0"/><circle cx="8" cy="9" r="4"/><path d="M22 19a6 6 0 0 0-6-6 4 4 0 1 0 0-8"/>"#,
    ),
    (
        "database",
        r#"<ellipse cx="12" cy="5" rx="9" ry="3"/><path d="M3 5V19A9 3 0 0 0 21 19V5"/><path d="M3 12A9 3 0 0 0 21 12"/>"#,
    ),
    (
        "clock",
        r#"<circle cx="12" cy="12" r="10"/><polyline points="12 6 12 12 16 14"/>"#,
    ),
    (
        "terminal",
        r#"<polyline points="4 17 10 11 4 5"/><line x1="12" x2="20" y1="19" y2="19"/>"#,
    ),
    (
        "plus",
        r#"<path d="M5 12h14"/><path d="M12 5v14"/>"#,
    ),
    (
        "more-horizontal",
        r#"<circle cx="12" cy="12" r="1"/><circle cx="19" cy="12" r="1"/><circle cx="5" cy="12" r="1"/>"#,
    ),
    (
        "pencil",
        r#"<path d="M21.174 6.812a1 1 0 0 0-3.986-3.987L3.842 16.174a2 2 0 0 0-.5.83l-1.321 4.352a.5.5 0 0 0 .623.622l4.353-1.32a2 2 0 0 0 .83-.497z"/><path d="m15 5 4 4"/>"#,
    ),
    (
        "trash",
        r#"<path d="M3 6h18"/><path d="M19 6v14a2 2 0 0 1-2 2H7a2 2 0 0 1-2-2V6"/><path d="M8 6V4a2 2 0 0 1 2-2h4a2 2 0 0 1 2 2v2"/>"#,
    ),
    (
        "arrow-left",
        r#"<path d="m12 19-7-7 7-7"/><path d="M19 12H5"/>"#,
    ),
    (
        "log-out",
        r#"<path d="M9 21H5a2 2 0 0 1-2-2V5a2 2 0 0 1 2-2h4"/><polyline points="16 17 21 12 16 7"/><line x1="21" x2="9" y1="12" y2="12"/>"#,
    ),
    (
        "key",
        r#"<path d="m21 2-9.6 9.6"/><circle cx="7.5" cy="15.5" r="5.5"/><path d="m15.5 7.5 3 3L22 7l-3-3"/><path d="m13 10 1.5-1.5"/>"#,
    ),
    (
        "circle-alert",
        r#"<circle cx="12" cy="12" r="10"/><line x1="12" x2="12" y1="8" y2="12"/><line x1="12" x2="12.01" y1="16" y2="16"/>"#,
    ),
    (
        "circle-x",
        r#"<circle cx="12" cy="12" r="10"/><path d="m15 9-6 6"/><path d="m9 9 6 6"/>"#,
    ),
    (
        "menu",
        r#"<line x1="4" x2="20" y1="12" y2="12"/><line x1="4" x2="20" y1="6" y2="6"/><line x1="4" x2="20" y1="18" y2="18"/>"#,
    ),
    (
        "search",
        r#"<circle cx="11" cy="11" r="8"/><path d="m21 21-4.3-4.3"/>"#,
    ),
    (
        "filter",
        r#"<polygon points="22 3 2 3 10 12.46 10 19 14 21 14 12.46 22 3"/>"#,
    ),
    (
        "chevron-down",
        r#"<path d="m6 9 6 6 6-6"/>"#,
    ),
    (
        "download",
        r#"<path d="M21 15v4a2 2 0 0 1-2 2H5a2 2 0 0 1-2-2v-4"/><polyline points="7 10 12 15 17 10"/><line x1="12" x2="12" y1="15" y2="3"/>"#,
    ),
    (
        "upload",
        r#"<path d="M21 15v4a2 2 0 0 1-2 2H5a2 2 0 0 1-2-2v-4"/><polyline points="17 8 12 3 7 8"/><line x1="12" x2="12" y1="3" y2="15"/>"#,
    ),
    (
        "sliders",
        r#"<line x1="4" y1="21" x2="4" y2="14"/><line x1="4" y1="10" x2="4" y2="3"/><line x1="12" y1="21" x2="12" y2="12"/><line x1="12" y1="8" x2="12" y2="3"/><line x1="20" y1="21" x2="20" y2="16"/><line x1="20" y1="12" x2="20" y2="3"/><line x1="1" y1="14" x2="7" y2="14"/><line x1="9" y1="8" x2="15" y2="8"/><line x1="17" y1="16" x2="23" y2="16"/>"#,
    ),
    (
        "bookmark",
        r#"<path d="m19 21-7-4-7 4V5a2 2 0 0 1 2-2h10a2 2 0 0 1 2 2v16z"/>"#,
    ),
    (
        "flag",
        r#"<path d="M4 22V4a1 1 0 0 1 1-1h13.97a.5.5 0 0 1 .39.81L16 8l3.36 4.19a.5.5 0 0 1-.39.81H5"/>"#,
    ),
    (
        "bell",
        r#"<path d="M10.268 21a2 2 0 0 0 3.464 0"/><path d="M3.262 15.326A1 1 0 0 0 4 17h16a1 1 0 0 0 .74-1.673C19.41 13.956 18 12.499 18 8A6 6 0 0 0 6 8c0 4.499-1.411 5.956-2.738 7.326"/>"#,
    ),
];

/// Icons whose shape points left or right and is mirrored under
/// right-to-left text.
pub const DIRECTIONAL_ICONS: [&'static str; 2] = ["arrow-left", "log-out"];

/// The first entry of the icon table named `name`, from index `k` on.
pub open spec fn icon_shape_from(name: Seq<char>, k: int) -> Option<Seq<char>>
    decreases ICON_COUNT - k,
{
    if k < 0 || k >= ICON_COUNT {
        None
    } else if ICONS@[k].0@ == name {
        Some(ICONS@[k].1@)
    } else {
        icon_shape_from(name, k + 1)
    }
}

/// The inner shapes of icon `name`, if the table has it.
pub open spec fn icon_shape(name: Seq<char>) -> Option<Seq<char>> {
    icon_shape_from(name, 0)
}

/// Whether `name` is one of the left/right-pointing icons.
pub open spec fn directional(name: Seq<char>) -> bool {
    name == "arrow-left"@ || name == "log-out"@
}

/// Whether the icon `name` is mirrored under right-to-left text.
pub fn is_directional(name: &str) -> (b: bool)
    ensures
        b == directional(name@),
{
    let mut k: usize = 0;
    while k < 2
        invariant
            k <= 2,
            forall|j: int| 0 <= j < k ==> #[trigger] DIRECTIONAL_ICONS@[j]@ != name@,
        decreases 2 - k,
    {
        if str_eq(DIRECTIONAL_ICONS[k], name) {
            return true;
        }
        k = k + 1;
    }
    assert(DIRECTIONAL_ICONS@[0]@ != name@);
    assert(DIRECTIONAL_ICONS@[1]@ != name@);
    false
}

/// The class attribute of a rendered icon: the caller's class, with
/// the `rio-icon--directional` marker appended for directional icons.
pub open spec fn icon_class(name: Seq<char>, class: Seq<char>) -> Seq<char> {
    if directional(name) {
        if class.len() == 0 {
            "rio-icon--directional"@
        } else {
            class + " rio-icon--directional"@
        }
    } else {
        class
    }
}

/// Everything of the `<svg>` tag before its class value.
pub open spec fn svg_head() -> Seq<char> {
    r#"<svg xmlns="http://www.w3.org/2000/svg" width="16" height="16" viewBox="0 0 24 24" fill="none" stroke="currentColor" stroke-width="2" stroke-linecap="round" stroke-linejoin="round" class=""#@
}

/// What follows the class value up to the shapes.
pub open spec fn svg_after_class() -> Seq<char> {
    r#"" aria-hidden="true">"#@
}

/// The markup of icon `name` with `class`: empty for an unknown icon.
pub open spec fn icon_markup(name: Seq<char>, class: Seq<char>) -> Seq<char> {
    match icon_shape(name) {
        None => Seq::empty(),
        Some(inner) => svg_head() + icon_class(name, class) + svg_after_class() + inner
            + "</svg>"@,
    }
}

/// The table position of icon `name`.
fn find_icon(name: &str) -> (r: Option<usize>)
    ensures
        match r {
            Some(k) => k < ICON_COUNT && icon_shape(name@) == Some(ICONS@[k as int].1@),
            None => icon_shape(name@) is None,
        },
{
    let mut k: usize = 0;
    while k < ICON_COUNT
        invariant
            k <= ICON_COUNT,
            icon_shape(name@) == icon_shape_from(name@, k as int),
        decreases ICON_COUNT - k,
    {
        if str_eq(ICONS[k].0, name) {
            return Some(k);
        }
        k = k + 1;
    }
    None
}

/// Renders an icon inline; an unknown icon renders as nothing.
pub fn render_inline(name: &str, class: &str) -> (r: String)
    ensures
        r@ == icon_markup(name@, class@),
{
    let k = match find_icon(name) {
        Some(k) => k,
        None => return String::new(),
    };
    let mut out = to_owned_string(
        r#"<svg xmlns="http://www.w3.org/2000/svg" width="16" height="16" viewBox="0 0 24 24" fill="none" stroke="currentColor" stroke-width="2" stroke-linecap="round" stroke-linejoin="round" class=""#,
    );
    if is_directional(name) {
        let cv = chars_of(class);
        if cv.len() == 0 {
            push_str(&mut out, "rio-icon--directional");
        } else {
            push_str(&mut out, class);
            push_str(&mut out, " rio-icon--directional");
        }
    } else {
        push_str(&mut out, class);
    }
    push_str(&mut out, r#"" aria-hidden="true">"#);
    push_str(&mut out, ICONS[k].1);
    push_str(&mut out, "</svg>");
    out
}

} // verus!
