//! The in-app documentation viewer: the table of embedded docs, slug
//! lookup, and the markdown renderer, which renders links the viewer
//! cannot follow as their text.
use vstd::prelude::*;
use crate::text::{chars_of, chars_starts_with, starts_with, str_eq};
use pulldown_cmark::{html, Event, Options, Parser, Tag, TagEnd};

verus! {

broadcast use vstd::string::group_string_axioms;

/// One embedded markdown doc: its URL key and display label.
#[derive(Debug, Clone, Copy)]
pub struct EmbeddedDoc {
    pub slug: &'static str,
    pub title: &'static str,
}

/// Number of embedded docs.
pub const EMBEDDED_DOC_COUNT: usize = 3;

/// The embedded docs as `(slug, title)`, in index-page order.
pub const EMBEDDED_DOCS: [(&'static str, &'static str); 3] = [
    ("architecture", "Architecture"),
    ("modeladmin", "ModelAdmin customisation"),
    ("public-api", "Public API surface"),
];

/// The first embedded doc whose slug is `slug`, from index `k` on.
pub open spec fn doc_index_from(slug: Seq<char>, k: int) -> Option<int>
    decreases EMBEDDED_DOC_COUNT - k,
{
    if k < 0 || k >= EMBEDDED_DOC_COUNT {
        None
    } else if EMBEDDED_DOCS@[k].0@ == slug {
        Some(k)
    } else {
        doc_index_from(slug, k + 1)
    }
}

/// Looks up an embedded doc by URL slug; `None` for unknown slugs.
pub fn find(slug: &str) -> (r: Option<EmbeddedDoc>)
    ensures
        match doc_index_from(slug@, 0) {
            Some(k) => r matches Some(d) && d.slug == EMBEDDED_DOCS@[k].0 && d.title
                == EMBEDDED_DOCS@[k].1,
            None => r is None,
        },
{
    let mut k: usize = 0;
    while k < EMBEDDED_DOC_COUNT
        invariant
            k <= EMBEDDED_DOC_COUNT,
            doc_index_from(slug@, 0) == doc_index_from(slug@, k as int),
        decreases EMBEDDED_DOC_COUNT - k,
    {
        if str_eq(EMBEDDED_DOCS[k].0, slug) {
            return Some(EmbeddedDoc { slug: EMBEDDED_DOCS[k].0, title: EMBEDDED_DOCS[k].1 });
        }
        k = k + 1;
    }
    None
}

/// No two embedded docs share a slug, so each doc is reachable by its
/// own slug.
pub proof fn lemma_doc_slugs_unique()
    ensures
        forall|i: int, j: int|
            0 <= i < j < EMBEDDED_DOC_COUNT ==> #[trigger] EMBEDDED_DOCS@[i].0@
                != #[trigger] EMBEDDED_DOCS@[j].0@,
        forall|i: int|
            0 <= i < EMBEDDED_DOC_COUNT ==> doc_index_from(#[trigger] EMBEDDED_DOCS@[i].0@, 0)
                == Some(i),
{
    reveal_strlit("architecture");
    reveal_strlit("modeladmin");
    reveal_strlit("public-api");
    let a = EMBEDDED_DOCS@[0].0@;
    let b = EMBEDDED_DOCS@[1].0@;
    let c = EMBEDDED_DOCS@[2].0@;
    assert(a[0] != b[0]);
    assert(a[0] != c[0]);
    assert(b[0] != c[0]);
    assert(a != b && a != c && b != c);
    reveal_with_fuel(doc_index_from, 4);
    assert(doc_index_from(a, 0) == Some(0int));
    assert(doc_index_from(b, 0) == Some(1int));
    assert(doc_index_from(c, 0) == Some(2int));
}

// ---------------------------------------------------------------------------
// Links
// ---------------------------------------------------------------------------

/// The viewer follows external URLs, mail links and in-page anchors;
/// relative links to other documents cannot resolve in it.
pub open spec fn navigable(dest: Seq<char>) -> bool {
    starts_with(dest, "http://"@) || starts_with(dest, "https://"@) || starts_with(dest, "mailto:"@)
        || starts_with(dest, "#"@)
}

/// True when a link in the in-app docs can actually be followed.
pub fn link_is_navigable(dest: &str) -> (b: bool)
    ensures
        b == navigable(dest@),
{
    let d = chars_of(dest);
    let http = chars_of("http://");
    let https = chars_of("https://");
    let mailto = chars_of("mailto:");
    let hash = chars_of("#");
    chars_starts_with(d.as_slice(), http.as_slice()) || chars_starts_with(
        d.as_slice(),
        https.as_slice(),
    ) || chars_starts_with(d.as_slice(), mailto.as_slice()) || chars_starts_with(
        d.as_slice(),
        hash.as_slice(),
    )
}

/// What the renderer's event filter sees of one markdown event.
#[derive(Debug, Clone)]
pub enum LinkEvent {
    /// A link opens, with its destination.
    LinkStart(String),
    /// A link closes.
    LinkEnd,
    /// Anything else.
    Other,
}

/// One step of the link filter: from whether a dropped link is open
/// and the next event, whether the event is emitted and whether a
/// dropped link is open afterwards. A link the viewer cannot follow
/// loses its opening and closing tags; its text stays.
pub open spec fn link_step(dropping: bool, ev: LinkEvent) -> (bool, bool) {
    match ev {
        LinkEvent::LinkStart(dest) => if !navigable(dest@) {
            (false, true)
        } else {
            (true, dropping)
        },
        LinkEvent::LinkEnd => if dropping {
            (false, false)
        } else {
            (true, dropping)
        },
        LinkEvent::Other => (true, dropping),
    }
}

/// The link filter's decision for one event (see [`link_step`]).
pub fn link_filter_step(dropping: bool, ev: &LinkEvent) -> (r: (bool, bool))
    ensures
        r == link_step(dropping, *ev),
{
    match ev {
        LinkEvent::LinkStart(dest) => {
            if !link_is_navigable(dest.as_str()) {
                (false, true)
            } else {
                (true, dropping)
            }
        },
        LinkEvent::LinkEnd => {
            if dropping {
                (false, false)
            } else {
                (true, dropping)
            }
        },
        LinkEvent::Other => (true, dropping),
    }
}

// ---------------------------------------------------------------------------
// Rendering
// ---------------------------------------------------------------------------

/// The parser options the viewer renders with, as `pulldown-cmark`
/// option bits: tables (`1 << 1`), footnotes (`1 << 2`),
/// strikethrough (`1 << 3`), task lists (`1 << 4`) and smart
/// punctuation (`1 << 5`).
pub const MARKDOWN_OPTION_BITS: u32 = 2 | 4 | 8 | 16 | 32;

/// What the link filter sees of each event that `pulldown-cmark`'s
/// parser yields for `src` under `option_bits`, in order.
pub uninterp spec fn markdown_link_views(src: Seq<char>, option_bits: u32) -> Seq<LinkEvent>;

/// `Parser::new_ext(src, Options::from_bits_truncate(option_bits))`,
/// read event by event as a [`LinkEvent`] (a link's start with its
/// destination, a link's end, anything else); one view per event.
#[verifier::external_body]
fn parse_markdown(src: &str, option_bits: u32) -> (r: Vec<LinkEvent>)
    ensures
        r@ == markdown_link_views(src@, option_bits),
{
    Parser::new_ext(src, Options::from_bits_truncate(option_bits)).map(|ev| match ev {
        Event::Start(Tag::Link { dest_url, .. }) => LinkEvent::LinkStart(dest_url.to_string()),
        Event::End(TagEnd::Link) => LinkEvent::LinkEnd,
        _ => LinkEvent::Other,
    }).collect()
}

/// The HTML `pulldown_cmark::html::push_html` writes for the events at
/// positions `picked` (in that order) of those that
/// `Parser::new_ext(src, Options::from_bits_truncate(option_bits))`
/// yields.
pub uninterp spec fn markdown_html(src: Seq<char>, option_bits: u32, picked: Seq<usize>) -> Seq<char>;

/// Parses `src` with `Parser::new_ext` and writes the events at the
/// `picked` positions with `html::push_html` into an empty string.
/// Every position must name an event (the parser yields as many events
/// as [`markdown_link_views`] has views): indexing past the end panics.
#[verifier::external_body]
fn push_html_of(src: &str, option_bits: u32, picked: &[usize]) -> (s: String)
    requires
        forall|j: int| 0 <= j < picked@.len() ==> picked@[j] < markdown_link_views(src@, option_bits).len(),
    ensures
        s@ == markdown_html(src@, option_bits, picked@),
{
    let events: Vec<Event<'_>> = Parser::new_ext(src, Options::from_bits_truncate(option_bits)).collect();
    let mut out = String::new();
    html::push_html(&mut out, picked.iter().map(|&i| events[i].clone()));
    out
}

/// Whether a dropped link is open after the first `n` events.
pub open spec fn dropping_after(views: Seq<LinkEvent>, n: int) -> bool
    decreases n,
{
    if n <= 0 {
        false
    } else {
        link_step(dropping_after(views, n - 1), views[n - 1]).1
    }
}

/// Whether the `i`-th event is emitted.
pub open spec fn emitted(views: Seq<LinkEvent>, i: int) -> bool {
    link_step(dropping_after(views, i), views[i]).0
}

/// The events among the first `n` that the link filter emits, in order.
pub open spec fn kept_prefix<T>(events: Seq<T>, views: Seq<LinkEvent>, n: int) -> Seq<T>
    decreases n,
{
    if n <= 0 {
        Seq::empty()
    } else if emitted(views, n - 1) {
        kept_prefix(events, views, n - 1).push(events[n - 1])
    } else {
        kept_prefix(events, views, n - 1)
    }
}

/// The positions `0 .. n`.
pub open spec fn positions(n: nat) -> Seq<usize> {
    Seq::new(n, |i: int| i as usize)
}

/// The positions of the events the link filter emits, in order.
pub open spec fn kept_positions(views: Seq<LinkEvent>) -> Seq<usize> {
    kept_prefix(positions(views.len()), views, views.len() as int)
}

/// Runs the link filter over the views of a stream of events: the
/// positions of the events it keeps, in order. The tags of every link
/// the viewer cannot follow are dropped; everything else is kept.
pub fn kept_event_positions(views: &[LinkEvent]) -> (out: Vec<usize>)
    ensures
        out@ == kept_positions(views@),
        forall|j: int| 0 <= j < out@.len() ==> out@[j] < views@.len(),
{
    let ghost all = positions(views@.len());
    let mut out: Vec<usize> = Vec::new();
    let mut dropping = false;
    let mut i: usize = 0;
    while i < views.len()
        invariant
            i <= views.len(),
            all == positions(views@.len()),
            out@ == kept_prefix(all, views@, i as int),
            forall|j: int| 0 <= j < out@.len() ==> out@[j] < i,
            dropping == dropping_after(views@, i as int),
        decreases views.len() - i,
    {
        let (emit, next) = link_filter_step(dropping, &views[i]);
        if emit {
            assert(all[i as int] == i);
            out.push(i);
        }
        dropping = next;
        i = i + 1;
    }
    out
}

/// Renders an embedded doc's markdown to HTML, with tables, footnotes,
/// strikethrough, task lists and smart punctuation, and with every
/// link the viewer cannot follow reduced to its text: the HTML
/// `pulldown-cmark` writes for the parsed events that the link filter
/// keeps (see [`kept_event_positions`]).
pub fn render_markdown(src: &str) -> (html: String)
    ensures
        html@ == markdown_html(
            src@,
            MARKDOWN_OPTION_BITS,
            kept_positions(markdown_link_views(src@, MARKDOWN_OPTION_BITS)),
        ),
{
    let views = parse_markdown(src, MARKDOWN_OPTION_BITS);
    let kept = kept_event_positions(views.as_slice());
    push_html_of(src, MARKDOWN_OPTION_BITS, kept.as_slice())
}

} // verus!
