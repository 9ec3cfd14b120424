use cellref::content::Content;
use cellref::deferred::Resolver;
use cellref::diag::{Diagnostic, Span};
use cellref::introspection::{Introspector, Label, Location};
use cellref::lang::{local_name, Lang};
use cellref::link::{Destination, LinkElem, LinkTarget, Position};
use cellref::tristate::TriState;

fn label(name: &str) -> Label {
    Label { name: String::from(name) }
}

#[test]
fn url_link_keeps_full_url_as_body() {
    let link = LinkElem::from_url(String::from("https://example.com"));
    assert_eq!(link.body.text, "https://example.com");
    assert_eq!(
        link.dest,
        LinkTarget::Dest(Destination::Url(String::from("https://example.com")))
    );
}

#[test]
fn mailto_link_strips_scheme_from_body() {
    let link = LinkElem::from_url(String::from("mailto:hello@typst.app"));
    assert_eq!(link.body.text, "hello@typst.app");
    assert_eq!(
        link.dest,
        LinkTarget::Dest(Destination::Url(String::from("mailto:hello@typst.app")))
    );
}

#[test]
fn tel_link_strips_scheme_from_body() {
    let link = LinkElem::from_url(String::from("tel:123456"));
    assert_eq!(link.body.text, "123456");
}

#[test]
fn repeated_scheme_prefixes_are_all_stripped() {
    let link = LinkElem::from_url(String::from("mailto:mailto:a@b"));
    assert_eq!(link.body.text, "a@b");
    let link = LinkElem::from_url(String::from("mailto:tel:77"));
    assert_eq!(link.body.text, "77");
}

#[test]
fn shown_url_link_is_linked_and_unhyphenated() {
    let mut resolver = Resolver::new(2);
    let index = Introspector::new();
    let link = LinkElem::from_url(String::from("https://example.com"));
    let shown = resolver.show(link, &index);
    assert_eq!(
        shown.dest,
        Some(Destination::Url(String::from("https://example.com")))
    );
    assert_eq!(shown.hyphenate, TriState::Custom(false));
    assert!(resolver.pending.is_empty());
}

#[test]
fn shown_position_link_is_linked() {
    let mut resolver = Resolver::new(2);
    let index = Introspector::new();
    let dest = Destination::Position(Position { page: 1, x: 0, y: 0 });
    let link = LinkElem::new(
        LinkTarget::from(dest.clone()),
        Content::plain(String::from("top")),
        Span { raw: 11 },
    );
    let shown = resolver.show(link, &index);
    assert_eq!(shown.dest, Some(dest));
    assert_eq!(shown.text, "top");
}

#[test]
fn found_label_links_to_element_location() {
    let mut resolver = Resolver::new(2);
    let mut index = Introspector::new();
    index.add(label("intro"), Location { id: 42 });
    let link = LinkElem::new(
        LinkTarget::Label(label("intro")),
        Content::plain(String::from("go to intro")),
        Span { raw: 5 },
    );
    let shown = resolver.show(link, &index);
    assert_eq!(shown.dest, Some(Destination::Location(Location { id: 42 })));
    assert_eq!(shown.hyphenate, TriState::Custom(false));
    assert!(resolver.pending.is_empty());
}

#[test]
fn query_returns_first_matching_entry() {
    let mut index = Introspector::new();
    index.add(label("note"), Location { id: 1 });
    index.add(label("note"), Location { id: 2 });
    assert_eq!(index.query_label(&label("note")), Some(Location { id: 1 }));
    assert_eq!(index.query_label(&label("missing")), None);
}

#[test]
fn missing_label_shows_plain_body_and_queues_retry() {
    let mut resolver = Resolver::new(2);
    let index = Introspector::new();
    let link = LinkElem::new(
        LinkTarget::Label(label("nowhere")),
        Content::plain(String::from("see below")),
        Span { raw: 9 },
    );
    let shown = resolver.show(link, &index);
    assert_eq!(shown.dest, None);
    assert_eq!(shown.text, "see below");
    assert_eq!(shown.hyphenate, TriState::Custom(false));
    assert_eq!(resolver.pending.len(), 1);
    assert_eq!(resolver.pending[0].label, label("nowhere"));
    assert_eq!(resolver.pending[0].span, Span { raw: 9 });
}

#[test]
fn pass_boundary_drops_the_queue() {
    let mut resolver = Resolver::new(2);
    let index = Introspector::new();
    let link = LinkElem::new(
        LinkTarget::Label(label("nowhere")),
        Content::plain(String::from("x")),
        Span { raw: 1 },
    );
    resolver.show(link, &index);
    assert!(resolver.another_pass_needed());
    resolver.begin_pass();
    assert_eq!(resolver.pass, 1);
    assert!(resolver.pending.is_empty());
    assert!(!resolver.another_pass_needed());
}

#[test]
fn dangling_reference_is_reported_at_the_links_span() {
    let mut resolver = Resolver::new(1);
    let index = Introspector::new();
    let shown = resolver.show(
        LinkElem::new(
            LinkTarget::Label(label("ghost-label")),
            Content::plain(String::from("dangling")),
            Span { raw: 77 },
        ),
        &index,
    );
    assert_eq!(shown.dest, None);
    assert!(resolver.another_pass_needed());
    resolver.begin_pass();
    let index = Introspector::new();
    resolver.show(
        LinkElem::new(
            LinkTarget::Label(label("ghost-label")),
            Content::plain(String::from("dangling")),
            Span { raw: 77 },
        ),
        &index,
    );
    assert!(!resolver.another_pass_needed());
    let diags = resolver.finish();
    assert_eq!(
        diags,
        vec![Diagnostic::DanglingReference {
            span: Span { raw: 77 },
            label: label("ghost-label"),
        }]
    );
}

#[test]
fn local_names_for_tables() {
    assert_eq!(local_name(Lang::English, None), "Table");
    assert_eq!(local_name(Lang::German, None), "Tabelle");
    assert_eq!(local_name(Lang::French, None), "Tableau");
    assert_eq!(local_name(Lang::Vietnamese, None), "B\u{1ea3}ng");
    assert_eq!(local_name(Lang::Other, None), "Table");
}
