//! Link targets, destinations, and link elements.

use vstd::prelude::*;
use crate::content::Content;
use crate::diag::Span;
use crate::introspection::{Label, Location};
use crate::tristate::TriState;

verus! {

/// A point on a page. Pages are counted from one; the coordinates are
/// relative to the page's top left corner.
#[derive(Clone, Copy, PartialEq, Eq, Structural, Debug)]
pub struct Position {
    pub page: usize,
    pub x: i64,
    pub y: i64,
}

/// A link destination.
#[derive(Clone, PartialEq, Eq, Debug)]
pub enum Destination {
    /// A link to a URL.
    Url(String),
    /// A link to a point on a page.
    Position(Position),
    /// A link to the location of an element in the document.
    Location(Location),
}

/// A target where a link can go: either an already concrete destination or a
/// symbolic reference to a labelled element. Fixed when the link element is
/// built, immutable thereafter.
#[derive(Clone, PartialEq, Eq, Debug)]
pub enum LinkTarget {
    Dest(Destination),
    Label(Label),
}

impl From<Destination> for LinkTarget {
    fn from(dest: Destination) -> (r: Self) {
        LinkTarget::Dest(dest)
    }
}

impl vstd::std_specs::convert::FromSpecImpl<Destination> for LinkTarget {
    open spec fn obeys_from_spec() -> bool {
        true
    }

    open spec fn from_spec(dest: Destination) -> Self {
        LinkTarget::Dest(dest)
    }
}

/// Whether `prefix` starts `text`.
pub open spec fn spec_is_prefix(prefix: Seq<char>, text: Seq<char>) -> bool {
    prefix.len() <= text.len() && text.take(prefix.len() as int) == prefix
}

/// `text` with every leading occurrence of the non-empty `prefix` removed.
pub open spec fn spec_strip_all(text: Seq<char>, prefix: Seq<char>) -> Seq<char>
    decreases text.len(),
{
    if prefix.len() > 0 && spec_is_prefix(prefix, text) {
        spec_strip_all(text.skip(prefix.len() as int), prefix)
    } else {
        text
    }
}

/// The text a bare URL is shown as: the URL itself, except that leading
/// `mailto:` and `tel:` schemes are removed.
pub open spec fn spec_url_display(url: Seq<char>) -> Seq<char> {
    spec_strip_all(spec_strip_all(url, "mailto:"@), "tel:"@)
}

/// Whether `prefix` starts `text`.
fn starts_with(text: &str, prefix: &str) -> (r: bool)
    ensures
        r == spec_is_prefix(prefix@, text@),
{
    let n = prefix.unicode_len();
    let m = text.unicode_len();
    if n > m {
        return false;
    }
    let mut i: usize = 0;
    while i < n
        invariant
            i <= n,
            n == prefix@.len(),
            n <= m,
            m == text@.len(),
            forall|j: int| 0 <= j < i ==> text@[j] == prefix@[j],
        decreases n - i,
    {
        if text.get_char(i) != prefix.get_char(i) {
            proof {
                assert(text@.take(n as int)[i as int] != prefix@[i as int]);
            }
            return false;
        }
        i += 1;
    }
    proof {
        assert(text@.take(n as int) =~= prefix@);
    }
    true
}

/// `text` with every leading occurrence of the non-empty `prefix` removed.
fn strip_prefix_all<'a>(text: &'a str, prefix: &str) -> (r: &'a str)
    requires
        prefix@.len() > 0,
    ensures
        r@ == spec_strip_all(text@, prefix@),
{
    let mut rest = text;
    let mut found = starts_with(rest, prefix);
    while found
        invariant
            prefix@.len() > 0,
            found == spec_is_prefix(prefix@, rest@),
            spec_strip_all(rest@, prefix@) == spec_strip_all(text@, prefix@),
        decreases rest@.len(),
    {
        let n = prefix.unicode_len();
        let m = rest.unicode_len();
        let stripped = rest.substring_char(n, m);
        proof {
            assert(stripped@ =~= rest@.skip(n as int));
        }
        rest = stripped;
        found = starts_with(rest, prefix);
    }
    rest
}

/// The content a bare URL is shown as when the link has no body: the URL's
/// text with leading `mailto:` and `tel:` schemes removed.
pub fn body_from_url(url: &str) -> (c: Content)
    ensures
        c.text@ == spec_url_display(url@),
        c.dest is None,
        c.hyphenate == TriState::<bool>::Auto,
{
    proof {
        reveal_strlit("mailto:");
        reveal_strlit("tel:");
    }
    let stripped = strip_prefix_all(strip_prefix_all(url, "mailto:"), "tel:");
    Content::plain(stripped.to_owned())
}

/// A link element: where it points, the content that becomes the link, and
/// its location in the document's source.
#[derive(PartialEq, Eq, Debug)]
pub struct LinkElem {
    /// The destination the link points to.
    pub dest: LinkTarget,
    /// The content that should become a link.
    pub body: Content,
    /// Where the link was written in the document's source.
    pub span: Span,
}

impl LinkElem {
    /// Build a link element.
    pub fn new(dest: LinkTarget, body: Content, span: Span) -> (e: LinkElem)
        ensures
            e == (LinkElem { dest, body, span }),
    {
        LinkElem { dest, body, span }
    }

    /// Create a link element from a URL with its bare text as the body.
    pub fn from_url(url: String) -> (e: LinkElem)
        ensures
            e.dest == LinkTarget::Dest(Destination::Url(url)),
            e.body.text@ == spec_url_display(url@),
            e.body.dest is None,
            e.body.hyphenate == TriState::<bool>::Auto,
            e.span == (Span { raw: 0 }),
    {
        let body = body_from_url(url.as_str());
        LinkElem { dest: LinkTarget::Dest(Destination::Url(url)), body, span: Span { raw: 0 } }
    }
}

} // verus!
