//! Deferred reference resolution: linking label targets across a bounded
//! number of layout passes.

use vstd::prelude::*;
use crate::content::Content;
use crate::diag::{Diagnostic, Span};
use crate::introspection::{Introspector, Label};
use crate::link::{Destination, LinkElem, LinkTarget};
use crate::tristate::TriState;

verus! {

/// A label-link that did not resolve in the current pass and is retried in
/// the next one.
#[derive(PartialEq, Eq, Debug)]
pub struct Pending {
    /// The label the link points to.
    pub label: Label,
    /// The link's own location in the document's source.
    pub span: Span,
}

/// Schedules and retries label-to-destination lookups across layout passes.
///
/// Within a pass, every link is shown exactly once against that pass's
/// introspection index; a label that is not found yet is queued for a retry.
/// Entering the next pass drops the queue rather than reusing it: the whole
/// document is shown afresh against the rebuilt index, so no stale result
/// survives a pass boundary. When the pass budget runs out, whatever is
/// still queued becomes a dangling-reference diagnostic.
#[derive(PartialEq, Eq, Debug)]
pub struct Resolver {
    /// The label-links the current pass could not resolve.
    pub pending: Vec<Pending>,
    /// How many pass boundaries have been crossed.
    pub pass: usize,
    /// The bound on additional passes before diagnostics are surfaced.
    pub max_passes: usize,
}

impl Resolver {
    /// The content a link displays as in a pass whose index is `index`: a
    /// concrete destination is attached immediately; a label found in the
    /// index is attached as the element's location; a label not found yet
    /// leaves the body unlinked for this pass. Whatever the branch, the
    /// body's hyphenation is forced off.
    pub open spec fn spec_shown(link: LinkElem, index: Introspector) -> Content {
        match link.dest {
            LinkTarget::Dest(dest) => Content {
                dest: Some(dest),
                hyphenate: TriState::Custom(false),
                ..link.body
            },
            LinkTarget::Label(label) => match index.spec_query(label@) {
                Some(loc) => Content {
                    dest: Some(Destination::Location(loc)),
                    hyphenate: TriState::Custom(false),
                    ..link.body
                },
                None => Content { hyphenate: TriState::Custom(false), ..link.body },
            },
        }
    }

    /// Whether showing `link` against `index` queues a retry: only a label
    /// target that the index does not know yet does.
    pub open spec fn spec_enqueues(link: LinkElem, index: Introspector) -> bool {
        &&& link.dest is Label
        &&& index.spec_query(link.dest->Label_0@) is None
    }

    /// A resolver before the first pass, with no queued retries.
    pub fn new(max_passes: usize) -> (r: Resolver)
        ensures
            r.pending@.len() == 0,
            r.pass == 0,
            r.max_passes == max_passes,
    {
        Resolver { pending: Vec::new(), pass: 0, max_passes }
    }

    /// Show a link for the current pass. The link element is consumed: one
    /// show, and so exactly one resolution attempt, happens per link per
    /// pass. An unresolved label queues exactly one retry.
    pub fn show(&mut self, link: LinkElem, index: &Introspector) -> (c: Content)
        ensures
            c == Self::spec_shown(link, *index),
            final(self).pass == old(self).pass,
            final(self).max_passes == old(self).max_passes,
            Self::spec_enqueues(link, *index) ==> final(self).pending@ == old(
                self,
            ).pending@.push(Pending { label: link.dest->Label_0, span: link.span }),
            !Self::spec_enqueues(link, *index) ==> final(self).pending@ == old(self).pending@,
    {
        match link.dest {
            LinkTarget::Dest(dest) => link.body.linked(dest).styled_hyphenate(
                TriState::Custom(false),
            ),
            LinkTarget::Label(label) => match index.query_label(&label) {
                Some(loc) => link.body.linked(Destination::Location(loc)).styled_hyphenate(
                    TriState::Custom(false),
                ),
                None => {
                    let span = link.span;
                    self.pending.push(Pending { label, span });
                    link.body.styled_hyphenate(TriState::Custom(false))
                },
            },
        }
    }

    /// Whether unresolved references remain and the pass budget allows
    /// another pass.
    pub fn another_pass_needed(&self) -> (b: bool)
        ensures
            b == (self.pending@.len() > 0 && self.pass < self.max_passes),
    {
        self.pending.len() > 0 && self.pass < self.max_passes
    }

    /// Cross a pass boundary: the surrounding pipeline rebuilds the index and
    /// shows every link afresh, so the finished pass's queue is dropped, not
    /// reused.
    pub fn begin_pass(&mut self)
        requires
            old(self).pass < old(self).max_passes,
        ensures
            final(self).pass == old(self).pass + 1,
            final(self).pending@.len() == 0,
            final(self).max_passes == old(self).max_passes,
    {
        self.pass = self.pass + 1;
        self.pending.clear();
    }

    /// Surface the references still unresolved once the pass budget is
    /// exhausted: each becomes a dangling-reference diagnostic pinned to its
    /// link's source location.
    pub fn finish(self) -> (diags: Vec<Diagnostic>)
        ensures
            diags@.len() == self.pending@.len(),
            forall|i: int|
                0 <= i < diags@.len() ==> diags@[i] == (Diagnostic::DanglingReference {
                    span: self.pending@[i].span,
                    label: self.pending@[i].label,
                }),
    {
        let Resolver { pending, .. } = self;
        let mut pending = pending;
        let mut diags: Vec<Diagnostic> = Vec::new();
        let n = pending.len();
        let mut i: usize = 0;
        proof {
            assert(pending@ =~= self.pending@.skip(0));
        }
        while i < n
            invariant
                i <= n,
                n == self.pending@.len(),
                pending@ == self.pending@.skip(i as int),
                diags@.len() == i as int,
                forall|j: int|
                    0 <= j < i ==> diags@[j] == (Diagnostic::DanglingReference {
                        span: self.pending@[j].span,
                        label: self.pending@[j].label,
                    }),
            decreases n - i,
        {
            let entry = pending.remove(0);
            proof {
                assert(entry == self.pending@[i as int]);
                assert(pending@ =~= self.pending@.skip(i as int + 1));
            }
            diags.push(Diagnostic::DanglingReference { span: entry.span, label: entry.label });
            i += 1;
        }
        diags
    }
}

} // verus!
