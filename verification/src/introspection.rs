//! Labels, element locations, and the per-pass introspection index.

use vstd::prelude::*;

verus! {

/// A user-chosen identifier attached to some element elsewhere in the
/// document. Many links may reference one label; a label may never resolve.
#[derive(Clone, PartialEq, Eq, Debug)]
pub struct Label {
    pub name: String,
}

impl View for Label {
    type V = Seq<char>;

    open spec fn view(&self) -> Seq<char> {
        self.name@
    }
}

/// An opaque handle to "wherever a specific element ends up", stable across
/// passes.
#[derive(Clone, Copy, PartialEq, Eq, Structural, Debug)]
pub struct Location {
    pub id: u64,
}

/// The introspection index for one pass: a read-only mapping from labels to
/// the locations of the elements that carry them. The surrounding pipeline
/// rebuilds it between passes.
#[derive(Clone, PartialEq, Eq, Debug)]
pub struct Introspector {
    pub entries: Vec<(Label, Location)>,
}

/// The first location in `entries` whose label reads `label`, if any.
pub open spec fn spec_query_in(entries: Seq<(Label, Location)>, label: Seq<char>) -> Option<
    Location,
>
    decreases entries.len(),
{
    if entries.len() == 0 {
        None
    } else if entries[0].0@ == label {
        Some(entries[0].1)
    } else {
        spec_query_in(entries.drop_first(), label)
    }
}

impl Introspector {
    /// What a query for `label` finds in this index.
    pub open spec fn spec_query(&self, label: Seq<char>) -> Option<Location> {
        spec_query_in(self.entries@, label)
    }

    /// An index with no labelled elements.
    pub fn new() -> (r: Introspector)
        ensures
            r.entries@.len() == 0,
    {
        Introspector { entries: Vec::new() }
    }

    /// Record that the element at `location` carries `label`.
    pub fn add(&mut self, label: Label, location: Location)
        ensures
            final(self).entries@ == old(self).entries@.push((label, location)),
    {
        self.entries.push((label, location));
    }

    /// Look up the element carrying `label`. Idempotent within one pass; the
    /// index may change between passes.
    pub fn query_label(&self, label: &Label) -> (r: Option<Location>)
        ensures
            r == self.spec_query(label@),
    {
        let n = self.entries.len();
        let mut i: usize = 0;
        proof {
            assert(self.entries@.skip(0) =~= self.entries@);
        }
        while i < n
            invariant
                i <= n,
                n == self.entries@.len(),
                spec_query_in(self.entries@.skip(i as int), label@) == self.spec_query(label@),
            decreases n - i,
        {
            let entry = &self.entries[i];
            proof {
                assert(self.entries@.skip(i as int)[0] == self.entries@[i as int]);
            }
            if entry.0.name == label.name {
                return Some(entry.1);
            }
            proof {
                assert(self.entries@.skip(i as int).drop_first() =~= self.entries@.skip(
                    i as int + 1,
                ));
            }
            i += 1;
        }
        proof {
            assert(self.entries@.skip(n as int) =~= Seq::<(Label, Location)>::empty());
        }
        None
    }
}

} // verus!
