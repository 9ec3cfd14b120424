//! Body content, with an optional attached link destination and styling.

use vstd::prelude::*;
use crate::link::Destination;
use crate::tristate::TriState;

verus! {

/// A piece of body content: its plain text, the link destination attached to
/// it (if any), and whether its text may be hyphenated across lines (`Auto`
/// inherits the surrounding style).
#[derive(PartialEq, Eq, Debug)]
pub struct Content {
    pub text: String,
    pub dest: Option<Destination>,
    pub hyphenate: TriState<bool>,
}

impl Content {
    /// Plain, unlinked, unstyled text.
    pub fn plain(text: String) -> (c: Content)
        ensures
            c == (Content { text, dest: None, hyphenate: TriState::Auto }),
    {
        Content { text, dest: None, hyphenate: TriState::Auto }
    }

    /// Attach a link destination to this content.
    pub fn linked(self, dest: Destination) -> (c: Content)
        ensures
            c == (Content { dest: Some(dest), ..self }),
    {
        Content { text: self.text, dest: Some(dest), hyphenate: self.hyphenate }
    }

    /// Restyle this content's hyphenation.
    pub fn styled_hyphenate(self, hyphenate: TriState<bool>) -> (c: Content)
        ensures
            c == (Content { hyphenate, ..self }),
    {
        Content { text: self.text, dest: self.dest, hyphenate }
    }
}

impl Default for Content {
    /// Empty, unlinked, unstyled content.
    fn default() -> (c: Content)
        ensures
            c.text@ == Seq::<char>::empty(),
            c.dest is None,
            c.hyphenate == TriState::<bool>::Auto,
    {
        Content { text: String::new(), dest: None, hyphenate: TriState::Auto }
    }
}

} // verus!
