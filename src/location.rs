use vstd::prelude::*;

verus! {

/// A place in the text: a line, and a grapheme cluster within it.
#[derive(Copy, Clone, Debug, Default, PartialEq, Eq, Structural)]
pub struct Location {
    pub grapheme_index: usize,
    pub line_index: usize,
}

} // verus!
