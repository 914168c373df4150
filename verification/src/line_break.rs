use vstd::prelude::*;

use crate::formatter::{at_start, ind, Formatter};

verus! {

/// A placeholder item whose sole effect is the blank line the scope writes
/// between consecutive items.
pub struct LineBreak {}

impl Default for LineBreak {
    fn default() -> (r: LineBreak) {
        LineBreak {}
    }
}

impl LineBreak {
    /// Creates a line break.
    pub fn new() -> LineBreak {
        LineBreak {}
    }

    /// Writes nothing: each item already starts on a fresh line.
    pub fn fmt(&self, fmt: &mut Formatter)
        requires
            old(fmt).wf(),
        ensures
            final(fmt).wf(),
            final(fmt).depth() == old(fmt).depth(),
            final(fmt).text() == old(fmt).text(),
    {
        let ghost orig = fmt.text();
        fmt.write_str("");
        proof {
            reveal_strlit("");
            assert(""@.len() == 0);
            assert(ind(""@, at_start(orig), fmt.depth()) =~= Seq::<char>::empty());
            assert(orig + Seq::<char>::empty() =~= orig);
        }
    }
}

} // verus!
