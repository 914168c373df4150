use vstd::prelude::*;
use vstd::string::StringExecFns;

use crate::visibility::{vis_eq, vis_text, Vis};

verus! {

/// One imported name: the import line it came from, and its visibility.
pub struct Import {
    /// The full `path::name` form the import was created with.
    pub line: String,
    /// The visibility of the `use` statement.
    pub vis: Vis,
}

impl Clone for Import {
    fn clone(&self) -> (r: Import)
        ensures
            r.line@ == self.line@,
            vis_eq(r.vis, self.vis),
            vis_text(r.vis) == vis_text(self.vis),
    {
        Import { line: self.line.clone(), vis: self.vis.clone() }
    }
}

impl Import {
    /// Creates a private import of `ty` from `path`.
    pub fn new(path: &str, ty: &str) -> (r: Import)
        ensures
            r.line@ == path@ + "::"@ + ty@,
            r.vis is Private,
    {
        let mut line = path.to_owned();
        line.append("::");
        line.append(ty);
        Import { line, vis: Vis::Private }
    }

    /// Returns the import line.
    pub fn line(&self) -> (r: &str)
        ensures
            r@ == self.line@,
    {
        self.line.as_str()
    }

    /// Gets the import visibility.
    pub fn vis(&self) -> (r: &Vis)
        ensures
            *r == self.vis,
    {
        &self.vis
    }

    /// Sets the import visibility.
    pub fn set_vis(&mut self, vis: Vis) -> (r: &mut Import)
        ensures
            r.vis == vis,
            r.line == old(self).line,
            *final(self) == *final(r),
    {
        self.vis = vis;
        self
    }

    /// Sets the import visibility.
    pub fn with_vis(self, vis: Vis) -> (r: Import)
        ensures
            r.vis == vis,
            r.line == self.line,
    {
        let mut s = self;
        s.vis = vis;
        s
    }

    /// Gets the import visibility mutably.
    pub fn vis_mut(&mut self) -> (r: &mut Vis)
        ensures
            *r == old(self).vis,
            final(self).vis == *final(r),
            final(self).line == old(self).line,
    {
        &mut self.vis
    }
}

} // verus!
