use vstd::prelude::*;
use vstd::string::StringExecFns;

use crate::formatter::{at_start, ind, Formatter};

verus! {

/// The access-scope qualifier prefixed to a declaration or an import.
pub enum Vis {
    /// The default private visibility.
    Private,
    /// `pub`.
    Pub,
    /// `pub(crate)`.
    PubCrate,
    /// `pub(self)`.
    PubSelf,
    /// `pub(super)`.
    PubSuper,
    /// A caller-supplied qualifier, written as given.
    Custom(String),
}

/// The prefix a visibility puts in front of a declaration: empty for
/// private, otherwise the qualifier followed by one space.
pub open spec fn vis_text(v: Vis) -> Seq<char> {
    match v {
        Vis::Private => Seq::empty(),
        Vis::Pub => "pub "@,
        Vis::PubCrate => "pub(crate) "@,
        Vis::PubSelf => "pub(self) "@,
        Vis::PubSuper => "pub(super) "@,
        Vis::Custom(s) => s@ + " "@,
    }
}

/// Structural equality over visibilities; custom qualifiers compare by
/// their characters.
pub open spec fn vis_eq(a: Vis, b: Vis) -> bool {
    match (a, b) {
        (Vis::Private, Vis::Private) => true,
        (Vis::Pub, Vis::Pub) => true,
        (Vis::PubCrate, Vis::PubCrate) => true,
        (Vis::PubSelf, Vis::PubSelf) => true,
        (Vis::PubSuper, Vis::PubSuper) => true,
        (Vis::Custom(x), Vis::Custom(y)) => x@ == y@,
        _ => false,
    }
}

impl Clone for Vis {
    fn clone(&self) -> (r: Vis)
        ensures
            r == *self,
    {
        match self {
            Vis::Private => Vis::Private,
            Vis::Pub => Vis::Pub,
            Vis::PubCrate => Vis::PubCrate,
            Vis::PubSelf => Vis::PubSelf,
            Vis::PubSuper => Vis::PubSuper,
            Vis::Custom(s) => Vis::Custom(s.clone()),
        }
    }
}

impl PartialEq for Vis {
    fn eq(&self, other: &Vis) -> (r: bool) {
        match (self, other) {
            (Vis::Private, Vis::Private) => true,
            (Vis::Pub, Vis::Pub) => true,
            (Vis::PubCrate, Vis::PubCrate) => true,
            (Vis::PubSelf, Vis::PubSelf) => true,
            (Vis::PubSuper, Vis::PubSuper) => true,
            (Vis::Custom(x), Vis::Custom(y)) => *x == *y,
            _ => false,
        }
    }
}

impl vstd::std_specs::cmp::PartialEqSpecImpl for Vis {
    open spec fn obeys_eq_spec() -> bool {
        true
    }

    open spec fn eq_spec(&self, other: &Vis) -> bool {
        vis_eq(*self, *other)
    }
}

impl Vis {
    /// The rendered prefix.
    pub fn to_text(&self) -> (r: String)
        ensures
            r@ == vis_text(*self),
    {
        match self {
            Vis::Private => String::new(),
            Vis::Pub => String::from_str("pub "),
            Vis::PubCrate => String::from_str("pub(crate) "),
            Vis::PubSelf => String::from_str("pub(self) "),
            Vis::PubSuper => String::from_str("pub(super) "),
            Vis::Custom(s) => {
                let mut t = s.clone();
                t.append(" ");
                t
            },
        }
    }

    /// Writes the prefix through the formatter.
    pub fn fmt(&self, fmt: &mut Formatter)
        requires
            old(fmt).wf(),
        ensures
            final(fmt).wf(),
            final(fmt).depth() == old(fmt).depth(),
            final(fmt).text() == old(fmt).text() + ind(
                vis_text(*self),
                at_start(old(fmt).text()),
                old(fmt).depth(),
            ),
    {
        let t = self.to_text();
        fmt.write_str(t.as_str());
    }
}

} // verus!
