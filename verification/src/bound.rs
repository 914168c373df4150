use vstd::prelude::*;
use vstd::string::StringExecFns;

use crate::text::{join_strings, join_with};

verus! {

/// A bound for a type in the `where` clause.
pub struct Bound {
    /// The bound type's name.
    pub name: String,
    /// The traits the type is bound by.
    pub traits: Vec<String>,
}

/// The right-hand side of a bound: the traits joined with ` + `.
pub open spec fn bound_rhs_text(traits: Seq<Seq<char>>) -> Seq<char> {
    join_with(traits, " + "@)
}

/// The first `i` bounds of a `where` clause: `where ` opens the first
/// line, six spaces align each further one, and every line ends with a
/// comma.
pub open spec fn bounds_list_text(bs: Seq<Bound>, i: int) -> Seq<char>
    decreases i,
{
    if 0 < i <= bs.len() {
        bounds_list_text(bs, i - 1) + (if i == 1 {
            "where "@
        } else {
            "      "@
        }) + bs[i - 1].name@ + ": "@ + bound_rhs_text(bs[i - 1].traits.deep_view()) + ",\n"@
    } else {
        Seq::empty()
    }
}

/// The rendered `where` clause: empty without bounds, else a fresh line
/// and one line per bound.
pub open spec fn bounds_text(bs: Seq<Bound>) -> Seq<char> {
    if bs.len() == 0 {
        Seq::empty()
    } else {
        "\n"@ + bounds_list_text(bs, bs.len() as int)
    }
}

/// Renders the `where` clause of the given bounds.
pub fn bounds_to_text(bs: &Vec<Bound>) -> (r: String)
    ensures
        r@ == bounds_text(bs@),
{
    if bs.is_empty() {
        let r = String::new();
        proof {
            assert(r@ =~= bounds_text(bs@));
        }
        return r;
    }
    let mut out = String::from_str("\n");
    let mut i: usize = 0;
    proof {
        assert(out@ + bounds_list_text(bs@, 0) =~= out@);
    }
    while i < bs.len()
        invariant
            i <= bs@.len(),
            out@ == "\n"@ + bounds_list_text(bs@, i as int),
        decreases bs@.len() - i,
    {
        if i == 0 {
            out.append("where ");
        } else {
            out.append("      ");
        }
        out.append(bs[i].name.as_str());
        out.append(": ");
        let rhs = join_strings(&bs[i].traits, " + ");
        out.append(rhs.as_str());
        out.append(",\n");
        proof {
            assert(out@ =~= "\n"@ + bounds_list_text(bs@, i as int + 1));
        }
        i = i + 1;
    }
    proof {
        assert(out@ =~= bounds_text(bs@));
    }
    out
}

impl Clone for Bound {
    fn clone(&self) -> (r: Bound)
        ensures
            r.name@ == self.name@,
            r.traits.deep_view() == self.traits.deep_view(),
    {
        let mut traits: Vec<String> = Vec::new();
        let mut i: usize = 0;
        while i < self.traits.len()
            invariant
                i <= self.traits.len(),
                traits.deep_view() == self.traits.deep_view().take(i as int),
            decreases self.traits.len() - i,
        {
            let c = self.traits[i].clone();
            proof {
                assert(c@ == self.traits@[i as int]@);
                assert(i <= self.traits@.len());
                assert(traits.deep_view().len() == i);
                assert(traits@.len() == i);
            }
            traits.push(c);
            proof {
                assert(traits@.len() == i + 1);
                assert(traits.deep_view().len() == i + 1);
                assert(forall|j: int|
                    0 <= j < i ==> traits.deep_view()[j] == self.traits.deep_view().take(
                        i as int,
                    )[j]);
                assert(traits.deep_view()[i as int] == c@);
                assert(traits.deep_view() =~~= self.traits.deep_view().take(i as int + 1));
            }
            i = i + 1;
        }
        proof {
            assert(self.traits.deep_view().take(self.traits.len() as int) =~= self
                .traits
                .deep_view());
        }
        Bound { name: self.name.clone(), traits }
    }
}

impl Bound {
    /// Creates a bound of `name` by the given traits.
    pub fn new(name: &str, traits: Vec<String>) -> (r: Bound)
        ensures
            r.name@ == name@,
            r.traits == traits,
    {
        Bound { name: name.to_owned(), traits }
    }

    /// Gets the name of the bound type.
    pub fn name(&self) -> (r: &str)
        ensures
            r@ == self.name@,
    {
        self.name.as_str()
    }

    /// Sets the name of the bound type.
    pub fn set_name(&mut self, name: &str) -> (r: &mut Bound)
        ensures
            r.name@ == name@,
            r.traits == old(self).traits,
            *final(self) == *final(r),
    {
        self.name = name.to_owned();
        self
    }

    /// Sets the name of the bound type.
    pub fn with_name(self, name: &str) -> (r: Bound)
        ensures
            r.name@ == name@,
            r.traits == self.traits,
    {
        let mut s = self;
        s.name = name.to_owned();
        s
    }

    /// Gets the name of the bound type mutably.
    pub fn name_mut(&mut self) -> (r: &mut String)
        ensures
            *r == old(self).name,
            final(self).name == *final(r),
            final(self).traits == old(self).traits,
    {
        &mut self.name
    }

    /// Gets the traits of the bound.
    pub fn traits(&self) -> (r: &Vec<String>)
        ensures
            *r == self.traits,
    {
        &self.traits
    }

    /// Sets the traits of the bound.
    pub fn set_traits(&mut self, traits: Vec<String>) -> (r: &mut Bound)
        ensures
            r.traits == traits,
            r.name == old(self).name,
            *final(self) == *final(r),
    {
        self.traits = traits;
        self
    }

    /// Sets the traits of the bound.
    pub fn with_traits(self, traits: Vec<String>) -> (r: Bound)
        ensures
            r.traits == traits,
            r.name == self.name,
    {
        let mut s = self;
        s.traits = traits;
        s
    }

    /// Gets the traits of the bound mutably.
    pub fn traits_mut(&mut self) -> (r: &mut Vec<String>)
        ensures
            *r == old(self).traits,
            final(self).traits == *final(r),
            final(self).name == old(self).name,
    {
        &mut self.traits
    }

    /// Pushes a trait onto the bound.
    pub fn push_trait(&mut self, trait_name: &str) -> (r: &mut Bound)
        ensures
            r.traits.deep_view() == old(self).traits.deep_view().push(trait_name@),
            r.name == old(self).name,
            *final(self) == *final(r),
    {
        self.traits.push(trait_name.to_owned());
        proof {
            assert(self.traits.deep_view() =~= old(self).traits.deep_view().push(trait_name@));
        }
        self
    }

    /// Pushes a trait onto the bound.
    pub fn with_trait(self, trait_name: &str) -> (r: Bound)
        ensures
            r.traits.deep_view() == self.traits.deep_view().push(trait_name@),
            r.name == self.name,
    {
        let mut s = self;
        s.traits.push(trait_name.to_owned());
        proof {
            assert(s.traits.deep_view() =~= self.traits.deep_view().push(trait_name@));
        }
        s
    }
}

} // verus!
