use vstd::prelude::*;
use vstd::string::StringExecFns;

use crate::bound::bound_rhs_text;
use crate::formatter::{at_start, ind, Formatter};
use crate::text::join_strings;

verus! {

/// A generic parameter, with optional trait bounds written beside it.
pub struct GenericParameter {
    /// The parameter's name.
    pub name: String,
    /// The traits bounding the parameter.
    pub traits: Vec<String>,
}

/// The rendered parameter: its name, then `: ` and the bounds when any.
pub open spec fn generic_parameter_text(g: GenericParameter) -> Seq<char> {
    g.name@ + (if g.traits@.len() == 0 {
        Seq::<char>::empty()
    } else {
        ": "@ + bound_rhs_text(g.traits.deep_view())
    })
}

impl Clone for GenericParameter {
    fn clone(&self) -> (r: GenericParameter)
        ensures
            r.name@ == self.name@,
            r.traits.deep_view() == self.traits.deep_view(),
            generic_parameter_text(r) == generic_parameter_text(*self),
    {
        let mut traits: Vec<String> = Vec::new();
        let mut i: usize = 0;
        proof {
            assert(traits.deep_view() =~~= self.traits.deep_view().take(0));
        }
        while i < self.traits.len()
            invariant
                i <= self.traits.len(),
                traits.deep_view() == self.traits.deep_view().take(i as int),
            decreases self.traits.len() - i,
        {
            let c = self.traits[i].clone();
            proof {
                assert(c@ == self.traits@[i as int]@);
                assert(traits.deep_view().len() == i);
                assert(traits@.len() == i);
            }
            traits.push(c);
            proof {
                assert(traits@.len() == i + 1);
                assert(traits.deep_view() =~~= self.traits.deep_view().take(i as int + 1));
            }
            i = i + 1;
        }
        proof {
            assert(self.traits.deep_view().take(self.traits.len() as int) =~= self
                .traits
                .deep_view());
        }
        let r = GenericParameter { name: self.name.clone(), traits };
        proof {
            assert(generic_parameter_text(r) == generic_parameter_text(*self));
        }
        r
    }
}

impl GenericParameter {
    /// Creates a generic parameter with the given name.
    pub fn new(name: &str) -> (r: GenericParameter)
        ensures
            r.name@ == name@,
            r.traits@.len() == 0,
    {
        GenericParameter { name: name.to_owned(), traits: Vec::new() }
    }

    /// Gets the name of the generic parameter.
    pub fn name(&self) -> (r: &str)
        ensures
            r@ == self.name@,
    {
        self.name.as_str()
    }

    /// Sets the name of the generic parameter.
    pub fn set_name(&mut self, name: &str) -> (r: &mut GenericParameter)
        ensures
            r.name@ == name@,
            r.traits == old(self).traits,
            *final(self) == *final(r),
    {
        self.name = name.to_owned();
        self
    }

    /// Gets the name of the generic parameter mutably.
    pub fn name_mut(&mut self) -> (r: &mut String)
        ensures
            *r == old(self).name,
            final(self).name == *final(r),
            final(self).traits == old(self).traits,
    {
        &mut self.name
    }

    /// Gets the traits of the generic parameter.
    pub fn traits(&self) -> (r: &Vec<String>)
        ensures
            *r == self.traits,
    {
        &self.traits
    }

    /// Sets the traits of the generic parameter.
    pub fn set_traits(&mut self, traits: Vec<String>) -> (r: &mut GenericParameter)
        ensures
            r.traits == traits,
            r.name == old(self).name,
            *final(self) == *final(r),
    {
        self.traits = traits;
        self
    }

    /// Sets the traits of the generic parameter.
    pub fn with_traits(self, traits: Vec<String>) -> (r: GenericParameter)
        ensures
            r.traits == traits,
            r.name == self.name,
    {
        let mut s = self;
        s.traits = traits;
        s
    }

    /// Gets the traits of the generic parameter mutably.
    pub fn traits_mut(&mut self) -> (r: &mut Vec<String>)
        ensures
            *r == old(self).traits,
            final(self).traits == *final(r),
            final(self).name == old(self).name,
    {
        &mut self.traits
    }

    /// Pushes a trait onto the generic parameter.
    pub fn push_trait(&mut self, trait_name: &str) -> (r: &mut GenericParameter)
        ensures
            r.traits.deep_view() == old(self).traits.deep_view().push(trait_name@),
            r.name == old(self).name,
            *final(self) == *final(r),
    {
        self.traits.push(trait_name.to_owned());
        proof {
            assert(self.traits.deep_view() =~= old(self).traits.deep_view().push(trait_name@));
        }
        self
    }

    /// Pushes a trait onto the generic parameter.
    pub fn with_trait(self, trait_name: &str) -> (r: GenericParameter)
        ensures
            r.traits.deep_view() == self.traits.deep_view().push(trait_name@),
            r.name == self.name,
    {
        let mut s = self;
        s.traits.push(trait_name.to_owned());
        proof {
            assert(s.traits.deep_view() =~= self.traits.deep_view().push(trait_name@));
        }
        s
    }

    /// The rendered parameter.
    pub fn to_text(&self) -> (r: String)
        ensures
            r@ == generic_parameter_text(*self),
    {
        let mut out = self.name.clone();
        if !self.traits.is_empty() {
            out.append(": ");
            let joined = join_strings(&self.traits, " + ");
            out.append(joined.as_str());
            proof {
                assert(out@ =~= generic_parameter_text(*self));
            }
        } else {
            proof {
                assert(out@ =~= generic_parameter_text(*self));
            }
        }
        out
    }

    /// Writes the parameter through the formatter.
    pub fn fmt(&self, fmt: &mut Formatter)
        requires
            old(fmt).wf(),
        ensures
            final(fmt).wf(),
            final(fmt).depth() == old(fmt).depth(),
            final(fmt).text() == old(fmt).text() + ind(
                generic_parameter_text(*self),
                at_start(old(fmt).text()),
                old(fmt).depth(),
            ),
    {
        let t = self.to_text();
        fmt.write_str(t.as_str());
    }
}

} // verus!
