use vstd::prelude::*;
use vstd::string::StringExecFns;

use crate::formatter::{at_start, ind, Formatter};
use crate::generic_parameter::{generic_parameter_text, GenericParameter};

verus! {

/// A type reference: a name plus generic parameters.
pub struct Type {
    /// The type's name.
    pub name: String,
    /// The generic parameters of the type.
    pub generics: Vec<GenericParameter>,
}

/// The first `i` rendered generic parameters, `, `-separated.
pub open spec fn generics_list_text(gs: Seq<GenericParameter>, i: int) -> Seq<char>
    decreases i,
{
    if i <= 0 || i > gs.len() {
        Seq::empty()
    } else if i == 1 {
        generic_parameter_text(gs[0])
    } else {
        generics_list_text(gs, i - 1) + ", "@ + generic_parameter_text(gs[i - 1])
    }
}

/// The rendered angle-bracket list, empty when there are no parameters.
pub open spec fn generics_text(gs: Seq<GenericParameter>) -> Seq<char> {
    if gs.len() == 0 {
        Seq::empty()
    } else {
        "<"@ + generics_list_text(gs, gs.len() as int) + ">"@
    }
}

/// The rendered type: its name, then its generic parameters.
pub open spec fn type_text(t: Type) -> Seq<char> {
    t.name@ + generics_text(t.generics@)
}

impl Clone for Type {
    fn clone(&self) -> (r: Type)
        ensures
            r.name@ == self.name@,
            r.generics@.len() == self.generics@.len(),
            type_text(r) == type_text(*self),
    {
        let mut generics: Vec<GenericParameter> = Vec::new();
        let mut i: usize = 0;
        while i < self.generics.len()
            invariant
                i <= self.generics.len(),
                generics@.len() == i,
                forall|j: int|
                    0 <= j < i ==> generic_parameter_text(#[trigger] generics@[j])
                        == generic_parameter_text(self.generics@[j]),
            decreases self.generics.len() - i,
        {
            generics.push(self.generics[i].clone());
            i = i + 1;
        }
        let r = Type { name: self.name.clone(), generics };
        proof {
            lemma_generics_list_text_congruence(r.generics@, self.generics@);
        }
        r
    }
}

/// Lists whose parameters render alike render alike.
proof fn lemma_generics_list_text_congruence(a: Seq<GenericParameter>, b: Seq<GenericParameter>)
    requires
        a.len() == b.len(),
        forall|j: int|
            0 <= j < a.len() ==> generic_parameter_text(#[trigger] a[j]) == generic_parameter_text(
                b[j],
            ),
    ensures
        generics_text(a) == generics_text(b),
{
    if a.len() > 0 {
        lemma_generics_list_prefix(a, b, a.len() as int);
    }
}

proof fn lemma_generics_list_prefix(a: Seq<GenericParameter>, b: Seq<GenericParameter>, i: int)
    requires
        a.len() == b.len(),
        forall|j: int|
            0 <= j < a.len() ==> generic_parameter_text(#[trigger] a[j]) == generic_parameter_text(
                b[j],
            ),
    ensures
        0 <= i <= a.len() ==> generics_list_text(a, i) == generics_list_text(b, i),
    decreases i,
{
    if 1 < i <= a.len() {
        lemma_generics_list_prefix(a, b, i - 1);
    }
}

impl Type {
    /// Creates a type with the given name and no generic parameters.
    pub fn new(name: &str) -> (r: Type)
        ensures
            r.name@ == name@,
            r.generics@.len() == 0,
    {
        Type { name: name.to_owned(), generics: Vec::new() }
    }

    /// Gets the name of the type.
    pub fn name(&self) -> (r: &str)
        ensures
            r@ == self.name@,
    {
        self.name.as_str()
    }

    /// Sets the name of the type.
    pub fn set_name(&mut self, name: &str) -> (r: &mut Type)
        ensures
            r.name@ == name@,
            r.generics == old(self).generics,
            *final(self) == *final(r),
    {
        self.name = name.to_owned();
        self
    }

    /// Sets the name of the type.
    pub fn with_name(self, name: &str) -> (r: Type)
        ensures
            r.name@ == name@,
            r.generics == self.generics,
    {
        let mut s = self;
        s.name = name.to_owned();
        s
    }

    /// Gets the name of the type mutably.
    pub fn name_mut(&mut self) -> (r: &mut String)
        ensures
            *r == old(self).name,
            final(self).name == *final(r),
            final(self).generics == old(self).generics,
    {
        &mut self.name
    }

    /// Gets the generic parameters of the type.
    pub fn generics(&self) -> (r: &Vec<GenericParameter>)
        ensures
            *r == self.generics,
    {
        &self.generics
    }

    /// Sets the generic parameters of the type.
    pub fn set_generics(&mut self, generics: Vec<GenericParameter>) -> (r: &mut Type)
        ensures
            r.generics == generics,
            r.name == old(self).name,
            *final(self) == *final(r),
    {
        self.generics = generics;
        self
    }

    /// Sets the generic parameters of the type.
    pub fn with_generics(self, generics: Vec<GenericParameter>) -> (r: Type)
        ensures
            r.generics == generics,
            r.name == self.name,
    {
        let mut s = self;
        s.generics = generics;
        s
    }

    /// Gets the generic parameters of the type mutably.
    pub fn generics_mut(&mut self) -> (r: &mut Vec<GenericParameter>)
        ensures
            *r == old(self).generics,
            final(self).generics == *final(r),
            final(self).name == old(self).name,
    {
        &mut self.generics
    }

    /// Pushes a generic parameter onto the type.
    pub fn push_generic(&mut self, generic: GenericParameter) -> (r: &mut Type)
        ensures
            r.generics@ == old(self).generics@.push(generic),
            r.name == old(self).name,
            *final(self) == *final(r),
    {
        self.generics.push(generic);
        self
    }

    /// Pushes a generic parameter onto the type.
    pub fn with_generic(self, generic: GenericParameter) -> (r: Type)
        ensures
            r.generics@ == self.generics@.push(generic),
            r.name == self.name,
    {
        let mut s = self;
        s.generics.push(generic);
        s
    }

    /// The rendered type.
    pub fn to_text(&self) -> (r: String)
        ensures
            r@ == type_text(*self),
    {
        let mut out = self.name.clone();
        if !self.generics.is_empty() {
            out.append("<");
            let mut i: usize = 0;
            proof {
                assert(out@ =~= self.name@ + "<"@ + generics_list_text(self.generics@, 0));
            }
            while i < self.generics.len()
                invariant
                    i <= self.generics.len(),
                    self.generics@.len() > 0,
                    out@ == self.name@ + "<"@ + generics_list_text(self.generics@, i as int),
                decreases self.generics.len() - i,
            {
                if i != 0 {
                    out.append(", ");
                }
                let t = self.generics[i].to_text();
                out.append(t.as_str());
                proof {
                    if i == 0 {
                        assert(out@ =~= self.name@ + "<"@ + generics_list_text(self.generics@, 1));
                    } else {
                        assert(out@ =~= self.name@ + "<"@ + (generics_list_text(
                            self.generics@,
                            i as int,
                        ) + ", "@ + generic_parameter_text(self.generics@[i as int])));
                    }
                }
                i = i + 1;
            }
            out.append(">");
            proof {
                assert(out@ =~= type_text(*self));
            }
        } else {
            proof {
                assert(out@ =~= type_text(*self));
            }
        }
        out
    }

    /// Writes the type through the formatter.
    pub fn fmt(&self, fmt: &mut Formatter)
        requires
            old(fmt).wf(),
        ensures
            final(fmt).wf(),
            final(fmt).depth() == old(fmt).depth(),
            final(fmt).text() == old(fmt).text() + ind(
                type_text(*self),
                at_start(old(fmt).text()),
                old(fmt).depth(),
            ),
    {
        let t = self.to_text();
        fmt.write_str(t.as_str());
    }
}

} // verus!
