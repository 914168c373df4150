use vstd::prelude::*;
use vstd::string::StringExecFns;

use crate::bound::Bound;

verus! {

/// An associated type of a trait or an impl block: a bound carrying the
/// name and trait bounds, plus a concrete type for impl blocks.
pub struct AssociatedType {
    /// The name and the bounded traits.
    pub ty: Bound,
    /// The concrete type of an impl-block definition: its name and the
    /// generic arguments written inside angle brackets.
    pub concrete_ty: Option<(String, Vec<String>)>,
}

impl AssociatedType {
    /// Creates an associated type with the given name.
    pub fn new(name: &str) -> (r: AssociatedType)
        ensures
            r.ty.name@ == name@,
            r.ty.traits@.len() == 0,
            r.concrete_ty is None,
    {
        AssociatedType { ty: Bound::new(name, Vec::new()), concrete_ty: None }
    }

    /// Creates an associated type with the given name and bounded traits.
    pub fn new_with_bounds(name: &str, traits: Vec<String>) -> (r: AssociatedType)
        ensures
            r.ty.name@ == name@,
            r.ty.traits == traits,
            r.concrete_ty is None,
    {
        AssociatedType { ty: Bound::new(name, traits), concrete_ty: None }
    }

    /// Gets the name of the associated type.
    pub fn name(&self) -> (r: &str)
        ensures
            r@ == self.ty.name@,
    {
        self.ty.name.as_str()
    }

    /// Sets the name of the associated type.
    pub fn set_name(&mut self, name: &str) -> (r: &mut AssociatedType)
        ensures
            r.ty.name@ == name@,
            r.ty.traits == old(self).ty.traits,
            r.concrete_ty == old(self).concrete_ty,
            *final(self) == *final(r),
    {
        self.ty.name = name.to_owned();
        self
    }

    /// Sets the name of the associated type.
    pub fn with_name(self, name: &str) -> (r: AssociatedType)
        ensures
            r.ty.name@ == name@,
            r.ty.traits == self.ty.traits,
            r.concrete_ty == self.concrete_ty,
    {
        let mut s = self;
        s.ty.name = name.to_owned();
        s
    }

    /// Gets the name of the associated type mutably.
    pub fn name_mut(&mut self) -> (r: &mut String)
        ensures
            *r == old(self).ty.name,
            final(self).ty.name == *final(r),
            final(self).ty.traits == old(self).ty.traits,
            final(self).concrete_ty == old(self).concrete_ty,
    {
        &mut self.ty.name
    }

    /// Gets the trait bounds of the associated type.
    pub fn trait_bounds(&self) -> (r: &Vec<String>)
        ensures
            *r == self.ty.traits,
    {
        &self.ty.traits
    }

    /// Sets the trait bounds of the associated type.
    pub fn set_trait_bounds(&mut self, traits: Vec<String>) -> (r: &mut AssociatedType)
        ensures
            r.ty.traits == traits,
            r.ty.name == old(self).ty.name,
            r.concrete_ty == old(self).concrete_ty,
            *final(self) == *final(r),
    {
        self.ty.traits = traits;
        self
    }

    /// Sets the trait bounds of the associated type.
    pub fn with_trait_bounds(self, traits: Vec<String>) -> (r: AssociatedType)
        ensures
            r.ty.traits == traits,
            r.ty.name == self.ty.name,
            r.concrete_ty == self.concrete_ty,
    {
        let mut s = self;
        s.ty.traits = traits;
        s
    }

    /// Gets the concrete type of an impl-block definition.
    pub fn concrete_ty(&self) -> (r: Option<&(String, Vec<String>)>)
        ensures
            self.concrete_ty is Some <==> r is Some,
            r matches Some(c) ==> (self.concrete_ty matches Some(sc) && *c == sc),
    {
        self.concrete_ty.as_ref()
    }

    /// Sets the concrete type of an impl-block definition.
    pub fn set_concrete_ty(&mut self, name: &str, generics: Vec<String>) -> (r:
        &mut AssociatedType)
        ensures
            r.concrete_ty matches Some(c) && c.0@ == name@ && c.1 == generics,
            r.ty == old(self).ty,
            *final(self) == *final(r),
    {
        self.concrete_ty = Some((name.to_owned(), generics));
        self
    }

    /// Sets the concrete type of an impl-block definition.
    pub fn with_concrete_ty(self, name: &str, generics: Vec<String>) -> (r: AssociatedType)
        ensures
            r.concrete_ty matches Some(c) && c.0@ == name@ && c.1 == generics,
            r.ty == self.ty,
    {
        let mut s = self;
        s.concrete_ty = Some((name.to_owned(), generics));
        s
    }

    /// Gets the concrete ty mutably, when one is set.
    pub fn concrete_ty_mut(&mut self) -> (r: Option<&mut (String, Vec<String>)>)
        ensures
            old(self).concrete_ty is None ==> (r is None && final(self).concrete_ty is None),
            old(self).concrete_ty is Some ==> (r is Some && *r.unwrap() == old(self).concrete_ty.unwrap()
                && final(self).concrete_ty == Some(*final(r.unwrap()))),
            final(self).ty == old(self).ty,
    {
        self.concrete_ty.as_mut()
    }

    /// Gets the trait bounds mutably.
    pub fn trait_bounds_mut(&mut self) -> (r: &mut Vec<String>)
        ensures
            *r == old(self).ty.traits,
            final(self).ty.traits == *final(r),
            final(self).ty.name == old(self).ty.name,
            final(self).concrete_ty == old(self).concrete_ty,
    {
        &mut self.ty.traits
    }

    /// Pushes one trait bound onto the associated type.
    pub fn push_trait_bound(&mut self, trait_bound: &str) -> (r: &mut AssociatedType)
        ensures
            r.ty.traits.deep_view() == old(self).ty.traits.deep_view().push(trait_bound@),
            r.ty.name == old(self).ty.name,
            r.concrete_ty == old(self).concrete_ty,
            *final(self) == *final(r),
    {
        self.ty.traits.push(trait_bound.to_owned());
        proof {
            assert(self.ty.traits.deep_view() =~= old(self).ty.traits.deep_view().push(
                trait_bound@,
            ));
        }
        self
    }

    /// Pushes one trait bound onto the associated type.
    pub fn with_trait_bound(self, trait_bound: &str) -> (r: AssociatedType)
        ensures
            r.ty.traits.deep_view() == self.ty.traits.deep_view().push(trait_bound@),
            r.ty.name == self.ty.name,
            r.concrete_ty == self.concrete_ty,
    {
        let mut s = self;
        s.ty.traits.push(trait_bound.to_owned());
        proof {
            assert(s.ty.traits.deep_view() =~= self.ty.traits.deep_view().push(trait_bound@));
        }
        s
    }
}

} // verus!
