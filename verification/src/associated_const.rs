use vstd::prelude::*;
use vstd::string::StringExecFns;

use crate::generic_parameter::GenericParameter;
use crate::visibility::Vis;

verus! {

/// An associated constant of a trait or an impl block.
pub struct AssociatedConst {
    /// The constant's name.
    pub name: String,
    /// The constant's type, written as given.
    pub ty: String,
    /// Generic parameters recorded with the constant.
    pub generics: Vec<GenericParameter>,
    /// The visibility of a concrete definition in an impl block.
    pub concrete_vis: Vis,
    /// The value of a concrete definition in an impl block.
    pub concrete_value: Option<String>,
}

impl AssociatedConst {
    /// Creates an associated constant with the given name and type.
    pub fn new(name: &str, ty: &str) -> (r: AssociatedConst)
        ensures
            r.name@ == name@,
            r.ty@ == ty@,
            r.generics@.len() == 0,
            r.concrete_vis is Private,
            r.concrete_value is None,
    {
        AssociatedConst {
            name: name.to_owned(),
            ty: ty.to_owned(),
            generics: Vec::new(),
            concrete_vis: Vis::Private,
            concrete_value: None,
        }
    }

    /// Gets the name of the associated constant.
    pub fn name(&self) -> (r: &str)
        ensures
            r@ == self.name@,
    {
        self.name.as_str()
    }

    /// Sets the name of the associated constant.
    pub fn set_name(&mut self, name: &str) -> (r: &mut AssociatedConst)
        ensures
            r.name@ == name@,
            r.ty == old(self).ty,
            r.generics == old(self).generics,
            r.concrete_vis == old(self).concrete_vis,
            r.concrete_value == old(self).concrete_value,
            *final(self) == *final(r),
    {
        self.name = name.to_owned();
        self
    }

    /// Sets the name of the associated constant.
    pub fn with_name(self, name: &str) -> (r: AssociatedConst)
        ensures
            r.name@ == name@,
            r.ty == self.ty,
            r.generics == self.generics,
            r.concrete_vis == self.concrete_vis,
            r.concrete_value == self.concrete_value,
    {
        let mut s = self;
        s.name = name.to_owned();
        s
    }

    /// Gets the name of the associated constant mutably.
    pub fn name_mut(&mut self) -> (r: &mut String)
        ensures
            *r == old(self).name,
            final(self).name == *final(r),
            final(self).ty == old(self).ty,
            final(self).generics == old(self).generics,
            final(self).concrete_vis == old(self).concrete_vis,
            final(self).concrete_value == old(self).concrete_value,
    {
        &mut self.name
    }

    /// Gets the type of the associated constant.
    pub fn ty(&self) -> (r: &str)
        ensures
            r@ == self.ty@,
    {
        self.ty.as_str()
    }

    /// Sets the type of the associated constant.
    pub fn set_ty(&mut self, ty: &str) -> (r: &mut AssociatedConst)
        ensures
            r.ty@ == ty@,
            r.name == old(self).name,
            r.generics == old(self).generics,
            r.concrete_vis == old(self).concrete_vis,
            r.concrete_value == old(self).concrete_value,
            *final(self) == *final(r),
    {
        self.ty = ty.to_owned();
        self
    }

    /// Sets the type of the associated constant.
    pub fn with_ty(self, ty: &str) -> (r: AssociatedConst)
        ensures
            r.ty@ == ty@,
            r.name == self.name,
            r.generics == self.generics,
            r.concrete_vis == self.concrete_vis,
            r.concrete_value == self.concrete_value,
    {
        let mut s = self;
        s.ty = ty.to_owned();
        s
    }

    /// Gets the type of the associated constant mutably.
    pub fn ty_mut(&mut self) -> (r: &mut String)
        ensures
            *r == old(self).ty,
            final(self).ty == *final(r),
            final(self).name == old(self).name,
            final(self).generics == old(self).generics,
            final(self).concrete_vis == old(self).concrete_vis,
            final(self).concrete_value == old(self).concrete_value,
    {
        &mut self.ty
    }

    /// Gets the generic parameters of the associated constant.
    pub fn generics(&self) -> (r: &Vec<GenericParameter>)
        ensures
            *r == self.generics,
    {
        &self.generics
    }

    /// Sets the generic parameters of the associated constant.
    pub fn set_generics(&mut self, generics: Vec<GenericParameter>) -> (r: &mut AssociatedConst)
        ensures
            r.generics == generics,
            r.name == old(self).name,
            r.ty == old(self).ty,
            r.concrete_vis == old(self).concrete_vis,
            r.concrete_value == old(self).concrete_value,
            *final(self) == *final(r),
    {
        self.generics = generics;
        self
    }

    /// Sets the generic parameters of the associated constant.
    pub fn with_generics(self, generics: Vec<GenericParameter>) -> (r: AssociatedConst)
        ensures
            r.generics == generics,
            r.name == self.name,
            r.ty == self.ty,
            r.concrete_vis == self.concrete_vis,
            r.concrete_value == self.concrete_value,
    {
        let mut s = self;
        s.generics = generics;
        s
    }

    /// Gets the generic parameters of the associated constant mutably.
    pub fn generics_mut(&mut self) -> (r: &mut Vec<GenericParameter>)
        ensures
            *r == old(self).generics,
            final(self).generics == *final(r),
            final(self).name == old(self).name,
            final(self).ty == old(self).ty,
            final(self).concrete_vis == old(self).concrete_vis,
            final(self).concrete_value == old(self).concrete_value,
    {
        &mut self.generics
    }

    /// Gets the visibility a concrete definition carries.
    pub fn concrete_vis(&self) -> (r: &Vis)
        ensures
            *r == self.concrete_vis,
    {
        &self.concrete_vis
    }

    /// Sets the visibility a concrete definition carries.
    pub fn set_concrete_vis(&mut self, vis: Vis) -> (r: &mut AssociatedConst)
        ensures
            r.concrete_vis == vis,
            r.name == old(self).name,
            r.ty == old(self).ty,
            r.generics == old(self).generics,
            r.concrete_value == old(self).concrete_value,
            *final(self) == *final(r),
    {
        self.concrete_vis = vis;
        self
    }

    /// Sets the visibility a concrete definition carries.
    pub fn with_concrete_vis(self, vis: Vis) -> (r: AssociatedConst)
        ensures
            r.concrete_vis == vis,
            r.name == self.name,
            r.ty == self.ty,
            r.generics == self.generics,
            r.concrete_value == self.concrete_value,
    {
        let mut s = self;
        s.concrete_vis = vis;
        s
    }

    /// Gets the value a concrete definition carries.
    pub fn concrete_value(&self) -> (r: Option<&String>)
        ensures
            self.concrete_value is Some <==> r is Some,
            r matches Some(v) ==> (self.concrete_value matches Some(sv) && *v == sv),
    {
        self.concrete_value.as_ref()
    }

    /// Sets the value a concrete definition carries.
    pub fn set_concrete_value(&mut self, value: &str) -> (r: &mut AssociatedConst)
        ensures
            r.concrete_value matches Some(v) && v@ == value@,
            r.name == old(self).name,
            r.ty == old(self).ty,
            r.generics == old(self).generics,
            r.concrete_vis == old(self).concrete_vis,
            *final(self) == *final(r),
    {
        self.concrete_value = Some(value.to_owned());
        self
    }

    /// Sets the value a concrete definition carries.
    pub fn with_concrete_value(self, value: &str) -> (r: AssociatedConst)
        ensures
            r.concrete_value matches Some(v) && v@ == value@,
            r.name == self.name,
            r.ty == self.ty,
            r.generics == self.generics,
            r.concrete_vis == self.concrete_vis,
    {
        let mut s = self;
        s.concrete_value = Some(value.to_owned());
        s
    }

    /// Gets the concrete value mutably, when one is set.
    pub fn concrete_value_mut(&mut self) -> (r: Option<&mut String>)
        ensures
            old(self).concrete_value is None ==> (r is None && final(self).concrete_value is None),
            old(self).concrete_value is Some ==> (r is Some && *r.unwrap() == old(self).concrete_value.unwrap()
                && final(self).concrete_value == Some(*final(r.unwrap()))),
            final(self).name == old(self).name,
            final(self).ty == old(self).ty,
            final(self).generics == old(self).generics,
            final(self).concrete_vis == old(self).concrete_vis,
    {
        self.concrete_value.as_mut()
    }

    /// Gets the visibility a concrete definition carries, mutably.
    pub fn concrete_vis_mut(&mut self) -> (r: &mut Vis)
        ensures
            *r == old(self).concrete_vis,
            final(self).concrete_vis == *final(r),
            final(self).name == old(self).name,
            final(self).ty == old(self).ty,
            final(self).generics == old(self).generics,
            final(self).concrete_value == old(self).concrete_value,
    {
        &mut self.concrete_vis
    }
}

} // verus!
