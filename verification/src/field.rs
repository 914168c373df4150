use vstd::prelude::*;
use vstd::string::StringExecFns;

use crate::doc::Doc;
use crate::ty::Type;
use crate::visibility::Vis;

verus! {

/// A named field: its name, type, and surrounding annotations.
pub struct Field {
    /// The field's name.
    pub name: String,
    /// The field's type.
    pub ty: Type,
    /// The field's documentation.
    pub doc: Option<Doc>,
    /// Annotation lines written above the field.
    pub annotations: Vec<String>,
    /// The field's value, where one applies.
    pub value: String,
    /// The field's visibility.
    pub vis: Vis,
}

impl Field {
    /// Creates a field with the given name and type.
    pub fn new(name: &str, ty: Type) -> (r: Field)
        ensures
            r.name@ == name@,
            r.ty == ty,
            r.doc is None,
            r.annotations@.len() == 0,
            r.value@.len() == 0,
            r.vis is Private,
    {
        Field {
            name: name.to_owned(),
            ty,
            doc: None,
            annotations: Vec::new(),
            value: String::new(),
            vis: Vis::Private,
        }
    }

    /// Gets the name of the field.
    pub fn name(&self) -> (r: &str)
        ensures
            r@ == self.name@,
    {
        self.name.as_str()
    }

    /// Sets the name of the field.
    pub fn set_name(&mut self, name: &str) -> (r: &mut Field)
        ensures
            r.name@ == name@,
            r.ty == old(self).ty,
            r.doc == old(self).doc,
            r.annotations == old(self).annotations,
            r.value == old(self).value,
            r.vis == old(self).vis,
            *final(self) == *final(r),
    {
        self.name = name.to_owned();
        self
    }

    /// Sets the name of the field.
    pub fn with_name(self, name: &str) -> (r: Field)
        ensures
            r.name@ == name@,
            r.ty == self.ty,
            r.doc == self.doc,
            r.annotations == self.annotations,
            r.value == self.value,
            r.vis == self.vis,
    {
        let mut s = self;
        s.name = name.to_owned();
        s
    }

    /// Gets the name of the field mutably.
    pub fn name_mut(&mut self) -> (r: &mut String)
        ensures
            *r == old(self).name,
            final(self).name == *final(r),
            final(self).ty == old(self).ty,
            final(self).doc == old(self).doc,
            final(self).annotations == old(self).annotations,
            final(self).value == old(self).value,
            final(self).vis == old(self).vis,
    {
        &mut self.name
    }

    /// Gets the type of the field.
    pub fn ty(&self) -> (r: &Type)
        ensures
            *r == self.ty,
    {
        &self.ty
    }

    /// Sets the type of the field.
    pub fn set_ty(&mut self, ty: Type) -> (r: &mut Field)
        ensures
            r.ty == ty,
            r.name == old(self).name,
            r.doc == old(self).doc,
            r.annotations == old(self).annotations,
            r.value == old(self).value,
            r.vis == old(self).vis,
            *final(self) == *final(r),
    {
        self.ty = ty;
        self
    }

    /// Sets the type of the field.
    pub fn with_ty(self, ty: Type) -> (r: Field)
        ensures
            r.ty == ty,
            r.name == self.name,
            r.doc == self.doc,
            r.annotations == self.annotations,
            r.value == self.value,
            r.vis == self.vis,
    {
        let mut s = self;
        s.ty = ty;
        s
    }

    /// Gets the type of the field mutably.
    pub fn ty_mut(&mut self) -> (r: &mut Type)
        ensures
            *r == old(self).ty,
            final(self).ty == *final(r),
            final(self).name == old(self).name,
            final(self).doc == old(self).doc,
            final(self).annotations == old(self).annotations,
            final(self).value == old(self).value,
            final(self).vis == old(self).vis,
    {
        &mut self.ty
    }

    /// Gets the documentation of the field.
    pub fn doc(&self) -> (r: Option<&Doc>)
        ensures
            self.doc is Some <==> r is Some,
            r matches Some(d) ==> self.doc matches Some(sd) && *d == sd,
    {
        self.doc.as_ref()
    }

    /// Sets the documentation of the field.
    pub fn set_doc(&mut self, doc: &str) -> (r: &mut Field)
        ensures
            r.doc matches Some(d) && d.0@ == doc@,
            r.name == old(self).name,
            r.ty == old(self).ty,
            r.annotations == old(self).annotations,
            r.value == old(self).value,
            r.vis == old(self).vis,
            *final(self) == *final(r),
    {
        self.doc = Some(Doc::new(doc));
        self
    }

    /// Sets the documentation of the field.
    pub fn with_doc(self, doc: &str) -> (r: Field)
        ensures
            r.doc matches Some(d) && d.0@ == doc@,
            r.name == self.name,
            r.ty == self.ty,
            r.annotations == self.annotations,
            r.value == self.value,
            r.vis == self.vis,
    {
        let mut s = self;
        s.doc = Some(Doc::new(doc));
        s
    }

    /// Gets the annotations of the field.
    pub fn annotations(&self) -> (r: &Vec<String>)
        ensures
            *r == self.annotations,
    {
        &self.annotations
    }

    /// Sets the annotations of the field.
    pub fn set_annotations(&mut self, annotations: Vec<String>) -> (r: &mut Field)
        ensures
            r.annotations == annotations,
            r.name == old(self).name,
            r.ty == old(self).ty,
            r.doc == old(self).doc,
            r.value == old(self).value,
            r.vis == old(self).vis,
            *final(self) == *final(r),
    {
        self.annotations = annotations;
        self
    }

    /// Sets the annotations of the field.
    pub fn with_annotations(self, annotations: Vec<String>) -> (r: Field)
        ensures
            r.annotations == annotations,
            r.name == self.name,
            r.ty == self.ty,
            r.doc == self.doc,
            r.value == self.value,
            r.vis == self.vis,
    {
        let mut s = self;
        s.annotations = annotations;
        s
    }

    /// Gets the annotations of the field mutably.
    pub fn annotations_mut(&mut self) -> (r: &mut Vec<String>)
        ensures
            *r == old(self).annotations,
            final(self).annotations == *final(r),
            final(self).name == old(self).name,
            final(self).ty == old(self).ty,
            final(self).doc == old(self).doc,
            final(self).value == old(self).value,
            final(self).vis == old(self).vis,
    {
        &mut self.annotations
    }

    /// Pushes an annotation line onto the field.
    pub fn push_annotation(&mut self, annotation: &str) -> (r: &mut Field)
        ensures
            r.annotations.deep_view() == old(self).annotations.deep_view().push(annotation@),
            r.name == old(self).name,
            r.ty == old(self).ty,
            r.doc == old(self).doc,
            r.value == old(self).value,
            r.vis == old(self).vis,
            *final(self) == *final(r),
    {
        self.annotations.push(annotation.to_owned());
        proof {
            assert(self.annotations.deep_view() =~= old(self).annotations.deep_view().push(
                annotation@,
            ));
        }
        self
    }

    /// Pushes an annotation line onto the field.
    pub fn with_annotation(self, annotation: &str) -> (r: Field)
        ensures
            r.annotations.deep_view() == self.annotations.deep_view().push(annotation@),
            r.name == self.name,
            r.ty == self.ty,
            r.doc == self.doc,
            r.value == self.value,
            r.vis == self.vis,
    {
        let mut s = self;
        s.annotations.push(annotation.to_owned());
        proof {
            assert(s.annotations.deep_view() =~= self.annotations.deep_view().push(annotation@));
        }
        s
    }

    /// Gets the value of the field.
    pub fn value(&self) -> (r: &str)
        ensures
            r@ == self.value@,
    {
        self.value.as_str()
    }

    /// Sets the value of the field.
    pub fn set_value(&mut self, value: &str) -> (r: &mut Field)
        ensures
            r.value@ == value@,
            r.name == old(self).name,
            r.ty == old(self).ty,
            r.doc == old(self).doc,
            r.annotations == old(self).annotations,
            r.vis == old(self).vis,
            *final(self) == *final(r),
    {
        self.value = value.to_owned();
        self
    }

    /// Sets the value of the field.
    pub fn with_value(self, value: &str) -> (r: Field)
        ensures
            r.value@ == value@,
            r.name == self.name,
            r.ty == self.ty,
            r.doc == self.doc,
            r.annotations == self.annotations,
            r.vis == self.vis,
    {
        let mut s = self;
        s.value = value.to_owned();
        s
    }

    /// Gets the value of the field mutably.
    pub fn value_mut(&mut self) -> (r: &mut String)
        ensures
            *r == old(self).value,
            final(self).value == *final(r),
            final(self).name == old(self).name,
            final(self).ty == old(self).ty,
            final(self).doc == old(self).doc,
            final(self).annotations == old(self).annotations,
            final(self).vis == old(self).vis,
    {
        &mut self.value
    }

    /// Gets the visibility of the field.
    pub fn vis(&self) -> (r: &Vis)
        ensures
            *r == self.vis,
    {
        &self.vis
    }

    /// Sets the visibility of the field.
    pub fn set_vis(&mut self, vis: Vis) -> (r: &mut Field)
        ensures
            r.vis == vis,
            r.name == old(self).name,
            r.ty == old(self).ty,
            r.doc == old(self).doc,
            r.annotations == old(self).annotations,
            r.value == old(self).value,
            *final(self) == *final(r),
    {
        self.vis = vis;
        self
    }

    /// Sets the visibility of the field.
    pub fn with_vis(self, vis: Vis) -> (r: Field)
        ensures
            r.vis == vis,
            r.name == self.name,
            r.ty == self.ty,
            r.doc == self.doc,
            r.annotations == self.annotations,
            r.value == self.value,
    {
        let mut s = self;
        s.vis = vis;
        s
    }

    /// Gets the visibility of the field mutably.
    pub fn vis_mut(&mut self) -> (r: &mut Vis)
        ensures
            *r == old(self).vis,
            final(self).vis == *final(r),
            final(self).name == old(self).name,
            final(self).ty == old(self).ty,
            final(self).doc == old(self).doc,
            final(self).annotations == old(self).annotations,
            final(self).value == old(self).value,
    {
        &mut self.vis
    }

    /// Gets the doc mutably, when one is set.
    pub fn doc_mut(&mut self) -> (r: Option<&mut Doc>)
        ensures
            old(self).doc is None ==> (r is None && final(self).doc is None),
            old(self).doc is Some ==> (r is Some && *r.unwrap() == old(self).doc.unwrap()
                && final(self).doc == Some(*final(r.unwrap()))),
            final(self).name == old(self).name,
            final(self).ty == old(self).ty,
            final(self).annotations == old(self).annotations,
            final(self).value == old(self).value,
            final(self).vis == old(self).vis,
    {
        self.doc.as_mut()
    }
}

} // verus!
