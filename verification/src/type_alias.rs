use vstd::prelude::*;
use vstd::string::StringExecFns;

use crate::bound::Bound;
use crate::doc::Doc;
use crate::formatter::{at_start, ind, lemma_ind_concat, lemma_ind_ends, Formatter};
use crate::generic_parameter::GenericParameter;
use crate::lint::Lint;
use crate::ty::{type_text, Type};
use crate::type_def::{head_text, TypeDef};
use crate::visibility::Vis;

verus! {

/// A type alias: the shared head plus the aliased type, ending with a
/// bare semicolon.
pub struct TypeAlias {
    /// The declaration head.
    pub type_def: TypeDef,
    /// The aliased type.
    pub ty: Type,
}

/// The rendered type alias; nothing follows the semicolon.
pub open spec fn type_alias_text(t: TypeAlias) -> Seq<char> {
    head_text(t.type_def, "type"@, Seq::empty()) + " = "@ + type_text(t.ty) + ";"@
}

impl TypeAlias {
    /// Creates a type alias of `ty` under `name`.
    pub fn new(name: &str, ty: Type) -> (r: TypeAlias)
        ensures
            r.type_def.ty.name@ == name@,
            r.type_def.ty.generics@.len() == 0,
            r.type_def.vis is Private,
            r.type_def.doc is None,
            r.type_def.derives@.len() == 0,
            r.type_def.lints@.len() == 0,
            r.type_def.attributes@.len() == 0,
            r.type_def.repr is None,
            r.type_def.bounds@.len() == 0,
            r.type_def.macros@.len() == 0,
            r.ty == ty,
    {
        TypeAlias { type_def: TypeDef::new(name), ty }
    }

    /// Gets the declaration head.
    pub fn type_def(&self) -> (r: &TypeDef)
        ensures
            *r == self.type_def,
    {
        &self.type_def
    }

    /// Sets the declaration head.
    pub fn set_type_def(&mut self, type_def: TypeDef) -> (r: &mut TypeAlias)
        ensures
            r.type_def == type_def,
            r.ty == old(self).ty,
            *final(self) == *final(r),
    {
        self.type_def = type_def;
        self
    }

    /// Sets the declaration head.
    pub fn with_type_def(self, type_def: TypeDef) -> (r: TypeAlias)
        ensures
            r.type_def == type_def,
            r.ty == self.ty,
    {
        let mut s = self;
        s.type_def = type_def;
        s
    }

    /// Gets the declaration head mutably.
    pub fn type_def_mut(&mut self) -> (r: &mut TypeDef)
        ensures
            *r == old(self).type_def,
            final(self).type_def == *final(r),
            final(self).ty == old(self).ty,
    {
        &mut self.type_def
    }

    /// Writes the type alias, starting at a line start.
    pub fn fmt(&self, fmt: &mut Formatter)
        requires
            old(fmt).wf(),
            at_start(old(fmt).text()),
        ensures
            final(fmt).wf(),
            final(fmt).depth() == old(fmt).depth(),
            final(fmt).text() == old(fmt).text() + ind(
                type_alias_text(*self),
                true,
                old(fmt).depth(),
            ),
    {
        let ghost orig = fmt.text();
        let ghost n = fmt.depth();
        let ghost head = head_text(self.type_def, "type"@, Seq::empty());
        let no_parents: Vec<Type> = Vec::new();
        self.type_def.fmt_head("type", &no_parents, fmt);
        proof {
            assert(no_parents@ =~= Seq::<Type>::empty());
            if head.len() == 0 {
                assert(ind(head, true, n) =~= Seq::<char>::empty());
                assert(fmt.text() =~= orig);
            } else {
                lemma_ind_ends(head, true, n);
                assert(fmt.text().last() == ind(head, true, n).last());
            }
        }
        let mut rest = String::from_str(" = ");
        let tt = self.ty.to_text();
        rest.append(tt.as_str());
        rest.append(";");
        fmt.write_str(rest.as_str());
        proof {
            lemma_ind_concat(head, rest@, true, n);
            assert(rest@ =~= " = "@ + type_text(self.ty) + ";"@);
            assert(type_alias_text(*self) =~= head + rest@);
            assert(fmt.text() =~= orig + ind(type_alias_text(*self), true, n));
        }
    }

    /// Gets the name.
    pub fn name(&self) -> (r: &str)
        ensures
            r@ == self.type_def.ty.name@,
    {
        self.type_def.ty.name.as_str()
    }

    /// Sets the name.
    pub fn set_name(&mut self, name: &str) -> (r: &mut TypeAlias)
        ensures
            r.type_def.ty.name@ == name@,
            r.type_def.ty.generics == old(self).type_def.ty.generics,
            r.type_def.vis == old(self).type_def.vis,
            r.type_def.doc == old(self).type_def.doc,
            r.type_def.derives == old(self).type_def.derives,
            r.type_def.lints == old(self).type_def.lints,
            r.type_def.attributes == old(self).type_def.attributes,
            r.type_def.repr == old(self).type_def.repr,
            r.type_def.bounds == old(self).type_def.bounds,
            r.type_def.macros == old(self).type_def.macros,
            r.ty == old(self).ty,
            *final(self) == *final(r),
    {
        self.type_def.ty.name = name.to_owned();
        self
    }

    /// Sets the name.
    pub fn with_name(self, name: &str) -> (r: TypeAlias)
        ensures
            r.type_def.ty.name@ == name@,
            r.type_def.ty.generics == self.type_def.ty.generics,
            r.type_def.vis == self.type_def.vis,
            r.type_def.doc == self.type_def.doc,
            r.type_def.derives == self.type_def.derives,
            r.type_def.lints == self.type_def.lints,
            r.type_def.attributes == self.type_def.attributes,
            r.type_def.repr == self.type_def.repr,
            r.type_def.bounds == self.type_def.bounds,
            r.type_def.macros == self.type_def.macros,
            r.ty == self.ty,
    {
        let mut s = self;
        s.type_def.ty.name = name.to_owned();
        s
    }

    /// Gets the name mutably.
    pub fn name_mut(&mut self) -> (r: &mut String)
        ensures
            *r == old(self).type_def.ty.name,
            final(self).type_def.ty.name == *final(r),
            final(self).type_def.ty.generics == old(self).type_def.ty.generics,
            final(self).type_def.vis == old(self).type_def.vis,
            final(self).type_def.doc == old(self).type_def.doc,
            final(self).type_def.derives == old(self).type_def.derives,
            final(self).type_def.lints == old(self).type_def.lints,
            final(self).type_def.attributes == old(self).type_def.attributes,
            final(self).type_def.repr == old(self).type_def.repr,
            final(self).type_def.bounds == old(self).type_def.bounds,
            final(self).type_def.macros == old(self).type_def.macros,
            final(self).ty == old(self).ty,
    {
        &mut self.type_def.ty.name
    }

    /// Gets the vis.
    pub fn vis(&self) -> (r: &Vis)
        ensures
            *r == self.type_def.vis,
    {
        &self.type_def.vis
    }

    /// Sets the vis.
    pub fn set_vis(&mut self, vis: Vis) -> (r: &mut TypeAlias)
        ensures
            r.type_def.vis == vis,
            r.type_def.ty.name == old(self).type_def.ty.name,
            r.type_def.ty.generics == old(self).type_def.ty.generics,
            r.type_def.doc == old(self).type_def.doc,
            r.type_def.derives == old(self).type_def.derives,
            r.type_def.lints == old(self).type_def.lints,
            r.type_def.attributes == old(self).type_def.attributes,
            r.type_def.repr == old(self).type_def.repr,
            r.type_def.bounds == old(self).type_def.bounds,
            r.type_def.macros == old(self).type_def.macros,
            r.ty == old(self).ty,
            *final(self) == *final(r),
    {
        self.type_def.vis = vis;
        self
    }

    /// Sets the vis.
    pub fn with_vis(self, vis: Vis) -> (r: TypeAlias)
        ensures
            r.type_def.vis == vis,
            r.type_def.ty.name == self.type_def.ty.name,
            r.type_def.ty.generics == self.type_def.ty.generics,
            r.type_def.doc == self.type_def.doc,
            r.type_def.derives == self.type_def.derives,
            r.type_def.lints == self.type_def.lints,
            r.type_def.attributes == self.type_def.attributes,
            r.type_def.repr == self.type_def.repr,
            r.type_def.bounds == self.type_def.bounds,
            r.type_def.macros == self.type_def.macros,
            r.ty == self.ty,
    {
        let mut s = self;
        s.type_def.vis = vis;
        s
    }

    /// Gets the vis mutably.
    pub fn vis_mut(&mut self) -> (r: &mut Vis)
        ensures
            *r == old(self).type_def.vis,
            final(self).type_def.vis == *final(r),
            final(self).type_def.ty.name == old(self).type_def.ty.name,
            final(self).type_def.ty.generics == old(self).type_def.ty.generics,
            final(self).type_def.doc == old(self).type_def.doc,
            final(self).type_def.derives == old(self).type_def.derives,
            final(self).type_def.lints == old(self).type_def.lints,
            final(self).type_def.attributes == old(self).type_def.attributes,
            final(self).type_def.repr == old(self).type_def.repr,
            final(self).type_def.bounds == old(self).type_def.bounds,
            final(self).type_def.macros == old(self).type_def.macros,
            final(self).ty == old(self).ty,
    {
        &mut self.type_def.vis
    }

    /// Gets the generics.
    pub fn generics(&self) -> (r: &Vec<GenericParameter>)
        ensures
            *r == self.type_def.ty.generics,
    {
        &self.type_def.ty.generics
    }

    /// Sets the generics.
    pub fn set_generics(&mut self, generics: Vec<GenericParameter>) -> (r: &mut TypeAlias)
        ensures
            r.type_def.ty.generics == generics,
            r.type_def.ty.name == old(self).type_def.ty.name,
            r.type_def.vis == old(self).type_def.vis,
            r.type_def.doc == old(self).type_def.doc,
            r.type_def.derives == old(self).type_def.derives,
            r.type_def.lints == old(self).type_def.lints,
            r.type_def.attributes == old(self).type_def.attributes,
            r.type_def.repr == old(self).type_def.repr,
            r.type_def.bounds == old(self).type_def.bounds,
            r.type_def.macros == old(self).type_def.macros,
            r.ty == old(self).ty,
            *final(self) == *final(r),
    {
        self.type_def.ty.generics = generics;
        self
    }

    /// Sets the generics.
    pub fn with_generics(self, generics: Vec<GenericParameter>) -> (r: TypeAlias)
        ensures
            r.type_def.ty.generics == generics,
            r.type_def.ty.name == self.type_def.ty.name,
            r.type_def.vis == self.type_def.vis,
            r.type_def.doc == self.type_def.doc,
            r.type_def.derives == self.type_def.derives,
            r.type_def.lints == self.type_def.lints,
            r.type_def.attributes == self.type_def.attributes,
            r.type_def.repr == self.type_def.repr,
            r.type_def.bounds == self.type_def.bounds,
            r.type_def.macros == self.type_def.macros,
            r.ty == self.ty,
    {
        let mut s = self;
        s.type_def.ty.generics = generics;
        s
    }

    /// Gets the generics mutably.
    pub fn generics_mut(&mut self) -> (r: &mut Vec<GenericParameter>)
        ensures
            *r == old(self).type_def.ty.generics,
            final(self).type_def.ty.generics == *final(r),
            final(self).type_def.ty.name == old(self).type_def.ty.name,
            final(self).type_def.vis == old(self).type_def.vis,
            final(self).type_def.doc == old(self).type_def.doc,
            final(self).type_def.derives == old(self).type_def.derives,
            final(self).type_def.lints == old(self).type_def.lints,
            final(self).type_def.attributes == old(self).type_def.attributes,
            final(self).type_def.repr == old(self).type_def.repr,
            final(self).type_def.bounds == old(self).type_def.bounds,
            final(self).type_def.macros == old(self).type_def.macros,
            final(self).ty == old(self).ty,
    {
        &mut self.type_def.ty.generics
    }

    /// Pushes one entry onto the generic list.
    pub fn push_generic(&mut self, generic: GenericParameter) -> (r: &mut TypeAlias)
        ensures
            r.type_def.ty.generics@ == old(self).type_def.ty.generics@.push(generic),
            r.type_def.ty.name == old(self).type_def.ty.name,
            r.type_def.vis == old(self).type_def.vis,
            r.type_def.doc == old(self).type_def.doc,
            r.type_def.derives == old(self).type_def.derives,
            r.type_def.lints == old(self).type_def.lints,
            r.type_def.attributes == old(self).type_def.attributes,
            r.type_def.repr == old(self).type_def.repr,
            r.type_def.bounds == old(self).type_def.bounds,
            r.type_def.macros == old(self).type_def.macros,
            r.ty == old(self).ty,
            *final(self) == *final(r),
    {
        self.type_def.ty.generics.push(generic);
        self
    }

    /// Pushes one entry onto the generic list.
    pub fn with_generic(self, generic: GenericParameter) -> (r: TypeAlias)
        ensures
            r.type_def.ty.generics@ == self.type_def.ty.generics@.push(generic),
            r.type_def.ty.name == self.type_def.ty.name,
            r.type_def.vis == self.type_def.vis,
            r.type_def.doc == self.type_def.doc,
            r.type_def.derives == self.type_def.derives,
            r.type_def.lints == self.type_def.lints,
            r.type_def.attributes == self.type_def.attributes,
            r.type_def.repr == self.type_def.repr,
            r.type_def.bounds == self.type_def.bounds,
            r.type_def.macros == self.type_def.macros,
            r.ty == self.ty,
    {
        let mut s = self;
        s.type_def.ty.generics.push(generic);
        s
    }

    /// Gets the bounds.
    pub fn bounds(&self) -> (r: &Vec<Bound>)
        ensures
            *r == self.type_def.bounds,
    {
        &self.type_def.bounds
    }

    /// Sets the bounds.
    pub fn set_bounds(&mut self, bounds: Vec<Bound>) -> (r: &mut TypeAlias)
        ensures
            r.type_def.bounds == bounds,
            r.type_def.ty.name == old(self).type_def.ty.name,
            r.type_def.ty.generics == old(self).type_def.ty.generics,
            r.type_def.vis == old(self).type_def.vis,
            r.type_def.doc == old(self).type_def.doc,
            r.type_def.derives == old(self).type_def.derives,
            r.type_def.lints == old(self).type_def.lints,
            r.type_def.attributes == old(self).type_def.attributes,
            r.type_def.repr == old(self).type_def.repr,
            r.type_def.macros == old(self).type_def.macros,
            r.ty == old(self).ty,
            *final(self) == *final(r),
    {
        self.type_def.bounds = bounds;
        self
    }

    /// Sets the bounds.
    pub fn with_bounds(self, bounds: Vec<Bound>) -> (r: TypeAlias)
        ensures
            r.type_def.bounds == bounds,
            r.type_def.ty.name == self.type_def.ty.name,
            r.type_def.ty.generics == self.type_def.ty.generics,
            r.type_def.vis == self.type_def.vis,
            r.type_def.doc == self.type_def.doc,
            r.type_def.derives == self.type_def.derives,
            r.type_def.lints == self.type_def.lints,
            r.type_def.attributes == self.type_def.attributes,
            r.type_def.repr == self.type_def.repr,
            r.type_def.macros == self.type_def.macros,
            r.ty == self.ty,
    {
        let mut s = self;
        s.type_def.bounds = bounds;
        s
    }

    /// Gets the bounds mutably.
    pub fn bounds_mut(&mut self) -> (r: &mut Vec<Bound>)
        ensures
            *r == old(self).type_def.bounds,
            final(self).type_def.bounds == *final(r),
            final(self).type_def.ty.name == old(self).type_def.ty.name,
            final(self).type_def.ty.generics == old(self).type_def.ty.generics,
            final(self).type_def.vis == old(self).type_def.vis,
            final(self).type_def.doc == old(self).type_def.doc,
            final(self).type_def.derives == old(self).type_def.derives,
            final(self).type_def.lints == old(self).type_def.lints,
            final(self).type_def.attributes == old(self).type_def.attributes,
            final(self).type_def.repr == old(self).type_def.repr,
            final(self).type_def.macros == old(self).type_def.macros,
            final(self).ty == old(self).ty,
    {
        &mut self.type_def.bounds
    }

    /// Pushes one entry onto the bound list.
    pub fn push_bound(&mut self, bound: Bound) -> (r: &mut TypeAlias)
        ensures
            r.type_def.bounds@ == old(self).type_def.bounds@.push(bound),
            r.type_def.ty.name == old(self).type_def.ty.name,
            r.type_def.ty.generics == old(self).type_def.ty.generics,
            r.type_def.vis == old(self).type_def.vis,
            r.type_def.doc == old(self).type_def.doc,
            r.type_def.derives == old(self).type_def.derives,
            r.type_def.lints == old(self).type_def.lints,
            r.type_def.attributes == old(self).type_def.attributes,
            r.type_def.repr == old(self).type_def.repr,
            r.type_def.macros == old(self).type_def.macros,
            r.ty == old(self).ty,
            *final(self) == *final(r),
    {
        self.type_def.bounds.push(bound);
        self
    }

    /// Pushes one entry onto the bound list.
    pub fn with_bound(self, bound: Bound) -> (r: TypeAlias)
        ensures
            r.type_def.bounds@ == self.type_def.bounds@.push(bound),
            r.type_def.ty.name == self.type_def.ty.name,
            r.type_def.ty.generics == self.type_def.ty.generics,
            r.type_def.vis == self.type_def.vis,
            r.type_def.doc == self.type_def.doc,
            r.type_def.derives == self.type_def.derives,
            r.type_def.lints == self.type_def.lints,
            r.type_def.attributes == self.type_def.attributes,
            r.type_def.repr == self.type_def.repr,
            r.type_def.macros == self.type_def.macros,
            r.ty == self.ty,
    {
        let mut s = self;
        s.type_def.bounds.push(bound);
        s
    }

    /// Gets the doc.
    pub fn doc(&self) -> (r: Option<&Doc>)
        ensures
            self.type_def.doc is Some <==> r is Some,
            r matches Some(d) ==> (self.type_def.doc matches Some(sd) && *d == sd),
    {
        self.type_def.doc.as_ref()
    }

    /// Sets the doc.
    pub fn set_doc(&mut self, doc: &str) -> (r: &mut TypeAlias)
        ensures
            r.type_def.doc matches Some(d) && d.0@ == doc@,
            r.type_def.ty.name == old(self).type_def.ty.name,
            r.type_def.ty.generics == old(self).type_def.ty.generics,
            r.type_def.vis == old(self).type_def.vis,
            r.type_def.derives == old(self).type_def.derives,
            r.type_def.lints == old(self).type_def.lints,
            r.type_def.attributes == old(self).type_def.attributes,
            r.type_def.repr == old(self).type_def.repr,
            r.type_def.bounds == old(self).type_def.bounds,
            r.type_def.macros == old(self).type_def.macros,
            r.ty == old(self).ty,
            *final(self) == *final(r),
    {
        self.type_def.doc = Some(Doc::new(doc));
        self
    }

    /// Sets the doc.
    pub fn with_doc(self, doc: &str) -> (r: TypeAlias)
        ensures
            r.type_def.doc matches Some(d) && d.0@ == doc@,
            r.type_def.ty.name == self.type_def.ty.name,
            r.type_def.ty.generics == self.type_def.ty.generics,
            r.type_def.vis == self.type_def.vis,
            r.type_def.derives == self.type_def.derives,
            r.type_def.lints == self.type_def.lints,
            r.type_def.attributes == self.type_def.attributes,
            r.type_def.repr == self.type_def.repr,
            r.type_def.bounds == self.type_def.bounds,
            r.type_def.macros == self.type_def.macros,
            r.ty == self.ty,
    {
        let mut s = self;
        s.type_def.doc = Some(Doc::new(doc));
        s
    }

    /// Gets the derives.
    pub fn derives(&self) -> (r: &Vec<String>)
        ensures
            *r == self.type_def.derives,
    {
        &self.type_def.derives
    }

    /// Sets the derives.
    pub fn set_derives(&mut self, derives: Vec<String>) -> (r: &mut TypeAlias)
        ensures
            r.type_def.derives == derives,
            r.type_def.ty.name == old(self).type_def.ty.name,
            r.type_def.ty.generics == old(self).type_def.ty.generics,
            r.type_def.vis == old(self).type_def.vis,
            r.type_def.doc == old(self).type_def.doc,
            r.type_def.lints == old(self).type_def.lints,
            r.type_def.attributes == old(self).type_def.attributes,
            r.type_def.repr == old(self).type_def.repr,
            r.type_def.bounds == old(self).type_def.bounds,
            r.type_def.macros == old(self).type_def.macros,
            r.ty == old(self).ty,
            *final(self) == *final(r),
    {
        self.type_def.derives = derives;
        self
    }

    /// Sets the derives.
    pub fn with_derives(self, derives: Vec<String>) -> (r: TypeAlias)
        ensures
            r.type_def.derives == derives,
            r.type_def.ty.name == self.type_def.ty.name,
            r.type_def.ty.generics == self.type_def.ty.generics,
            r.type_def.vis == self.type_def.vis,
            r.type_def.doc == self.type_def.doc,
            r.type_def.lints == self.type_def.lints,
            r.type_def.attributes == self.type_def.attributes,
            r.type_def.repr == self.type_def.repr,
            r.type_def.bounds == self.type_def.bounds,
            r.type_def.macros == self.type_def.macros,
            r.ty == self.ty,
    {
        let mut s = self;
        s.type_def.derives = derives;
        s
    }

    /// Gets the derives mutably.
    pub fn derives_mut(&mut self) -> (r: &mut Vec<String>)
        ensures
            *r == old(self).type_def.derives,
            final(self).type_def.derives == *final(r),
            final(self).type_def.ty.name == old(self).type_def.ty.name,
            final(self).type_def.ty.generics == old(self).type_def.ty.generics,
            final(self).type_def.vis == old(self).type_def.vis,
            final(self).type_def.doc == old(self).type_def.doc,
            final(self).type_def.lints == old(self).type_def.lints,
            final(self).type_def.attributes == old(self).type_def.attributes,
            final(self).type_def.repr == old(self).type_def.repr,
            final(self).type_def.bounds == old(self).type_def.bounds,
            final(self).type_def.macros == old(self).type_def.macros,
            final(self).ty == old(self).ty,
    {
        &mut self.type_def.derives
    }

    /// Pushes one entry onto the derive list.
    pub fn push_derive(&mut self, derive: &str) -> (r: &mut TypeAlias)
        ensures
            r.type_def.derives.deep_view() == old(self).type_def.derives.deep_view().push(derive@),
            r.type_def.ty.name == old(self).type_def.ty.name,
            r.type_def.ty.generics == old(self).type_def.ty.generics,
            r.type_def.vis == old(self).type_def.vis,
            r.type_def.doc == old(self).type_def.doc,
            r.type_def.lints == old(self).type_def.lints,
            r.type_def.attributes == old(self).type_def.attributes,
            r.type_def.repr == old(self).type_def.repr,
            r.type_def.bounds == old(self).type_def.bounds,
            r.type_def.macros == old(self).type_def.macros,
            r.ty == old(self).ty,
            *final(self) == *final(r),
    {
        self.type_def.derives.push(derive.to_owned());
        proof {
            assert(self.type_def.derives.deep_view() =~= old(self).type_def.derives.deep_view().push(derive@));
        }
        self
    }

    /// Pushes one entry onto the derive list.
    pub fn with_derive(self, derive: &str) -> (r: TypeAlias)
        ensures
            r.type_def.derives.deep_view() == self.type_def.derives.deep_view().push(derive@),
            r.type_def.ty.name == self.type_def.ty.name,
            r.type_def.ty.generics == self.type_def.ty.generics,
            r.type_def.vis == self.type_def.vis,
            r.type_def.doc == self.type_def.doc,
            r.type_def.lints == self.type_def.lints,
            r.type_def.attributes == self.type_def.attributes,
            r.type_def.repr == self.type_def.repr,
            r.type_def.bounds == self.type_def.bounds,
            r.type_def.macros == self.type_def.macros,
            r.ty == self.ty,
    {
        let mut s = self;
        s.type_def.derives.push(derive.to_owned());
        proof {
            assert(s.type_def.derives.deep_view() =~= self.type_def.derives.deep_view().push(derive@));
        }
        s
    }

    /// Gets the attributes.
    pub fn attributes(&self) -> (r: &Vec<String>)
        ensures
            *r == self.type_def.attributes,
    {
        &self.type_def.attributes
    }

    /// Sets the attributes.
    pub fn set_attributes(&mut self, attributes: Vec<String>) -> (r: &mut TypeAlias)
        ensures
            r.type_def.attributes == attributes,
            r.type_def.ty.name == old(self).type_def.ty.name,
            r.type_def.ty.generics == old(self).type_def.ty.generics,
            r.type_def.vis == old(self).type_def.vis,
            r.type_def.doc == old(self).type_def.doc,
            r.type_def.derives == old(self).type_def.derives,
            r.type_def.lints == old(self).type_def.lints,
            r.type_def.repr == old(self).type_def.repr,
            r.type_def.bounds == old(self).type_def.bounds,
            r.type_def.macros == old(self).type_def.macros,
            r.ty == old(self).ty,
            *final(self) == *final(r),
    {
        self.type_def.attributes = attributes;
        self
    }

    /// Sets the attributes.
    pub fn with_attributes(self, attributes: Vec<String>) -> (r: TypeAlias)
        ensures
            r.type_def.attributes == attributes,
            r.type_def.ty.name == self.type_def.ty.name,
            r.type_def.ty.generics == self.type_def.ty.generics,
            r.type_def.vis == self.type_def.vis,
            r.type_def.doc == self.type_def.doc,
            r.type_def.derives == self.type_def.derives,
            r.type_def.lints == self.type_def.lints,
            r.type_def.repr == self.type_def.repr,
            r.type_def.bounds == self.type_def.bounds,
            r.type_def.macros == self.type_def.macros,
            r.ty == self.ty,
    {
        let mut s = self;
        s.type_def.attributes = attributes;
        s
    }

    /// Gets the attributes mutably.
    pub fn attributes_mut(&mut self) -> (r: &mut Vec<String>)
        ensures
            *r == old(self).type_def.attributes,
            final(self).type_def.attributes == *final(r),
            final(self).type_def.ty.name == old(self).type_def.ty.name,
            final(self).type_def.ty.generics == old(self).type_def.ty.generics,
            final(self).type_def.vis == old(self).type_def.vis,
            final(self).type_def.doc == old(self).type_def.doc,
            final(self).type_def.derives == old(self).type_def.derives,
            final(self).type_def.lints == old(self).type_def.lints,
            final(self).type_def.repr == old(self).type_def.repr,
            final(self).type_def.bounds == old(self).type_def.bounds,
            final(self).type_def.macros == old(self).type_def.macros,
            final(self).ty == old(self).ty,
    {
        &mut self.type_def.attributes
    }

    /// Pushes one entry onto the attribute list.
    pub fn push_attribute(&mut self, attribute: &str) -> (r: &mut TypeAlias)
        ensures
            r.type_def.attributes.deep_view() == old(self).type_def.attributes.deep_view().push(attribute@),
            r.type_def.ty.name == old(self).type_def.ty.name,
            r.type_def.ty.generics == old(self).type_def.ty.generics,
            r.type_def.vis == old(self).type_def.vis,
            r.type_def.doc == old(self).type_def.doc,
            r.type_def.derives == old(self).type_def.derives,
            r.type_def.lints == old(self).type_def.lints,
            r.type_def.repr == old(self).type_def.repr,
            r.type_def.bounds == old(self).type_def.bounds,
            r.type_def.macros == old(self).type_def.macros,
            r.ty == old(self).ty,
            *final(self) == *final(r),
    {
        self.type_def.attributes.push(attribute.to_owned());
        proof {
            assert(self.type_def.attributes.deep_view() =~= old(self).type_def.attributes.deep_view().push(attribute@));
        }
        self
    }

    /// Pushes one entry onto the attribute list.
    pub fn with_attribute(self, attribute: &str) -> (r: TypeAlias)
        ensures
            r.type_def.attributes.deep_view() == self.type_def.attributes.deep_view().push(attribute@),
            r.type_def.ty.name == self.type_def.ty.name,
            r.type_def.ty.generics == self.type_def.ty.generics,
            r.type_def.vis == self.type_def.vis,
            r.type_def.doc == self.type_def.doc,
            r.type_def.derives == self.type_def.derives,
            r.type_def.lints == self.type_def.lints,
            r.type_def.repr == self.type_def.repr,
            r.type_def.bounds == self.type_def.bounds,
            r.type_def.macros == self.type_def.macros,
            r.ty == self.ty,
    {
        let mut s = self;
        s.type_def.attributes.push(attribute.to_owned());
        proof {
            assert(s.type_def.attributes.deep_view() =~= self.type_def.attributes.deep_view().push(attribute@));
        }
        s
    }

    /// Gets the lints.
    pub fn lints(&self) -> (r: &Vec<Lint>)
        ensures
            *r == self.type_def.lints,
    {
        &self.type_def.lints
    }

    /// Sets the lints.
    pub fn set_lints(&mut self, lints: Vec<Lint>) -> (r: &mut TypeAlias)
        ensures
            r.type_def.lints == lints,
            r.type_def.ty.name == old(self).type_def.ty.name,
            r.type_def.ty.generics == old(self).type_def.ty.generics,
            r.type_def.vis == old(self).type_def.vis,
            r.type_def.doc == old(self).type_def.doc,
            r.type_def.derives == old(self).type_def.derives,
            r.type_def.attributes == old(self).type_def.attributes,
            r.type_def.repr == old(self).type_def.repr,
            r.type_def.bounds == old(self).type_def.bounds,
            r.type_def.macros == old(self).type_def.macros,
            r.ty == old(self).ty,
            *final(self) == *final(r),
    {
        self.type_def.lints = lints;
        self
    }

    /// Sets the lints.
    pub fn with_lints(self, lints: Vec<Lint>) -> (r: TypeAlias)
        ensures
            r.type_def.lints == lints,
            r.type_def.ty.name == self.type_def.ty.name,
            r.type_def.ty.generics == self.type_def.ty.generics,
            r.type_def.vis == self.type_def.vis,
            r.type_def.doc == self.type_def.doc,
            r.type_def.derives == self.type_def.derives,
            r.type_def.attributes == self.type_def.attributes,
            r.type_def.repr == self.type_def.repr,
            r.type_def.bounds == self.type_def.bounds,
            r.type_def.macros == self.type_def.macros,
            r.ty == self.ty,
    {
        let mut s = self;
        s.type_def.lints = lints;
        s
    }

    /// Gets the lints mutably.
    pub fn lints_mut(&mut self) -> (r: &mut Vec<Lint>)
        ensures
            *r == old(self).type_def.lints,
            final(self).type_def.lints == *final(r),
            final(self).type_def.ty.name == old(self).type_def.ty.name,
            final(self).type_def.ty.generics == old(self).type_def.ty.generics,
            final(self).type_def.vis == old(self).type_def.vis,
            final(self).type_def.doc == old(self).type_def.doc,
            final(self).type_def.derives == old(self).type_def.derives,
            final(self).type_def.attributes == old(self).type_def.attributes,
            final(self).type_def.repr == old(self).type_def.repr,
            final(self).type_def.bounds == old(self).type_def.bounds,
            final(self).type_def.macros == old(self).type_def.macros,
            final(self).ty == old(self).ty,
    {
        &mut self.type_def.lints
    }

    /// Pushes one entry onto the lint list.
    pub fn push_lint(&mut self, lint: Lint) -> (r: &mut TypeAlias)
        ensures
            r.type_def.lints@ == old(self).type_def.lints@.push(lint),
            r.type_def.ty.name == old(self).type_def.ty.name,
            r.type_def.ty.generics == old(self).type_def.ty.generics,
            r.type_def.vis == old(self).type_def.vis,
            r.type_def.doc == old(self).type_def.doc,
            r.type_def.derives == old(self).type_def.derives,
            r.type_def.attributes == old(self).type_def.attributes,
            r.type_def.repr == old(self).type_def.repr,
            r.type_def.bounds == old(self).type_def.bounds,
            r.type_def.macros == old(self).type_def.macros,
            r.ty == old(self).ty,
            *final(self) == *final(r),
    {
        self.type_def.lints.push(lint);
        self
    }

    /// Pushes one entry onto the lint list.
    pub fn with_lint(self, lint: Lint) -> (r: TypeAlias)
        ensures
            r.type_def.lints@ == self.type_def.lints@.push(lint),
            r.type_def.ty.name == self.type_def.ty.name,
            r.type_def.ty.generics == self.type_def.ty.generics,
            r.type_def.vis == self.type_def.vis,
            r.type_def.doc == self.type_def.doc,
            r.type_def.derives == self.type_def.derives,
            r.type_def.attributes == self.type_def.attributes,
            r.type_def.repr == self.type_def.repr,
            r.type_def.bounds == self.type_def.bounds,
            r.type_def.macros == self.type_def.macros,
            r.ty == self.ty,
    {
        let mut s = self;
        s.type_def.lints.push(lint);
        s
    }

    /// Gets the repr.
    pub fn repr(&self) -> (r: Option<&String>)
        ensures
            self.type_def.repr is Some <==> r is Some,
            r matches Some(v) ==> (self.type_def.repr matches Some(sv) && *v == sv),
    {
        self.type_def.repr.as_ref()
    }

    /// Sets the repr.
    pub fn set_repr(&mut self, repr: Option<String>) -> (r: &mut TypeAlias)
        ensures
            r.type_def.repr == repr,
            r.type_def.ty.name == old(self).type_def.ty.name,
            r.type_def.ty.generics == old(self).type_def.ty.generics,
            r.type_def.vis == old(self).type_def.vis,
            r.type_def.doc == old(self).type_def.doc,
            r.type_def.derives == old(self).type_def.derives,
            r.type_def.lints == old(self).type_def.lints,
            r.type_def.attributes == old(self).type_def.attributes,
            r.type_def.bounds == old(self).type_def.bounds,
            r.type_def.macros == old(self).type_def.macros,
            r.ty == old(self).ty,
            *final(self) == *final(r),
    {
        self.type_def.repr = repr;
        self
    }

    /// Sets the repr.
    pub fn with_repr(self, repr: Option<String>) -> (r: TypeAlias)
        ensures
            r.type_def.repr == repr,
            r.type_def.ty.name == self.type_def.ty.name,
            r.type_def.ty.generics == self.type_def.ty.generics,
            r.type_def.vis == self.type_def.vis,
            r.type_def.doc == self.type_def.doc,
            r.type_def.derives == self.type_def.derives,
            r.type_def.lints == self.type_def.lints,
            r.type_def.attributes == self.type_def.attributes,
            r.type_def.bounds == self.type_def.bounds,
            r.type_def.macros == self.type_def.macros,
            r.ty == self.ty,
    {
        let mut s = self;
        s.type_def.repr = repr;
        s
    }

    /// Gets the macros.
    pub fn macros(&self) -> (r: &Vec<String>)
        ensures
            *r == self.type_def.macros,
    {
        &self.type_def.macros
    }

    /// Sets the macros.
    pub fn set_macros(&mut self, macros: Vec<String>) -> (r: &mut TypeAlias)
        ensures
            r.type_def.macros == macros,
            r.type_def.ty.name == old(self).type_def.ty.name,
            r.type_def.ty.generics == old(self).type_def.ty.generics,
            r.type_def.vis == old(self).type_def.vis,
            r.type_def.doc == old(self).type_def.doc,
            r.type_def.derives == old(self).type_def.derives,
            r.type_def.lints == old(self).type_def.lints,
            r.type_def.attributes == old(self).type_def.attributes,
            r.type_def.repr == old(self).type_def.repr,
            r.type_def.bounds == old(self).type_def.bounds,
            r.ty == old(self).ty,
            *final(self) == *final(r),
    {
        self.type_def.macros = macros;
        self
    }

    /// Sets the macros.
    pub fn with_macros(self, macros: Vec<String>) -> (r: TypeAlias)
        ensures
            r.type_def.macros == macros,
            r.type_def.ty.name == self.type_def.ty.name,
            r.type_def.ty.generics == self.type_def.ty.generics,
            r.type_def.vis == self.type_def.vis,
            r.type_def.doc == self.type_def.doc,
            r.type_def.derives == self.type_def.derives,
            r.type_def.lints == self.type_def.lints,
            r.type_def.attributes == self.type_def.attributes,
            r.type_def.repr == self.type_def.repr,
            r.type_def.bounds == self.type_def.bounds,
            r.ty == self.ty,
    {
        let mut s = self;
        s.type_def.macros = macros;
        s
    }

    /// Gets the macros mutably.
    pub fn macros_mut(&mut self) -> (r: &mut Vec<String>)
        ensures
            *r == old(self).type_def.macros,
            final(self).type_def.macros == *final(r),
            final(self).type_def.ty.name == old(self).type_def.ty.name,
            final(self).type_def.ty.generics == old(self).type_def.ty.generics,
            final(self).type_def.vis == old(self).type_def.vis,
            final(self).type_def.doc == old(self).type_def.doc,
            final(self).type_def.derives == old(self).type_def.derives,
            final(self).type_def.lints == old(self).type_def.lints,
            final(self).type_def.attributes == old(self).type_def.attributes,
            final(self).type_def.repr == old(self).type_def.repr,
            final(self).type_def.bounds == old(self).type_def.bounds,
            final(self).ty == old(self).ty,
    {
        &mut self.type_def.macros
    }

    /// Pushes one entry onto the macro line list.
    pub fn push_macro(&mut self, macro_line: &str) -> (r: &mut TypeAlias)
        ensures
            r.type_def.macros.deep_view() == old(self).type_def.macros.deep_view().push(macro_line@),
            r.type_def.ty.name == old(self).type_def.ty.name,
            r.type_def.ty.generics == old(self).type_def.ty.generics,
            r.type_def.vis == old(self).type_def.vis,
            r.type_def.doc == old(self).type_def.doc,
            r.type_def.derives == old(self).type_def.derives,
            r.type_def.lints == old(self).type_def.lints,
            r.type_def.attributes == old(self).type_def.attributes,
            r.type_def.repr == old(self).type_def.repr,
            r.type_def.bounds == old(self).type_def.bounds,
            r.ty == old(self).ty,
            *final(self) == *final(r),
    {
        self.type_def.macros.push(macro_line.to_owned());
        proof {
            assert(self.type_def.macros.deep_view() =~= old(self).type_def.macros.deep_view().push(macro_line@));
        }
        self
    }

    /// Pushes one entry onto the macro line list.
    pub fn with_macro(self, macro_line: &str) -> (r: TypeAlias)
        ensures
            r.type_def.macros.deep_view() == self.type_def.macros.deep_view().push(macro_line@),
            r.type_def.ty.name == self.type_def.ty.name,
            r.type_def.ty.generics == self.type_def.ty.generics,
            r.type_def.vis == self.type_def.vis,
            r.type_def.doc == self.type_def.doc,
            r.type_def.derives == self.type_def.derives,
            r.type_def.lints == self.type_def.lints,
            r.type_def.attributes == self.type_def.attributes,
            r.type_def.repr == self.type_def.repr,
            r.type_def.bounds == self.type_def.bounds,
            r.ty == self.ty,
    {
        let mut s = self;
        s.type_def.macros.push(macro_line.to_owned());
        proof {
            assert(s.type_def.macros.deep_view() =~= self.type_def.macros.deep_view().push(macro_line@));
        }
        s
    }

    /// Gets the ty.
    pub fn ty(&self) -> (r: &Type)
        ensures
            *r == self.ty,
    {
        &self.ty
    }

    /// Sets the ty.
    pub fn set_ty(&mut self, ty: Type) -> (r: &mut TypeAlias)
        ensures
            r.ty == ty,
            r.type_def.ty.name == old(self).type_def.ty.name,
            r.type_def.ty.generics == old(self).type_def.ty.generics,
            r.type_def.vis == old(self).type_def.vis,
            r.type_def.doc == old(self).type_def.doc,
            r.type_def.derives == old(self).type_def.derives,
            r.type_def.lints == old(self).type_def.lints,
            r.type_def.attributes == old(self).type_def.attributes,
            r.type_def.repr == old(self).type_def.repr,
            r.type_def.bounds == old(self).type_def.bounds,
            r.type_def.macros == old(self).type_def.macros,
            *final(self) == *final(r),
    {
        self.ty = ty;
        self
    }

    /// Sets the ty.
    pub fn with_ty(self, ty: Type) -> (r: TypeAlias)
        ensures
            r.ty == ty,
            r.type_def.ty.name == self.type_def.ty.name,
            r.type_def.ty.generics == self.type_def.ty.generics,
            r.type_def.vis == self.type_def.vis,
            r.type_def.doc == self.type_def.doc,
            r.type_def.derives == self.type_def.derives,
            r.type_def.lints == self.type_def.lints,
            r.type_def.attributes == self.type_def.attributes,
            r.type_def.repr == self.type_def.repr,
            r.type_def.bounds == self.type_def.bounds,
            r.type_def.macros == self.type_def.macros,
    {
        let mut s = self;
        s.ty = ty;
        s
    }

    /// Gets the ty mutably.
    pub fn ty_mut(&mut self) -> (r: &mut Type)
        ensures
            *r == old(self).ty,
            final(self).ty == *final(r),
            final(self).type_def.ty.name == old(self).type_def.ty.name,
            final(self).type_def.ty.generics == old(self).type_def.ty.generics,
            final(self).type_def.vis == old(self).type_def.vis,
            final(self).type_def.doc == old(self).type_def.doc,
            final(self).type_def.derives == old(self).type_def.derives,
            final(self).type_def.lints == old(self).type_def.lints,
            final(self).type_def.attributes == old(self).type_def.attributes,
            final(self).type_def.repr == old(self).type_def.repr,
            final(self).type_def.bounds == old(self).type_def.bounds,
            final(self).type_def.macros == old(self).type_def.macros,
    {
        &mut self.ty
    }


    /// Gets the doc mutably, when one is set.
    pub fn doc_mut(&mut self) -> (r: Option<&mut Doc>)
        ensures
            old(self).type_def.doc is None ==> (r is None && final(self).type_def.doc is None),
            old(self).type_def.doc is Some ==> (r is Some && *r.unwrap() == old(self).type_def.doc.unwrap()
                && final(self).type_def.doc == Some(*final(r.unwrap()))),
            final(self).type_def.ty == old(self).type_def.ty,
            final(self).type_def.vis == old(self).type_def.vis,
            final(self).type_def.derives == old(self).type_def.derives,
            final(self).type_def.lints == old(self).type_def.lints,
            final(self).type_def.attributes == old(self).type_def.attributes,
            final(self).type_def.bounds == old(self).type_def.bounds,
            final(self).type_def.macros == old(self).type_def.macros,
            final(self).type_def.repr == old(self).type_def.repr,
            final(self).ty == old(self).ty,
    {
        self.type_def.doc.as_mut()
    }
}

} // verus!
