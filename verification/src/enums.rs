use vstd::prelude::*;

use crate::bound::Bound;
use crate::doc::Doc;
use crate::fields::fields_ok;
use crate::formatter::{
    at_start, block_region_text, ends_line, ind, lemma_block_region, lemma_ind_concat,
    lemma_ind_ends, lemma_ind_one, open_text, Formatter,
};
use crate::generic_parameter::GenericParameter;
use crate::lint::Lint;
use crate::ty::Type;
use crate::type_def::{head_text, TypeDef};
use crate::variant::{variant_text, Variant};
use crate::visibility::Vis;

verus! {

/// An enum declaration: the shared head plus its variants.
pub struct Enum {
    /// The declaration head.
    pub type_def: TypeDef,
    /// The enum's variants.
    pub variants: Vec<Variant>,
}

/// The first `i` variants, rendered in order.
pub open spec fn variants_body_text(vs: Seq<Variant>, i: int) -> Seq<char>
    decreases i,
{
    if 0 < i <= vs.len() {
        variants_body_text(vs, i - 1) + variant_text(vs[i - 1])
    } else {
        Seq::empty()
    }
}

/// The rendered enum declaration.
pub open spec fn enum_text(e: Enum) -> Seq<char> {
    head_text(e.type_def, "enum"@, Seq::empty()) + block_region_text(
        ends_line(head_text(e.type_def, "enum"@, Seq::empty()), true),
        variants_body_text(e.variants@, e.variants@.len() as int),
    )
}

/// A renderable enum: every variant's field list is renderable.
pub open spec fn enum_ok(e: Enum) -> bool {
    forall|i: int| 0 <= i < e.variants@.len() ==> fields_ok(#[trigger] e.variants@[i].fields)
}

/// A rendered variant body is empty or ends in a newline.
pub proof fn lemma_variants_body_ends(vs: Seq<Variant>, i: int)
    ensures
        ends_line(variants_body_text(vs, i), true),
    decreases i,
{
    if 0 < i <= vs.len() {
        lemma_variants_body_ends(vs, i - 1);
        reveal_strlit(",\n");
        assert(",\n"@.len() == 2);
        assert(",\n"@.last() == '\n');
        let vt = variant_text(vs[i - 1]);
        assert(vt.last() == '\n');
        assert((variants_body_text(vs, i - 1) + vt).last() == '\n');
    }
}

impl Enum {
    /// Creates an enum with the given name.
    pub fn new(name: &str) -> (r: Enum)
        ensures
            r.type_def.ty.name@ == name@,
            r.type_def.ty.generics@.len() == 0,
            r.type_def.vis is Private,
            r.type_def.doc is None,
            r.type_def.derives@.len() == 0,
            r.type_def.lints@.len() == 0,
            r.type_def.attributes@.len() == 0,
            r.type_def.repr is None,
            r.type_def.bounds@.len() == 0,
            r.type_def.macros@.len() == 0,
            r.variants@.len() == 0,
    {
        Enum { type_def: TypeDef::new(name), variants: Vec::new() }
    }

    /// Writes the enum declaration, starting at a line start.
    #[verifier::rlimit(60)]
    pub fn fmt(&self, fmt: &mut Formatter)
        requires
            old(fmt).wf(),
            at_start(old(fmt).text()),
            enum_ok(*self),
        ensures
            final(fmt).wf(),
            final(fmt).depth() == old(fmt).depth(),
            final(fmt).text() == old(fmt).text() + ind(enum_text(*self), true, old(fmt).depth()),
    {
        let ghost orig = fmt.text();
        let ghost n = fmt.depth();
        let ghost head = head_text(self.type_def, "enum"@, Seq::empty());
        let no_parents: Vec<Type> = Vec::new();
        self.type_def.fmt_head("enum", &no_parents, fmt);
        proof {
            assert(no_parents@ =~= Seq::<Type>::empty());
            if head.len() == 0 {
                assert(ind(head, true, n) =~= Seq::<char>::empty());
                assert(fmt.text() =~= orig);
                assert(at_start(fmt.text()) == ends_line(head, true));
            } else {
                lemma_ind_ends(head, true, n);
                assert(fmt.text().last() == ind(head, true, n).last());
                assert(at_start(fmt.text()) == ends_line(head, true));
            }
        }
        let ghost e = ends_line(head, true);
        let ghost vl = self.variants@;
        fmt.open_block();
        let ghost t_open = fmt.text();
        proof {
            lemma_ind_ends(open_text(e), e, n);
            assert(open_text(e).last() == '\n');
            assert(t_open.last() == ind(open_text(e), e, n).last());
            assert(variants_body_text(vl, 0) =~= Seq::<char>::empty());
            assert(t_open + Seq::<char>::empty() =~= t_open);
        }
        let mut i: usize = 0;
        while i < self.variants.len()
            invariant
                i <= vl.len(),
                vl == self.variants@,
                enum_ok(*self),
                fmt.wf(),
                fmt.depth() == n + 1,
                fmt.text() == t_open + ind(variants_body_text(vl, i as int), true, n + 1),
                at_start(t_open),
            decreases vl.len() - i,
        {
            proof {
                lemma_variants_body_ends(vl, i as int);
                let done = ind(variants_body_text(vl, i as int), true, n + 1);
                if variants_body_text(vl, i as int).len() == 0 {
                    assert(done =~= Seq::<char>::empty());
                    assert(fmt.text() =~= t_open);
                } else {
                    lemma_ind_ends(variants_body_text(vl, i as int), true, n + 1);
                    assert(fmt.text().last() == done.last());
                }
                assert(at_start(fmt.text()));
            }
            self.variants[i].fmt(fmt);
            proof {
                lemma_ind_concat(
                    variants_body_text(vl, i as int),
                    variant_text(vl[i as int]),
                    true,
                    n + 1,
                );
                assert(fmt.text() =~= t_open + ind(
                    variants_body_text(vl, i as int + 1),
                    true,
                    n + 1,
                ));
            }
            i = i + 1;
        }
        let ghost body_full = variants_body_text(vl, vl.len() as int);
        proof {
            lemma_variants_body_ends(vl, vl.len() as int);
            if body_full.len() == 0 {
                assert(ind(body_full, true, (n + 1) as nat) =~= Seq::<char>::empty());
                assert(fmt.text() =~= t_open);
            } else {
                lemma_ind_ends(body_full, true, n + 1);
                assert(fmt.text().last() == ind(body_full, true, (n + 1) as nat).last());
            }
            assert(at_start(fmt.text()));
        }
        fmt.close_block();
        proof {
            assert(ind(seq!['}'], true, n).last() == '}') by {
                lemma_ind_one('}', true, n);
            }
            assert(fmt.text().last() == '}');
            assert(!at_start(fmt.text()));
        }
        fmt.write_str("\n");
        proof {
            reveal_strlit("\n");
            lemma_ind_one('\n', false, n);
            assert("\n"@ =~= seq!['\n']);
            lemma_block_region(e, body_full, n);
            lemma_ind_concat(head, block_region_text(e, body_full), true, n);
            assert(enum_text(*self) =~= head + block_region_text(e, body_full));
            assert(fmt.text() =~= orig + ind(enum_text(*self), true, n));
        }
    }

    /// Gets the name.
    pub fn name(&self) -> (r: &str)
        ensures
            r@ == self.type_def.ty.name@,
    {
        self.type_def.ty.name.as_str()
    }

    /// Sets the name.
    pub fn set_name(&mut self, name: &str) -> (r: &mut Enum)
        ensures
            r.type_def.ty.name@ == name@,
            r.type_def.ty.generics == old(self).type_def.ty.generics,
            r.type_def.vis == old(self).type_def.vis,
            r.type_def.doc == old(self).type_def.doc,
            r.type_def.derives == old(self).type_def.derives,
            r.type_def.lints == old(self).type_def.lints,
            r.type_def.attributes == old(self).type_def.attributes,
            r.type_def.repr == old(self).type_def.repr,
            r.type_def.bounds == old(self).type_def.bounds,
            r.type_def.macros == old(self).type_def.macros,
            r.variants == old(self).variants,
            *final(self) == *final(r),
    {
        self.type_def.ty.name = name.to_owned();
        self
    }

    /// Sets the name.
    pub fn with_name(self, name: &str) -> (r: Enum)
        ensures
            r.type_def.ty.name@ == name@,
            r.type_def.ty.generics == self.type_def.ty.generics,
            r.type_def.vis == self.type_def.vis,
            r.type_def.doc == self.type_def.doc,
            r.type_def.derives == self.type_def.derives,
            r.type_def.lints == self.type_def.lints,
            r.type_def.attributes == self.type_def.attributes,
            r.type_def.repr == self.type_def.repr,
            r.type_def.bounds == self.type_def.bounds,
            r.type_def.macros == self.type_def.macros,
            r.variants == self.variants,
    {
        let mut s = self;
        s.type_def.ty.name = name.to_owned();
        s
    }

    /// Gets the name mutably.
    pub fn name_mut(&mut self) -> (r: &mut String)
        ensures
            *r == old(self).type_def.ty.name,
            final(self).type_def.ty.name == *final(r),
            final(self).type_def.ty.generics == old(self).type_def.ty.generics,
            final(self).type_def.vis == old(self).type_def.vis,
            final(self).type_def.doc == old(self).type_def.doc,
            final(self).type_def.derives == old(self).type_def.derives,
            final(self).type_def.lints == old(self).type_def.lints,
            final(self).type_def.attributes == old(self).type_def.attributes,
            final(self).type_def.repr == old(self).type_def.repr,
            final(self).type_def.bounds == old(self).type_def.bounds,
            final(self).type_def.macros == old(self).type_def.macros,
            final(self).variants == old(self).variants,
    {
        &mut self.type_def.ty.name
    }

    /// Gets the ty.
    pub fn ty(&self) -> (r: &Type)
        ensures
            *r == self.type_def.ty,
    {
        &self.type_def.ty
    }

    /// Sets the ty.
    pub fn set_ty(&mut self, ty: Type) -> (r: &mut Enum)
        ensures
            r.type_def.ty == ty,
            r.type_def.vis == old(self).type_def.vis,
            r.type_def.doc == old(self).type_def.doc,
            r.type_def.derives == old(self).type_def.derives,
            r.type_def.lints == old(self).type_def.lints,
            r.type_def.attributes == old(self).type_def.attributes,
            r.type_def.repr == old(self).type_def.repr,
            r.type_def.bounds == old(self).type_def.bounds,
            r.type_def.macros == old(self).type_def.macros,
            r.variants == old(self).variants,
            *final(self) == *final(r),
    {
        self.type_def.ty = ty;
        self
    }

    /// Sets the ty.
    pub fn with_ty(self, ty: Type) -> (r: Enum)
        ensures
            r.type_def.ty == ty,
            r.type_def.vis == self.type_def.vis,
            r.type_def.doc == self.type_def.doc,
            r.type_def.derives == self.type_def.derives,
            r.type_def.lints == self.type_def.lints,
            r.type_def.attributes == self.type_def.attributes,
            r.type_def.repr == self.type_def.repr,
            r.type_def.bounds == self.type_def.bounds,
            r.type_def.macros == self.type_def.macros,
            r.variants == self.variants,
    {
        let mut s = self;
        s.type_def.ty = ty;
        s
    }

    /// Gets the ty mutably.
    pub fn ty_mut(&mut self) -> (r: &mut Type)
        ensures
            *r == old(self).type_def.ty,
            final(self).type_def.ty == *final(r),
            final(self).type_def.vis == old(self).type_def.vis,
            final(self).type_def.doc == old(self).type_def.doc,
            final(self).type_def.derives == old(self).type_def.derives,
            final(self).type_def.lints == old(self).type_def.lints,
            final(self).type_def.attributes == old(self).type_def.attributes,
            final(self).type_def.repr == old(self).type_def.repr,
            final(self).type_def.bounds == old(self).type_def.bounds,
            final(self).type_def.macros == old(self).type_def.macros,
            final(self).variants == old(self).variants,
    {
        &mut self.type_def.ty
    }

    /// Gets the vis.
    pub fn vis(&self) -> (r: &Vis)
        ensures
            *r == self.type_def.vis,
    {
        &self.type_def.vis
    }

    /// Sets the vis.
    pub fn set_vis(&mut self, vis: Vis) -> (r: &mut Enum)
        ensures
            r.type_def.vis == vis,
            r.type_def.ty.name == old(self).type_def.ty.name,
            r.type_def.ty.generics == old(self).type_def.ty.generics,
            r.type_def.doc == old(self).type_def.doc,
            r.type_def.derives == old(self).type_def.derives,
            r.type_def.lints == old(self).type_def.lints,
            r.type_def.attributes == old(self).type_def.attributes,
            r.type_def.repr == old(self).type_def.repr,
            r.type_def.bounds == old(self).type_def.bounds,
            r.type_def.macros == old(self).type_def.macros,
            r.variants == old(self).variants,
            *final(self) == *final(r),
    {
        self.type_def.vis = vis;
        self
    }

    /// Sets the vis.
    pub fn with_vis(self, vis: Vis) -> (r: Enum)
        ensures
            r.type_def.vis == vis,
            r.type_def.ty.name == self.type_def.ty.name,
            r.type_def.ty.generics == self.type_def.ty.generics,
            r.type_def.doc == self.type_def.doc,
            r.type_def.derives == self.type_def.derives,
            r.type_def.lints == self.type_def.lints,
            r.type_def.attributes == self.type_def.attributes,
            r.type_def.repr == self.type_def.repr,
            r.type_def.bounds == self.type_def.bounds,
            r.type_def.macros == self.type_def.macros,
            r.variants == self.variants,
    {
        let mut s = self;
        s.type_def.vis = vis;
        s
    }

    /// Gets the vis mutably.
    pub fn vis_mut(&mut self) -> (r: &mut Vis)
        ensures
            *r == old(self).type_def.vis,
            final(self).type_def.vis == *final(r),
            final(self).type_def.ty.name == old(self).type_def.ty.name,
            final(self).type_def.ty.generics == old(self).type_def.ty.generics,
            final(self).type_def.doc == old(self).type_def.doc,
            final(self).type_def.derives == old(self).type_def.derives,
            final(self).type_def.lints == old(self).type_def.lints,
            final(self).type_def.attributes == old(self).type_def.attributes,
            final(self).type_def.repr == old(self).type_def.repr,
            final(self).type_def.bounds == old(self).type_def.bounds,
            final(self).type_def.macros == old(self).type_def.macros,
            final(self).variants == old(self).variants,
    {
        &mut self.type_def.vis
    }

    /// Gets the generics.
    pub fn generics(&self) -> (r: &Vec<GenericParameter>)
        ensures
            *r == self.type_def.ty.generics,
    {
        &self.type_def.ty.generics
    }

    /// Sets the generics.
    pub fn set_generics(&mut self, generics: Vec<GenericParameter>) -> (r: &mut Enum)
        ensures
            r.type_def.ty.generics == generics,
            r.type_def.ty.name == old(self).type_def.ty.name,
            r.type_def.vis == old(self).type_def.vis,
            r.type_def.doc == old(self).type_def.doc,
            r.type_def.derives == old(self).type_def.derives,
            r.type_def.lints == old(self).type_def.lints,
            r.type_def.attributes == old(self).type_def.attributes,
            r.type_def.repr == old(self).type_def.repr,
            r.type_def.bounds == old(self).type_def.bounds,
            r.type_def.macros == old(self).type_def.macros,
            r.variants == old(self).variants,
            *final(self) == *final(r),
    {
        self.type_def.ty.generics = generics;
        self
    }

    /// Sets the generics.
    pub fn with_generics(self, generics: Vec<GenericParameter>) -> (r: Enum)
        ensures
            r.type_def.ty.generics == generics,
            r.type_def.ty.name == self.type_def.ty.name,
            r.type_def.vis == self.type_def.vis,
            r.type_def.doc == self.type_def.doc,
            r.type_def.derives == self.type_def.derives,
            r.type_def.lints == self.type_def.lints,
            r.type_def.attributes == self.type_def.attributes,
            r.type_def.repr == self.type_def.repr,
            r.type_def.bounds == self.type_def.bounds,
            r.type_def.macros == self.type_def.macros,
            r.variants == self.variants,
    {
        let mut s = self;
        s.type_def.ty.generics = generics;
        s
    }

    /// Gets the generics mutably.
    pub fn generics_mut(&mut self) -> (r: &mut Vec<GenericParameter>)
        ensures
            *r == old(self).type_def.ty.generics,
            final(self).type_def.ty.generics == *final(r),
            final(self).type_def.ty.name == old(self).type_def.ty.name,
            final(self).type_def.vis == old(self).type_def.vis,
            final(self).type_def.doc == old(self).type_def.doc,
            final(self).type_def.derives == old(self).type_def.derives,
            final(self).type_def.lints == old(self).type_def.lints,
            final(self).type_def.attributes == old(self).type_def.attributes,
            final(self).type_def.repr == old(self).type_def.repr,
            final(self).type_def.bounds == old(self).type_def.bounds,
            final(self).type_def.macros == old(self).type_def.macros,
            final(self).variants == old(self).variants,
    {
        &mut self.type_def.ty.generics
    }

    /// Pushes one entry onto the generic list.
    pub fn push_generic(&mut self, generic: GenericParameter) -> (r: &mut Enum)
        ensures
            r.type_def.ty.generics@ == old(self).type_def.ty.generics@.push(generic),
            r.type_def.ty.name == old(self).type_def.ty.name,
            r.type_def.vis == old(self).type_def.vis,
            r.type_def.doc == old(self).type_def.doc,
            r.type_def.derives == old(self).type_def.derives,
            r.type_def.lints == old(self).type_def.lints,
            r.type_def.attributes == old(self).type_def.attributes,
            r.type_def.repr == old(self).type_def.repr,
            r.type_def.bounds == old(self).type_def.bounds,
            r.type_def.macros == old(self).type_def.macros,
            r.variants == old(self).variants,
            *final(self) == *final(r),
    {
        self.type_def.ty.generics.push(generic);
        self
    }

    /// Pushes one entry onto the generic list.
    pub fn with_generic(self, generic: GenericParameter) -> (r: Enum)
        ensures
            r.type_def.ty.generics@ == self.type_def.ty.generics@.push(generic),
            r.type_def.ty.name == self.type_def.ty.name,
            r.type_def.vis == self.type_def.vis,
            r.type_def.doc == self.type_def.doc,
            r.type_def.derives == self.type_def.derives,
            r.type_def.lints == self.type_def.lints,
            r.type_def.attributes == self.type_def.attributes,
            r.type_def.repr == self.type_def.repr,
            r.type_def.bounds == self.type_def.bounds,
            r.type_def.macros == self.type_def.macros,
            r.variants == self.variants,
    {
        let mut s = self;
        s.type_def.ty.generics.push(generic);
        s
    }

    /// Gets the bounds.
    pub fn bounds(&self) -> (r: &Vec<Bound>)
        ensures
            *r == self.type_def.bounds,
    {
        &self.type_def.bounds
    }

    /// Sets the bounds.
    pub fn set_bounds(&mut self, bounds: Vec<Bound>) -> (r: &mut Enum)
        ensures
            r.type_def.bounds == bounds,
            r.type_def.ty.name == old(self).type_def.ty.name,
            r.type_def.ty.generics == old(self).type_def.ty.generics,
            r.type_def.vis == old(self).type_def.vis,
            r.type_def.doc == old(self).type_def.doc,
            r.type_def.derives == old(self).type_def.derives,
            r.type_def.lints == old(self).type_def.lints,
            r.type_def.attributes == old(self).type_def.attributes,
            r.type_def.repr == old(self).type_def.repr,
            r.type_def.macros == old(self).type_def.macros,
            r.variants == old(self).variants,
            *final(self) == *final(r),
    {
        self.type_def.bounds = bounds;
        self
    }

    /// Sets the bounds.
    pub fn with_bounds(self, bounds: Vec<Bound>) -> (r: Enum)
        ensures
            r.type_def.bounds == bounds,
            r.type_def.ty.name == self.type_def.ty.name,
            r.type_def.ty.generics == self.type_def.ty.generics,
            r.type_def.vis == self.type_def.vis,
            r.type_def.doc == self.type_def.doc,
            r.type_def.derives == self.type_def.derives,
            r.type_def.lints == self.type_def.lints,
            r.type_def.attributes == self.type_def.attributes,
            r.type_def.repr == self.type_def.repr,
            r.type_def.macros == self.type_def.macros,
            r.variants == self.variants,
    {
        let mut s = self;
        s.type_def.bounds = bounds;
        s
    }

    /// Gets the bounds mutably.
    pub fn bounds_mut(&mut self) -> (r: &mut Vec<Bound>)
        ensures
            *r == old(self).type_def.bounds,
            final(self).type_def.bounds == *final(r),
            final(self).type_def.ty.name == old(self).type_def.ty.name,
            final(self).type_def.ty.generics == old(self).type_def.ty.generics,
            final(self).type_def.vis == old(self).type_def.vis,
            final(self).type_def.doc == old(self).type_def.doc,
            final(self).type_def.derives == old(self).type_def.derives,
            final(self).type_def.lints == old(self).type_def.lints,
            final(self).type_def.attributes == old(self).type_def.attributes,
            final(self).type_def.repr == old(self).type_def.repr,
            final(self).type_def.macros == old(self).type_def.macros,
            final(self).variants == old(self).variants,
    {
        &mut self.type_def.bounds
    }

    /// Pushes one entry onto the bound list.
    pub fn push_bound(&mut self, bound: Bound) -> (r: &mut Enum)
        ensures
            r.type_def.bounds@ == old(self).type_def.bounds@.push(bound),
            r.type_def.ty.name == old(self).type_def.ty.name,
            r.type_def.ty.generics == old(self).type_def.ty.generics,
            r.type_def.vis == old(self).type_def.vis,
            r.type_def.doc == old(self).type_def.doc,
            r.type_def.derives == old(self).type_def.derives,
            r.type_def.lints == old(self).type_def.lints,
            r.type_def.attributes == old(self).type_def.attributes,
            r.type_def.repr == old(self).type_def.repr,
            r.type_def.macros == old(self).type_def.macros,
            r.variants == old(self).variants,
            *final(self) == *final(r),
    {
        self.type_def.bounds.push(bound);
        self
    }

    /// Pushes one entry onto the bound list.
    pub fn with_bound(self, bound: Bound) -> (r: Enum)
        ensures
            r.type_def.bounds@ == self.type_def.bounds@.push(bound),
            r.type_def.ty.name == self.type_def.ty.name,
            r.type_def.ty.generics == self.type_def.ty.generics,
            r.type_def.vis == self.type_def.vis,
            r.type_def.doc == self.type_def.doc,
            r.type_def.derives == self.type_def.derives,
            r.type_def.lints == self.type_def.lints,
            r.type_def.attributes == self.type_def.attributes,
            r.type_def.repr == self.type_def.repr,
            r.type_def.macros == self.type_def.macros,
            r.variants == self.variants,
    {
        let mut s = self;
        s.type_def.bounds.push(bound);
        s
    }

    /// Gets the doc.
    pub fn doc(&self) -> (r: Option<&Doc>)
        ensures
            self.type_def.doc is Some <==> r is Some,
            r matches Some(d) ==> (self.type_def.doc matches Some(sd) && *d == sd),
    {
        self.type_def.doc.as_ref()
    }

    /// Sets the doc.
    pub fn set_doc(&mut self, doc: &str) -> (r: &mut Enum)
        ensures
            r.type_def.doc matches Some(d) && d.0@ == doc@,
            r.type_def.ty.name == old(self).type_def.ty.name,
            r.type_def.ty.generics == old(self).type_def.ty.generics,
            r.type_def.vis == old(self).type_def.vis,
            r.type_def.derives == old(self).type_def.derives,
            r.type_def.lints == old(self).type_def.lints,
            r.type_def.attributes == old(self).type_def.attributes,
            r.type_def.repr == old(self).type_def.repr,
            r.type_def.bounds == old(self).type_def.bounds,
            r.type_def.macros == old(self).type_def.macros,
            r.variants == old(self).variants,
            *final(self) == *final(r),
    {
        self.type_def.doc = Some(Doc::new(doc));
        self
    }

    /// Sets the doc.
    pub fn with_doc(self, doc: &str) -> (r: Enum)
        ensures
            r.type_def.doc matches Some(d) && d.0@ == doc@,
            r.type_def.ty.name == self.type_def.ty.name,
            r.type_def.ty.generics == self.type_def.ty.generics,
            r.type_def.vis == self.type_def.vis,
            r.type_def.derives == self.type_def.derives,
            r.type_def.lints == self.type_def.lints,
            r.type_def.attributes == self.type_def.attributes,
            r.type_def.repr == self.type_def.repr,
            r.type_def.bounds == self.type_def.bounds,
            r.type_def.macros == self.type_def.macros,
            r.variants == self.variants,
    {
        let mut s = self;
        s.type_def.doc = Some(Doc::new(doc));
        s
    }

    /// Gets the derives.
    pub fn derives(&self) -> (r: &Vec<String>)
        ensures
            *r == self.type_def.derives,
    {
        &self.type_def.derives
    }

    /// Sets the derives.
    pub fn set_derives(&mut self, derives: Vec<String>) -> (r: &mut Enum)
        ensures
            r.type_def.derives == derives,
            r.type_def.ty.name == old(self).type_def.ty.name,
            r.type_def.ty.generics == old(self).type_def.ty.generics,
            r.type_def.vis == old(self).type_def.vis,
            r.type_def.doc == old(self).type_def.doc,
            r.type_def.lints == old(self).type_def.lints,
            r.type_def.attributes == old(self).type_def.attributes,
            r.type_def.repr == old(self).type_def.repr,
            r.type_def.bounds == old(self).type_def.bounds,
            r.type_def.macros == old(self).type_def.macros,
            r.variants == old(self).variants,
            *final(self) == *final(r),
    {
        self.type_def.derives = derives;
        self
    }

    /// Sets the derives.
    pub fn with_derives(self, derives: Vec<String>) -> (r: Enum)
        ensures
            r.type_def.derives == derives,
            r.type_def.ty.name == self.type_def.ty.name,
            r.type_def.ty.generics == self.type_def.ty.generics,
            r.type_def.vis == self.type_def.vis,
            r.type_def.doc == self.type_def.doc,
            r.type_def.lints == self.type_def.lints,
            r.type_def.attributes == self.type_def.attributes,
            r.type_def.repr == self.type_def.repr,
            r.type_def.bounds == self.type_def.bounds,
            r.type_def.macros == self.type_def.macros,
            r.variants == self.variants,
    {
        let mut s = self;
        s.type_def.derives = derives;
        s
    }

    /// Gets the derives mutably.
    pub fn derives_mut(&mut self) -> (r: &mut Vec<String>)
        ensures
            *r == old(self).type_def.derives,
            final(self).type_def.derives == *final(r),
            final(self).type_def.ty.name == old(self).type_def.ty.name,
            final(self).type_def.ty.generics == old(self).type_def.ty.generics,
            final(self).type_def.vis == old(self).type_def.vis,
            final(self).type_def.doc == old(self).type_def.doc,
            final(self).type_def.lints == old(self).type_def.lints,
            final(self).type_def.attributes == old(self).type_def.attributes,
            final(self).type_def.repr == old(self).type_def.repr,
            final(self).type_def.bounds == old(self).type_def.bounds,
            final(self).type_def.macros == old(self).type_def.macros,
            final(self).variants == old(self).variants,
    {
        &mut self.type_def.derives
    }

    /// Pushes one entry onto the derive list.
    pub fn push_derive(&mut self, derive: &str) -> (r: &mut Enum)
        ensures
            r.type_def.derives.deep_view() == old(self).type_def.derives.deep_view().push(derive@),
            r.type_def.ty.name == old(self).type_def.ty.name,
            r.type_def.ty.generics == old(self).type_def.ty.generics,
            r.type_def.vis == old(self).type_def.vis,
            r.type_def.doc == old(self).type_def.doc,
            r.type_def.lints == old(self).type_def.lints,
            r.type_def.attributes == old(self).type_def.attributes,
            r.type_def.repr == old(self).type_def.repr,
            r.type_def.bounds == old(self).type_def.bounds,
            r.type_def.macros == old(self).type_def.macros,
            r.variants == old(self).variants,
            *final(self) == *final(r),
    {
        self.type_def.derives.push(derive.to_owned());
        proof {
            assert(self.type_def.derives.deep_view() =~= old(self).type_def.derives.deep_view().push(derive@));
        }
        self
    }

    /// Pushes one entry onto the derive list.
    pub fn with_derive(self, derive: &str) -> (r: Enum)
        ensures
            r.type_def.derives.deep_view() == self.type_def.derives.deep_view().push(derive@),
            r.type_def.ty.name == self.type_def.ty.name,
            r.type_def.ty.generics == self.type_def.ty.generics,
            r.type_def.vis == self.type_def.vis,
            r.type_def.doc == self.type_def.doc,
            r.type_def.lints == self.type_def.lints,
            r.type_def.attributes == self.type_def.attributes,
            r.type_def.repr == self.type_def.repr,
            r.type_def.bounds == self.type_def.bounds,
            r.type_def.macros == self.type_def.macros,
            r.variants == self.variants,
    {
        let mut s = self;
        s.type_def.derives.push(derive.to_owned());
        proof {
            assert(s.type_def.derives.deep_view() =~= self.type_def.derives.deep_view().push(derive@));
        }
        s
    }

    /// Gets the attributes.
    pub fn attributes(&self) -> (r: &Vec<String>)
        ensures
            *r == self.type_def.attributes,
    {
        &self.type_def.attributes
    }

    /// Sets the attributes.
    pub fn set_attributes(&mut self, attributes: Vec<String>) -> (r: &mut Enum)
        ensures
            r.type_def.attributes == attributes,
            r.type_def.ty.name == old(self).type_def.ty.name,
            r.type_def.ty.generics == old(self).type_def.ty.generics,
            r.type_def.vis == old(self).type_def.vis,
            r.type_def.doc == old(self).type_def.doc,
            r.type_def.derives == old(self).type_def.derives,
            r.type_def.lints == old(self).type_def.lints,
            r.type_def.repr == old(self).type_def.repr,
            r.type_def.bounds == old(self).type_def.bounds,
            r.type_def.macros == old(self).type_def.macros,
            r.variants == old(self).variants,
            *final(self) == *final(r),
    {
        self.type_def.attributes = attributes;
        self
    }

    /// Sets the attributes.
    pub fn with_attributes(self, attributes: Vec<String>) -> (r: Enum)
        ensures
            r.type_def.attributes == attributes,
            r.type_def.ty.name == self.type_def.ty.name,
            r.type_def.ty.generics == self.type_def.ty.generics,
            r.type_def.vis == self.type_def.vis,
            r.type_def.doc == self.type_def.doc,
            r.type_def.derives == self.type_def.derives,
            r.type_def.lints == self.type_def.lints,
            r.type_def.repr == self.type_def.repr,
            r.type_def.bounds == self.type_def.bounds,
            r.type_def.macros == self.type_def.macros,
            r.variants == self.variants,
    {
        let mut s = self;
        s.type_def.attributes = attributes;
        s
    }

    /// Gets the attributes mutably.
    pub fn attributes_mut(&mut self) -> (r: &mut Vec<String>)
        ensures
            *r == old(self).type_def.attributes,
            final(self).type_def.attributes == *final(r),
            final(self).type_def.ty.name == old(self).type_def.ty.name,
            final(self).type_def.ty.generics == old(self).type_def.ty.generics,
            final(self).type_def.vis == old(self).type_def.vis,
            final(self).type_def.doc == old(self).type_def.doc,
            final(self).type_def.derives == old(self).type_def.derives,
            final(self).type_def.lints == old(self).type_def.lints,
            final(self).type_def.repr == old(self).type_def.repr,
            final(self).type_def.bounds == old(self).type_def.bounds,
            final(self).type_def.macros == old(self).type_def.macros,
            final(self).variants == old(self).variants,
    {
        &mut self.type_def.attributes
    }

    /// Pushes one entry onto the attribute list.
    pub fn push_attribute(&mut self, attribute: &str) -> (r: &mut Enum)
        ensures
            r.type_def.attributes.deep_view() == old(self).type_def.attributes.deep_view().push(attribute@),
            r.type_def.ty.name == old(self).type_def.ty.name,
            r.type_def.ty.generics == old(self).type_def.ty.generics,
            r.type_def.vis == old(self).type_def.vis,
            r.type_def.doc == old(self).type_def.doc,
            r.type_def.derives == old(self).type_def.derives,
            r.type_def.lints == old(self).type_def.lints,
            r.type_def.repr == old(self).type_def.repr,
            r.type_def.bounds == old(self).type_def.bounds,
            r.type_def.macros == old(self).type_def.macros,
            r.variants == old(self).variants,
            *final(self) == *final(r),
    {
        self.type_def.attributes.push(attribute.to_owned());
        proof {
            assert(self.type_def.attributes.deep_view() =~= old(self).type_def.attributes.deep_view().push(attribute@));
        }
        self
    }

    /// Pushes one entry onto the attribute list.
    pub fn with_attribute(self, attribute: &str) -> (r: Enum)
        ensures
            r.type_def.attributes.deep_view() == self.type_def.attributes.deep_view().push(attribute@),
            r.type_def.ty.name == self.type_def.ty.name,
            r.type_def.ty.generics == self.type_def.ty.generics,
            r.type_def.vis == self.type_def.vis,
            r.type_def.doc == self.type_def.doc,
            r.type_def.derives == self.type_def.derives,
            r.type_def.lints == self.type_def.lints,
            r.type_def.repr == self.type_def.repr,
            r.type_def.bounds == self.type_def.bounds,
            r.type_def.macros == self.type_def.macros,
            r.variants == self.variants,
    {
        let mut s = self;
        s.type_def.attributes.push(attribute.to_owned());
        proof {
            assert(s.type_def.attributes.deep_view() =~= self.type_def.attributes.deep_view().push(attribute@));
        }
        s
    }

    /// Gets the lints.
    pub fn lints(&self) -> (r: &Vec<Lint>)
        ensures
            *r == self.type_def.lints,
    {
        &self.type_def.lints
    }

    /// Sets the lints.
    pub fn set_lints(&mut self, lints: Vec<Lint>) -> (r: &mut Enum)
        ensures
            r.type_def.lints == lints,
            r.type_def.ty.name == old(self).type_def.ty.name,
            r.type_def.ty.generics == old(self).type_def.ty.generics,
            r.type_def.vis == old(self).type_def.vis,
            r.type_def.doc == old(self).type_def.doc,
            r.type_def.derives == old(self).type_def.derives,
            r.type_def.attributes == old(self).type_def.attributes,
            r.type_def.repr == old(self).type_def.repr,
            r.type_def.bounds == old(self).type_def.bounds,
            r.type_def.macros == old(self).type_def.macros,
            r.variants == old(self).variants,
            *final(self) == *final(r),
    {
        self.type_def.lints = lints;
        self
    }

    /// Sets the lints.
    pub fn with_lints(self, lints: Vec<Lint>) -> (r: Enum)
        ensures
            r.type_def.lints == lints,
            r.type_def.ty.name == self.type_def.ty.name,
            r.type_def.ty.generics == self.type_def.ty.generics,
            r.type_def.vis == self.type_def.vis,
            r.type_def.doc == self.type_def.doc,
            r.type_def.derives == self.type_def.derives,
            r.type_def.attributes == self.type_def.attributes,
            r.type_def.repr == self.type_def.repr,
            r.type_def.bounds == self.type_def.bounds,
            r.type_def.macros == self.type_def.macros,
            r.variants == self.variants,
    {
        let mut s = self;
        s.type_def.lints = lints;
        s
    }

    /// Gets the lints mutably.
    pub fn lints_mut(&mut self) -> (r: &mut Vec<Lint>)
        ensures
            *r == old(self).type_def.lints,
            final(self).type_def.lints == *final(r),
            final(self).type_def.ty.name == old(self).type_def.ty.name,
            final(self).type_def.ty.generics == old(self).type_def.ty.generics,
            final(self).type_def.vis == old(self).type_def.vis,
            final(self).type_def.doc == old(self).type_def.doc,
            final(self).type_def.derives == old(self).type_def.derives,
            final(self).type_def.attributes == old(self).type_def.attributes,
            final(self).type_def.repr == old(self).type_def.repr,
            final(self).type_def.bounds == old(self).type_def.bounds,
            final(self).type_def.macros == old(self).type_def.macros,
            final(self).variants == old(self).variants,
    {
        &mut self.type_def.lints
    }

    /// Pushes one entry onto the lint list.
    pub fn push_lint(&mut self, lint: Lint) -> (r: &mut Enum)
        ensures
            r.type_def.lints@ == old(self).type_def.lints@.push(lint),
            r.type_def.ty.name == old(self).type_def.ty.name,
            r.type_def.ty.generics == old(self).type_def.ty.generics,
            r.type_def.vis == old(self).type_def.vis,
            r.type_def.doc == old(self).type_def.doc,
            r.type_def.derives == old(self).type_def.derives,
            r.type_def.attributes == old(self).type_def.attributes,
            r.type_def.repr == old(self).type_def.repr,
            r.type_def.bounds == old(self).type_def.bounds,
            r.type_def.macros == old(self).type_def.macros,
            r.variants == old(self).variants,
            *final(self) == *final(r),
    {
        self.type_def.lints.push(lint);
        self
    }

    /// Pushes one entry onto the lint list.
    pub fn with_lint(self, lint: Lint) -> (r: Enum)
        ensures
            r.type_def.lints@ == self.type_def.lints@.push(lint),
            r.type_def.ty.name == self.type_def.ty.name,
            r.type_def.ty.generics == self.type_def.ty.generics,
            r.type_def.vis == self.type_def.vis,
            r.type_def.doc == self.type_def.doc,
            r.type_def.derives == self.type_def.derives,
            r.type_def.attributes == self.type_def.attributes,
            r.type_def.repr == self.type_def.repr,
            r.type_def.bounds == self.type_def.bounds,
            r.type_def.macros == self.type_def.macros,
            r.variants == self.variants,
    {
        let mut s = self;
        s.type_def.lints.push(lint);
        s
    }

    /// Gets the repr.
    pub fn repr(&self) -> (r: Option<&String>)
        ensures
            self.type_def.repr is Some <==> r is Some,
            r matches Some(v) ==> (self.type_def.repr matches Some(sv) && *v == sv),
    {
        self.type_def.repr.as_ref()
    }

    /// Sets the repr.
    pub fn set_repr(&mut self, repr: Option<String>) -> (r: &mut Enum)
        ensures
            r.type_def.repr == repr,
            r.type_def.ty.name == old(self).type_def.ty.name,
            r.type_def.ty.generics == old(self).type_def.ty.generics,
            r.type_def.vis == old(self).type_def.vis,
            r.type_def.doc == old(self).type_def.doc,
            r.type_def.derives == old(self).type_def.derives,
            r.type_def.lints == old(self).type_def.lints,
            r.type_def.attributes == old(self).type_def.attributes,
            r.type_def.bounds == old(self).type_def.bounds,
            r.type_def.macros == old(self).type_def.macros,
            r.variants == old(self).variants,
            *final(self) == *final(r),
    {
        self.type_def.repr = repr;
        self
    }

    /// Sets the repr.
    pub fn with_repr(self, repr: Option<String>) -> (r: Enum)
        ensures
            r.type_def.repr == repr,
            r.type_def.ty.name == self.type_def.ty.name,
            r.type_def.ty.generics == self.type_def.ty.generics,
            r.type_def.vis == self.type_def.vis,
            r.type_def.doc == self.type_def.doc,
            r.type_def.derives == self.type_def.derives,
            r.type_def.lints == self.type_def.lints,
            r.type_def.attributes == self.type_def.attributes,
            r.type_def.bounds == self.type_def.bounds,
            r.type_def.macros == self.type_def.macros,
            r.variants == self.variants,
    {
        let mut s = self;
        s.type_def.repr = repr;
        s
    }

    /// Gets the macros.
    pub fn macros(&self) -> (r: &Vec<String>)
        ensures
            *r == self.type_def.macros,
    {
        &self.type_def.macros
    }

    /// Sets the macros.
    pub fn set_macros(&mut self, macros: Vec<String>) -> (r: &mut Enum)
        ensures
            r.type_def.macros == macros,
            r.type_def.ty.name == old(self).type_def.ty.name,
            r.type_def.ty.generics == old(self).type_def.ty.generics,
            r.type_def.vis == old(self).type_def.vis,
            r.type_def.doc == old(self).type_def.doc,
            r.type_def.derives == old(self).type_def.derives,
            r.type_def.lints == old(self).type_def.lints,
            r.type_def.attributes == old(self).type_def.attributes,
            r.type_def.repr == old(self).type_def.repr,
            r.type_def.bounds == old(self).type_def.bounds,
            r.variants == old(self).variants,
            *final(self) == *final(r),
    {
        self.type_def.macros = macros;
        self
    }

    /// Sets the macros.
    pub fn with_macros(self, macros: Vec<String>) -> (r: Enum)
        ensures
            r.type_def.macros == macros,
            r.type_def.ty.name == self.type_def.ty.name,
            r.type_def.ty.generics == self.type_def.ty.generics,
            r.type_def.vis == self.type_def.vis,
            r.type_def.doc == self.type_def.doc,
            r.type_def.derives == self.type_def.derives,
            r.type_def.lints == self.type_def.lints,
            r.type_def.attributes == self.type_def.attributes,
            r.type_def.repr == self.type_def.repr,
            r.type_def.bounds == self.type_def.bounds,
            r.variants == self.variants,
    {
        let mut s = self;
        s.type_def.macros = macros;
        s
    }

    /// Gets the macros mutably.
    pub fn macros_mut(&mut self) -> (r: &mut Vec<String>)
        ensures
            *r == old(self).type_def.macros,
            final(self).type_def.macros == *final(r),
            final(self).type_def.ty.name == old(self).type_def.ty.name,
            final(self).type_def.ty.generics == old(self).type_def.ty.generics,
            final(self).type_def.vis == old(self).type_def.vis,
            final(self).type_def.doc == old(self).type_def.doc,
            final(self).type_def.derives == old(self).type_def.derives,
            final(self).type_def.lints == old(self).type_def.lints,
            final(self).type_def.attributes == old(self).type_def.attributes,
            final(self).type_def.repr == old(self).type_def.repr,
            final(self).type_def.bounds == old(self).type_def.bounds,
            final(self).variants == old(self).variants,
    {
        &mut self.type_def.macros
    }

    /// Pushes one entry onto the macro line list.
    pub fn push_macro(&mut self, macro_line: &str) -> (r: &mut Enum)
        ensures
            r.type_def.macros.deep_view() == old(self).type_def.macros.deep_view().push(macro_line@),
            r.type_def.ty.name == old(self).type_def.ty.name,
            r.type_def.ty.generics == old(self).type_def.ty.generics,
            r.type_def.vis == old(self).type_def.vis,
            r.type_def.doc == old(self).type_def.doc,
            r.type_def.derives == old(self).type_def.derives,
            r.type_def.lints == old(self).type_def.lints,
            r.type_def.attributes == old(self).type_def.attributes,
            r.type_def.repr == old(self).type_def.repr,
            r.type_def.bounds == old(self).type_def.bounds,
            r.variants == old(self).variants,
            *final(self) == *final(r),
    {
        self.type_def.macros.push(macro_line.to_owned());
        proof {
            assert(self.type_def.macros.deep_view() =~= old(self).type_def.macros.deep_view().push(macro_line@));
        }
        self
    }

    /// Pushes one entry onto the macro line list.
    pub fn with_macro(self, macro_line: &str) -> (r: Enum)
        ensures
            r.type_def.macros.deep_view() == self.type_def.macros.deep_view().push(macro_line@),
            r.type_def.ty.name == self.type_def.ty.name,
            r.type_def.ty.generics == self.type_def.ty.generics,
            r.type_def.vis == self.type_def.vis,
            r.type_def.doc == self.type_def.doc,
            r.type_def.derives == self.type_def.derives,
            r.type_def.lints == self.type_def.lints,
            r.type_def.attributes == self.type_def.attributes,
            r.type_def.repr == self.type_def.repr,
            r.type_def.bounds == self.type_def.bounds,
            r.variants == self.variants,
    {
        let mut s = self;
        s.type_def.macros.push(macro_line.to_owned());
        proof {
            assert(s.type_def.macros.deep_view() =~= self.type_def.macros.deep_view().push(macro_line@));
        }
        s
    }

    /// Gets the variants.
    pub fn variants(&self) -> (r: &Vec<Variant>)
        ensures
            *r == self.variants,
    {
        &self.variants
    }

    /// Sets the variants.
    pub fn set_variants(&mut self, variants: Vec<Variant>) -> (r: &mut Enum)
        ensures
            r.variants == variants,
            r.type_def.ty.name == old(self).type_def.ty.name,
            r.type_def.ty.generics == old(self).type_def.ty.generics,
            r.type_def.vis == old(self).type_def.vis,
            r.type_def.doc == old(self).type_def.doc,
            r.type_def.derives == old(self).type_def.derives,
            r.type_def.lints == old(self).type_def.lints,
            r.type_def.attributes == old(self).type_def.attributes,
            r.type_def.repr == old(self).type_def.repr,
            r.type_def.bounds == old(self).type_def.bounds,
            r.type_def.macros == old(self).type_def.macros,
            *final(self) == *final(r),
    {
        self.variants = variants;
        self
    }

    /// Sets the variants.
    pub fn with_variants(self, variants: Vec<Variant>) -> (r: Enum)
        ensures
            r.variants == variants,
            r.type_def.ty.name == self.type_def.ty.name,
            r.type_def.ty.generics == self.type_def.ty.generics,
            r.type_def.vis == self.type_def.vis,
            r.type_def.doc == self.type_def.doc,
            r.type_def.derives == self.type_def.derives,
            r.type_def.lints == self.type_def.lints,
            r.type_def.attributes == self.type_def.attributes,
            r.type_def.repr == self.type_def.repr,
            r.type_def.bounds == self.type_def.bounds,
            r.type_def.macros == self.type_def.macros,
    {
        let mut s = self;
        s.variants = variants;
        s
    }

    /// Gets the variants mutably.
    pub fn variants_mut(&mut self) -> (r: &mut Vec<Variant>)
        ensures
            *r == old(self).variants,
            final(self).variants == *final(r),
            final(self).type_def.ty.name == old(self).type_def.ty.name,
            final(self).type_def.ty.generics == old(self).type_def.ty.generics,
            final(self).type_def.vis == old(self).type_def.vis,
            final(self).type_def.doc == old(self).type_def.doc,
            final(self).type_def.derives == old(self).type_def.derives,
            final(self).type_def.lints == old(self).type_def.lints,
            final(self).type_def.attributes == old(self).type_def.attributes,
            final(self).type_def.repr == old(self).type_def.repr,
            final(self).type_def.bounds == old(self).type_def.bounds,
            final(self).type_def.macros == old(self).type_def.macros,
    {
        &mut self.variants
    }

    /// Pushes one entry onto the variant list.
    pub fn push_variant(&mut self, variant: Variant) -> (r: &mut Enum)
        ensures
            r.variants@ == old(self).variants@.push(variant),
            r.type_def.ty.name == old(self).type_def.ty.name,
            r.type_def.ty.generics == old(self).type_def.ty.generics,
            r.type_def.vis == old(self).type_def.vis,
            r.type_def.doc == old(self).type_def.doc,
            r.type_def.derives == old(self).type_def.derives,
            r.type_def.lints == old(self).type_def.lints,
            r.type_def.attributes == old(self).type_def.attributes,
            r.type_def.repr == old(self).type_def.repr,
            r.type_def.bounds == old(self).type_def.bounds,
            r.type_def.macros == old(self).type_def.macros,
            *final(self) == *final(r),
    {
        self.variants.push(variant);
        self
    }

    /// Pushes one entry onto the variant list.
    pub fn with_variant(self, variant: Variant) -> (r: Enum)
        ensures
            r.variants@ == self.variants@.push(variant),
            r.type_def.ty.name == self.type_def.ty.name,
            r.type_def.ty.generics == self.type_def.ty.generics,
            r.type_def.vis == self.type_def.vis,
            r.type_def.doc == self.type_def.doc,
            r.type_def.derives == self.type_def.derives,
            r.type_def.lints == self.type_def.lints,
            r.type_def.attributes == self.type_def.attributes,
            r.type_def.repr == self.type_def.repr,
            r.type_def.bounds == self.type_def.bounds,
            r.type_def.macros == self.type_def.macros,
    {
        let mut s = self;
        s.variants.push(variant);
        s
    }


    /// Gets the doc mutably, when one is set.
    pub fn doc_mut(&mut self) -> (r: Option<&mut Doc>)
        ensures
            old(self).type_def.doc is None ==> (r is None && final(self).type_def.doc is None),
            old(self).type_def.doc is Some ==> (r is Some && *r.unwrap() == old(self).type_def.doc.unwrap()
                && final(self).type_def.doc == Some(*final(r.unwrap()))),
            final(self).type_def.ty == old(self).type_def.ty,
            final(self).type_def.vis == old(self).type_def.vis,
            final(self).type_def.derives == old(self).type_def.derives,
            final(self).type_def.lints == old(self).type_def.lints,
            final(self).type_def.attributes == old(self).type_def.attributes,
            final(self).type_def.bounds == old(self).type_def.bounds,
            final(self).type_def.macros == old(self).type_def.macros,
            final(self).variants == old(self).variants,
            final(self).type_def.repr == old(self).type_def.repr,
    {
        self.type_def.doc.as_mut()
    }

    /// Gets the repr mutably, when one is set.
    pub fn repr_mut(&mut self) -> (r: Option<&mut String>)
        ensures
            old(self).type_def.repr is None ==> (r is None && final(self).type_def.repr is None),
            old(self).type_def.repr is Some ==> (r is Some && *r.unwrap() == old(self).type_def.repr.unwrap()
                && final(self).type_def.repr == Some(*final(r.unwrap()))),
            final(self).type_def.ty == old(self).type_def.ty,
            final(self).type_def.vis == old(self).type_def.vis,
            final(self).type_def.derives == old(self).type_def.derives,
            final(self).type_def.lints == old(self).type_def.lints,
            final(self).type_def.attributes == old(self).type_def.attributes,
            final(self).type_def.bounds == old(self).type_def.bounds,
            final(self).type_def.macros == old(self).type_def.macros,
            final(self).variants == old(self).variants,
            final(self).type_def.doc == old(self).type_def.doc,
    {
        self.type_def.repr.as_mut()
    }
}

} // verus!
