use vstd::prelude::*;
use vstd::string::StringExecFns;

use crate::bound::{bounds_text, bounds_to_text, Bound};
use crate::doc::{doc_text, Doc};
use crate::formatter::{at_start, ends_line, ind, Formatter};
use crate::lint::{lint_text, Lint};
use crate::text::{join_strings, join_with, lines_text};
use crate::ty::{type_text, Type};
use crate::visibility::{vis_text, Vis};

verus! {

/// The shared head of a struct, enum, trait or type-alias declaration:
/// everything up to, but not including, the declaration's own body.
pub struct TypeDef {
    /// The declared type: name and generic parameters.
    pub ty: Type,
    /// The declaration's visibility.
    pub vis: Vis,
    /// The declaration's documentation.
    pub doc: Option<Doc>,
    /// Names listed in one `#[derive(...)]` attribute.
    pub derives: Vec<String>,
    /// Lint attributes written above the declaration.
    pub lints: Vec<Lint>,
    /// Attribute bodies, each written as `#[...]`.
    pub attributes: Vec<String>,
    /// The `#[repr(...)]` hint, if any.
    pub repr: Option<String>,
    /// The `where`-clause bounds.
    pub bounds: Vec<Bound>,
    /// Macro lines written verbatim above the declaration.
    pub macros: Vec<String>,
}

/// A documentation block, or nothing.
pub open spec fn opt_doc_text(d: Option<Doc>) -> Seq<char> {
    match d {
        Option::None => Seq::empty(),
        Option::Some(doc) => doc_text(doc.0@),
    }
}

/// The first `i` lint lines.
pub open spec fn lint_lines_text(ls: Seq<Lint>, i: int) -> Seq<char>
    decreases i,
{
    if 0 < i <= ls.len() {
        lint_lines_text(ls, i - 1) + lint_text(ls[i - 1])
    } else {
        Seq::empty()
    }
}

/// The `#[derive(...)]` line, or nothing when no derives are set.
pub open spec fn derive_line_text(ds: Seq<Seq<char>>) -> Seq<char> {
    if ds.len() == 0 {
        Seq::empty()
    } else {
        "#[derive("@ + join_with(ds, ", "@) + ")]\n"@
    }
}

/// The `#[repr(...)]` line, or nothing.
pub open spec fn repr_line_text(r: Option<String>) -> Seq<char> {
    match r {
        Option::None => Seq::empty(),
        Option::Some(s) => "#[repr("@ + s@ + ")]\n"@,
    }
}

/// The first `i` attribute lines, each written as `#[...]`.
pub open spec fn attr_lines_text(ls: Seq<Seq<char>>, i: int) -> Seq<char>
    decreases i,
{
    if 0 < i <= ls.len() {
        attr_lines_text(ls, i - 1) + "#["@ + ls[i - 1] + "]\n"@
    } else {
        Seq::empty()
    }
}

/// Attribute lines end their line or are absent.
pub proof fn lemma_attr_lines_ends(ls: Seq<Seq<char>>, i: int)
    ensures
        ends_line(attr_lines_text(ls, i), true),
    decreases i,
{
    if 0 < i <= ls.len() {
        lemma_attr_lines_ends(ls, i - 1);
        reveal_strlit("]\n");
        assert("]\n"@.len() == 2 && "]\n"@.last() == '\n');
        assert((attr_lines_text(ls, i - 1) + "#["@ + ls[i - 1] + "]\n"@).last() == "]\n"@.last());
    }
}

/// The first `i` parent types: `: ` before the first, ` + ` before the
/// rest.
pub open spec fn parents_list_text(ps: Seq<Type>, i: int) -> Seq<char>
    decreases i,
{
    if 0 < i <= ps.len() {
        parents_list_text(ps, i - 1) + (if i == 1 {
            ": "@
        } else {
            " + "@
        }) + type_text(ps[i - 1])
    } else {
        Seq::empty()
    }
}

/// The full declaration head: documentation, lints, derives, repr,
/// attributes, macros, visibility, the keyword, the declared type, its
/// parents, and the `where` clause.
pub open spec fn head_text(td: TypeDef, keyword: Seq<char>, parents: Seq<Type>) -> Seq<char> {
    opt_doc_text(td.doc) + lint_lines_text(td.lints@, td.lints@.len() as int) + derive_line_text(
        td.derives.deep_view(),
    ) + repr_line_text(td.repr) + attr_lines_text(
        td.attributes.deep_view(),
        td.attributes.deep_view().len() as int,
    ) + lines_text(td.macros.deep_view(), td.macros.deep_view().len() as int) + vis_text(td.vis)
        + keyword + " "@ + type_text(td.ty) + parents_list_text(parents, parents.len() as int)
        + bounds_text(td.bounds@)
}

impl TypeDef {
    /// Creates a head for a declaration of the given name.
    pub fn new(name: &str) -> (r: TypeDef)
        ensures
            r.ty.name@ == name@,
            r.ty.generics@.len() == 0,
            r.vis is Private,
            r.doc is None,
            r.derives@.len() == 0,
            r.lints@.len() == 0,
            r.attributes@.len() == 0,
            r.repr is None,
            r.bounds@.len() == 0,
            r.macros@.len() == 0,
    {
        TypeDef {
            ty: Type::new(name),
            vis: Vis::Private,
            doc: None,
            derives: Vec::new(),
            lints: Vec::new(),
            attributes: Vec::new(),
            repr: None,
            bounds: Vec::new(),
            macros: Vec::new(),
        }
    }

    /// Renders the declaration head as text.
    pub fn to_head_text(&self, keyword: &str, parents: &Vec<Type>) -> (r: String)
        ensures
            r@ == head_text(*self, keyword@, parents@),
    {
        let mut out: String;
        match &self.doc {
            Some(d) => {
                out = d.to_text();
            },
            None => {
                out = String::new();
            },
        }
        let ghost base0 = out@;
        let mut i: usize = 0;
        proof {
            assert(out@ + lint_lines_text(self.lints@, 0) =~= out@);
        }
        while i < self.lints.len()
            invariant
                i <= self.lints@.len(),
                out@ == base0 + lint_lines_text(self.lints@, i as int),
            decreases self.lints@.len() - i,
        {
            let l = self.lints[i].to_text();
            out.append(l.as_str());
            proof {
                assert(out@ =~= base0 + lint_lines_text(self.lints@, i as int + 1));
            }
            i = i + 1;
        }
        if !self.derives.is_empty() {
            out.append("#[derive(");
            let joined = join_strings(&self.derives, ", ");
            out.append(joined.as_str());
            out.append(")]\n");
        }
        let ghost base1 = base0 + lint_lines_text(self.lints@, self.lints@.len() as int)
            + derive_line_text(self.derives.deep_view());
        proof {
            if self.derives.deep_view().len() == 0 {
                assert(out@ =~= base1);
            } else {
                assert(out@ =~= base1);
            }
        }
        match &self.repr {
            Some(s) => {
                out.append("#[repr(");
                out.append(s.as_str());
                out.append(")]\n");
            },
            None => {},
        }
        let ghost base2 = base1 + repr_line_text(self.repr);
        proof {
            assert(out@ =~= base2);
        }
        let mut i2: usize = 0;
        proof {
            assert(out@ + attr_lines_text(self.attributes.deep_view(), 0) =~= out@);
        }
        while i2 < self.attributes.len()
            invariant
                i2 <= self.attributes@.len(),
                self.attributes.deep_view().len() == self.attributes@.len(),
                forall|j: int|
                    0 <= j < self.attributes@.len() ==> self.attributes.deep_view()[j]
                        == self.attributes@[j]@,
                out@ == base2 + attr_lines_text(self.attributes.deep_view(), i2 as int),
            decreases self.attributes@.len() - i2,
        {
            out.append("#[");
            out.append(self.attributes[i2].as_str());
            out.append("]\n");
            proof {
                assert(out@ =~= base2 + attr_lines_text(self.attributes.deep_view(), i2 as int + 1));
            }
            i2 = i2 + 1;
        }
        let ghost base3 = base2 + attr_lines_text(
            self.attributes.deep_view(),
            self.attributes.deep_view().len() as int,
        );
        let mut i3: usize = 0;
        proof {
            assert(out@ + lines_text(self.macros.deep_view(), 0) =~= out@);
        }
        while i3 < self.macros.len()
            invariant
                i3 <= self.macros@.len(),
                self.macros.deep_view().len() == self.macros@.len(),
                forall|j: int|
                    0 <= j < self.macros@.len() ==> self.macros.deep_view()[j]
                        == self.macros@[j]@,
                out@ == base3 + lines_text(self.macros.deep_view(), i3 as int),
            decreases self.macros@.len() - i3,
        {
            out.append(self.macros[i3].as_str());
            out.append("\n");
            proof {
                assert(out@ =~= base3 + lines_text(self.macros.deep_view(), i3 as int + 1));
            }
            i3 = i3 + 1;
        }
        let v = self.vis.to_text();
        out.append(v.as_str());
        out.append(keyword);
        out.append(" ");
        let t = self.ty.to_text();
        out.append(t.as_str());
        let ghost base4 = base3 + lines_text(self.macros.deep_view(), self.macros.deep_view().len() as int)
            + vis_text(self.vis) + keyword@ + " "@ + type_text(self.ty);
        proof {
            assert(out@ =~= base4);
        }
        let mut i4: usize = 0;
        proof {
            assert(out@ + parents_list_text(parents@, 0) =~= out@);
        }
        while i4 < parents.len()
            invariant
                i4 <= parents@.len(),
                out@ == base4 + parents_list_text(parents@, i4 as int),
            decreases parents@.len() - i4,
        {
            if i4 == 0 {
                out.append(": ");
            } else {
                out.append(" + ");
            }
            let pt = parents[i4].to_text();
            out.append(pt.as_str());
            proof {
                assert(out@ =~= base4 + parents_list_text(parents@, i4 as int + 1));
            }
            i4 = i4 + 1;
        }
        let b = bounds_to_text(&self.bounds);
        out.append(b.as_str());
        proof {
            assert(out@ =~= head_text(*self, keyword@, parents@));
        }
        out
    }

    /// Writes the declaration head through the formatter.
    pub fn fmt_head(&self, keyword: &str, parents: &Vec<Type>, fmt: &mut Formatter)
        requires
            old(fmt).wf(),
        ensures
            final(fmt).wf(),
            final(fmt).depth() == old(fmt).depth(),
            final(fmt).text() == old(fmt).text() + ind(
                head_text(*self, keyword@, parents@),
                at_start(old(fmt).text()),
                old(fmt).depth(),
            ),
    {
        let t = self.to_head_text(keyword, parents);
        fmt.write_str(t.as_str());
    }

    /// Gets the ty.
    pub fn ty(&self) -> (r: &Type)
        ensures
            *r == self.ty,
    {
        &self.ty
    }

    /// Sets the ty.
    pub fn set_ty(&mut self, ty: Type) -> (r: &mut TypeDef)
        ensures
            r.ty == ty,
            r.vis == old(self).vis,
            r.doc == old(self).doc,
            r.derives == old(self).derives,
            r.lints == old(self).lints,
            r.attributes == old(self).attributes,
            r.repr == old(self).repr,
            r.bounds == old(self).bounds,
            r.macros == old(self).macros,
            *final(self) == *final(r),
    {
        self.ty = ty;
        self
    }

    /// Sets the ty.
    pub fn with_ty(self, ty: Type) -> (r: TypeDef)
        ensures
            r.ty == ty,
            r.vis == self.vis,
            r.doc == self.doc,
            r.derives == self.derives,
            r.lints == self.lints,
            r.attributes == self.attributes,
            r.repr == self.repr,
            r.bounds == self.bounds,
            r.macros == self.macros,
    {
        let mut s = self;
        s.ty = ty;
        s
    }

    /// Gets the ty mutably.
    pub fn ty_mut(&mut self) -> (r: &mut Type)
        ensures
            *r == old(self).ty,
            final(self).ty == *final(r),
            final(self).vis == old(self).vis,
            final(self).doc == old(self).doc,
            final(self).derives == old(self).derives,
            final(self).lints == old(self).lints,
            final(self).attributes == old(self).attributes,
            final(self).repr == old(self).repr,
            final(self).bounds == old(self).bounds,
            final(self).macros == old(self).macros,
    {
        &mut self.ty
    }

    /// Gets the vis.
    pub fn vis(&self) -> (r: &Vis)
        ensures
            *r == self.vis,
    {
        &self.vis
    }

    /// Sets the vis.
    pub fn set_vis(&mut self, vis: Vis) -> (r: &mut TypeDef)
        ensures
            r.vis == vis,
            r.ty == old(self).ty,
            r.doc == old(self).doc,
            r.derives == old(self).derives,
            r.lints == old(self).lints,
            r.attributes == old(self).attributes,
            r.repr == old(self).repr,
            r.bounds == old(self).bounds,
            r.macros == old(self).macros,
            *final(self) == *final(r),
    {
        self.vis = vis;
        self
    }

    /// Sets the vis.
    pub fn with_vis(self, vis: Vis) -> (r: TypeDef)
        ensures
            r.vis == vis,
            r.ty == self.ty,
            r.doc == self.doc,
            r.derives == self.derives,
            r.lints == self.lints,
            r.attributes == self.attributes,
            r.repr == self.repr,
            r.bounds == self.bounds,
            r.macros == self.macros,
    {
        let mut s = self;
        s.vis = vis;
        s
    }

    /// Gets the vis mutably.
    pub fn vis_mut(&mut self) -> (r: &mut Vis)
        ensures
            *r == old(self).vis,
            final(self).vis == *final(r),
            final(self).ty == old(self).ty,
            final(self).doc == old(self).doc,
            final(self).derives == old(self).derives,
            final(self).lints == old(self).lints,
            final(self).attributes == old(self).attributes,
            final(self).repr == old(self).repr,
            final(self).bounds == old(self).bounds,
            final(self).macros == old(self).macros,
    {
        &mut self.vis
    }

    /// Gets the doc.
    pub fn doc(&self) -> (r: Option<&Doc>)
        ensures
            self.doc is Some <==> r is Some,
            r matches Some(d) ==> (self.doc matches Some(sd) && *d == sd),
    {
        self.doc.as_ref()
    }

    /// Sets the doc.
    pub fn set_doc(&mut self, doc: &str) -> (r: &mut TypeDef)
        ensures
            r.doc matches Some(d) && d.0@ == doc@,
            r.ty == old(self).ty,
            r.vis == old(self).vis,
            r.derives == old(self).derives,
            r.lints == old(self).lints,
            r.attributes == old(self).attributes,
            r.repr == old(self).repr,
            r.bounds == old(self).bounds,
            r.macros == old(self).macros,
            *final(self) == *final(r),
    {
        self.doc = Some(Doc::new(doc));
        self
    }

    /// Sets the doc.
    pub fn with_doc(self, doc: &str) -> (r: TypeDef)
        ensures
            r.doc matches Some(d) && d.0@ == doc@,
            r.ty == self.ty,
            r.vis == self.vis,
            r.derives == self.derives,
            r.lints == self.lints,
            r.attributes == self.attributes,
            r.repr == self.repr,
            r.bounds == self.bounds,
            r.macros == self.macros,
    {
        let mut s = self;
        s.doc = Some(Doc::new(doc));
        s
    }

    /// Gets the derives.
    pub fn derives(&self) -> (r: &Vec<String>)
        ensures
            *r == self.derives,
    {
        &self.derives
    }

    /// Sets the derives.
    pub fn set_derives(&mut self, derives: Vec<String>) -> (r: &mut TypeDef)
        ensures
            r.derives == derives,
            r.ty == old(self).ty,
            r.vis == old(self).vis,
            r.doc == old(self).doc,
            r.lints == old(self).lints,
            r.attributes == old(self).attributes,
            r.repr == old(self).repr,
            r.bounds == old(self).bounds,
            r.macros == old(self).macros,
            *final(self) == *final(r),
    {
        self.derives = derives;
        self
    }

    /// Sets the derives.
    pub fn with_derives(self, derives: Vec<String>) -> (r: TypeDef)
        ensures
            r.derives == derives,
            r.ty == self.ty,
            r.vis == self.vis,
            r.doc == self.doc,
            r.lints == self.lints,
            r.attributes == self.attributes,
            r.repr == self.repr,
            r.bounds == self.bounds,
            r.macros == self.macros,
    {
        let mut s = self;
        s.derives = derives;
        s
    }

    /// Gets the derives mutably.
    pub fn derives_mut(&mut self) -> (r: &mut Vec<String>)
        ensures
            *r == old(self).derives,
            final(self).derives == *final(r),
            final(self).ty == old(self).ty,
            final(self).vis == old(self).vis,
            final(self).doc == old(self).doc,
            final(self).lints == old(self).lints,
            final(self).attributes == old(self).attributes,
            final(self).repr == old(self).repr,
            final(self).bounds == old(self).bounds,
            final(self).macros == old(self).macros,
    {
        &mut self.derives
    }

    /// Pushes one entry onto the derives.
    pub fn push_derive(&mut self, derive: &str) -> (r: &mut TypeDef)
        ensures
            r.derives.deep_view() == old(self).derives.deep_view().push(derive@),
            r.ty == old(self).ty,
            r.vis == old(self).vis,
            r.doc == old(self).doc,
            r.lints == old(self).lints,
            r.attributes == old(self).attributes,
            r.repr == old(self).repr,
            r.bounds == old(self).bounds,
            r.macros == old(self).macros,
            *final(self) == *final(r),
    {
        self.derives.push(derive.to_owned());
        proof {
            assert(self.derives.deep_view() =~= old(self).derives.deep_view().push(derive@));
        }
        self
    }

    /// Pushes one entry onto the derives.
    pub fn with_derive(self, derive: &str) -> (r: TypeDef)
        ensures
            r.derives.deep_view() == self.derives.deep_view().push(derive@),
            r.ty == self.ty,
            r.vis == self.vis,
            r.doc == self.doc,
            r.lints == self.lints,
            r.attributes == self.attributes,
            r.repr == self.repr,
            r.bounds == self.bounds,
            r.macros == self.macros,
    {
        let mut s = self;
        s.derives.push(derive.to_owned());
        proof {
            assert(s.derives.deep_view() =~= self.derives.deep_view().push(derive@));
        }
        s
    }

    /// Gets the lints.
    pub fn lints(&self) -> (r: &Vec<Lint>)
        ensures
            *r == self.lints,
    {
        &self.lints
    }

    /// Sets the lints.
    pub fn set_lints(&mut self, lints: Vec<Lint>) -> (r: &mut TypeDef)
        ensures
            r.lints == lints,
            r.ty == old(self).ty,
            r.vis == old(self).vis,
            r.doc == old(self).doc,
            r.derives == old(self).derives,
            r.attributes == old(self).attributes,
            r.repr == old(self).repr,
            r.bounds == old(self).bounds,
            r.macros == old(self).macros,
            *final(self) == *final(r),
    {
        self.lints = lints;
        self
    }

    /// Sets the lints.
    pub fn with_lints(self, lints: Vec<Lint>) -> (r: TypeDef)
        ensures
            r.lints == lints,
            r.ty == self.ty,
            r.vis == self.vis,
            r.doc == self.doc,
            r.derives == self.derives,
            r.attributes == self.attributes,
            r.repr == self.repr,
            r.bounds == self.bounds,
            r.macros == self.macros,
    {
        let mut s = self;
        s.lints = lints;
        s
    }

    /// Gets the lints mutably.
    pub fn lints_mut(&mut self) -> (r: &mut Vec<Lint>)
        ensures
            *r == old(self).lints,
            final(self).lints == *final(r),
            final(self).ty == old(self).ty,
            final(self).vis == old(self).vis,
            final(self).doc == old(self).doc,
            final(self).derives == old(self).derives,
            final(self).attributes == old(self).attributes,
            final(self).repr == old(self).repr,
            final(self).bounds == old(self).bounds,
            final(self).macros == old(self).macros,
    {
        &mut self.lints
    }

    /// Pushes one entry onto the lints.
    pub fn push_lint(&mut self, lint: Lint) -> (r: &mut TypeDef)
        ensures
            r.lints@ == old(self).lints@.push(lint),
            r.ty == old(self).ty,
            r.vis == old(self).vis,
            r.doc == old(self).doc,
            r.derives == old(self).derives,
            r.attributes == old(self).attributes,
            r.repr == old(self).repr,
            r.bounds == old(self).bounds,
            r.macros == old(self).macros,
            *final(self) == *final(r),
    {
        self.lints.push(lint);
        self
    }

    /// Pushes one entry onto the lints.
    pub fn with_lint(self, lint: Lint) -> (r: TypeDef)
        ensures
            r.lints@ == self.lints@.push(lint),
            r.ty == self.ty,
            r.vis == self.vis,
            r.doc == self.doc,
            r.derives == self.derives,
            r.attributes == self.attributes,
            r.repr == self.repr,
            r.bounds == self.bounds,
            r.macros == self.macros,
    {
        let mut s = self;
        s.lints.push(lint);
        s
    }

    /// Gets the attributes.
    pub fn attributes(&self) -> (r: &Vec<String>)
        ensures
            *r == self.attributes,
    {
        &self.attributes
    }

    /// Sets the attributes.
    pub fn set_attributes(&mut self, attributes: Vec<String>) -> (r: &mut TypeDef)
        ensures
            r.attributes == attributes,
            r.ty == old(self).ty,
            r.vis == old(self).vis,
            r.doc == old(self).doc,
            r.derives == old(self).derives,
            r.lints == old(self).lints,
            r.repr == old(self).repr,
            r.bounds == old(self).bounds,
            r.macros == old(self).macros,
            *final(self) == *final(r),
    {
        self.attributes = attributes;
        self
    }

    /// Sets the attributes.
    pub fn with_attributes(self, attributes: Vec<String>) -> (r: TypeDef)
        ensures
            r.attributes == attributes,
            r.ty == self.ty,
            r.vis == self.vis,
            r.doc == self.doc,
            r.derives == self.derives,
            r.lints == self.lints,
            r.repr == self.repr,
            r.bounds == self.bounds,
            r.macros == self.macros,
    {
        let mut s = self;
        s.attributes = attributes;
        s
    }

    /// Gets the attributes mutably.
    pub fn attributes_mut(&mut self) -> (r: &mut Vec<String>)
        ensures
            *r == old(self).attributes,
            final(self).attributes == *final(r),
            final(self).ty == old(self).ty,
            final(self).vis == old(self).vis,
            final(self).doc == old(self).doc,
            final(self).derives == old(self).derives,
            final(self).lints == old(self).lints,
            final(self).repr == old(self).repr,
            final(self).bounds == old(self).bounds,
            final(self).macros == old(self).macros,
    {
        &mut self.attributes
    }

    /// Pushes one entry onto the attributes.
    pub fn push_attribute(&mut self, attribute: &str) -> (r: &mut TypeDef)
        ensures
            r.attributes.deep_view() == old(self).attributes.deep_view().push(attribute@),
            r.ty == old(self).ty,
            r.vis == old(self).vis,
            r.doc == old(self).doc,
            r.derives == old(self).derives,
            r.lints == old(self).lints,
            r.repr == old(self).repr,
            r.bounds == old(self).bounds,
            r.macros == old(self).macros,
            *final(self) == *final(r),
    {
        self.attributes.push(attribute.to_owned());
        proof {
            assert(self.attributes.deep_view() =~= old(self).attributes.deep_view().push(attribute@));
        }
        self
    }

    /// Pushes one entry onto the attributes.
    pub fn with_attribute(self, attribute: &str) -> (r: TypeDef)
        ensures
            r.attributes.deep_view() == self.attributes.deep_view().push(attribute@),
            r.ty == self.ty,
            r.vis == self.vis,
            r.doc == self.doc,
            r.derives == self.derives,
            r.lints == self.lints,
            r.repr == self.repr,
            r.bounds == self.bounds,
            r.macros == self.macros,
    {
        let mut s = self;
        s.attributes.push(attribute.to_owned());
        proof {
            assert(s.attributes.deep_view() =~= self.attributes.deep_view().push(attribute@));
        }
        s
    }

    /// Gets the repr.
    pub fn repr(&self) -> (r: Option<&String>)
        ensures
            self.repr is Some <==> r is Some,
            r matches Some(v) ==> (self.repr matches Some(sv) && *v == sv),
    {
        self.repr.as_ref()
    }

    /// Sets the repr.
    pub fn set_repr(&mut self, repr: Option<String>) -> (r: &mut TypeDef)
        ensures
            r.repr == repr,
            r.ty == old(self).ty,
            r.vis == old(self).vis,
            r.doc == old(self).doc,
            r.derives == old(self).derives,
            r.lints == old(self).lints,
            r.attributes == old(self).attributes,
            r.bounds == old(self).bounds,
            r.macros == old(self).macros,
            *final(self) == *final(r),
    {
        self.repr = repr;
        self
    }

    /// Sets the repr.
    pub fn with_repr(self, repr: Option<String>) -> (r: TypeDef)
        ensures
            r.repr == repr,
            r.ty == self.ty,
            r.vis == self.vis,
            r.doc == self.doc,
            r.derives == self.derives,
            r.lints == self.lints,
            r.attributes == self.attributes,
            r.bounds == self.bounds,
            r.macros == self.macros,
    {
        let mut s = self;
        s.repr = repr;
        s
    }

    /// Gets the bounds.
    pub fn bounds(&self) -> (r: &Vec<Bound>)
        ensures
            *r == self.bounds,
    {
        &self.bounds
    }

    /// Sets the bounds.
    pub fn set_bounds(&mut self, bounds: Vec<Bound>) -> (r: &mut TypeDef)
        ensures
            r.bounds == bounds,
            r.ty == old(self).ty,
            r.vis == old(self).vis,
            r.doc == old(self).doc,
            r.derives == old(self).derives,
            r.lints == old(self).lints,
            r.attributes == old(self).attributes,
            r.repr == old(self).repr,
            r.macros == old(self).macros,
            *final(self) == *final(r),
    {
        self.bounds = bounds;
        self
    }

    /// Sets the bounds.
    pub fn with_bounds(self, bounds: Vec<Bound>) -> (r: TypeDef)
        ensures
            r.bounds == bounds,
            r.ty == self.ty,
            r.vis == self.vis,
            r.doc == self.doc,
            r.derives == self.derives,
            r.lints == self.lints,
            r.attributes == self.attributes,
            r.repr == self.repr,
            r.macros == self.macros,
    {
        let mut s = self;
        s.bounds = bounds;
        s
    }

    /// Gets the bounds mutably.
    pub fn bounds_mut(&mut self) -> (r: &mut Vec<Bound>)
        ensures
            *r == old(self).bounds,
            final(self).bounds == *final(r),
            final(self).ty == old(self).ty,
            final(self).vis == old(self).vis,
            final(self).doc == old(self).doc,
            final(self).derives == old(self).derives,
            final(self).lints == old(self).lints,
            final(self).attributes == old(self).attributes,
            final(self).repr == old(self).repr,
            final(self).macros == old(self).macros,
    {
        &mut self.bounds
    }

    /// Pushes one entry onto the bounds.
    pub fn push_bound(&mut self, bound: Bound) -> (r: &mut TypeDef)
        ensures
            r.bounds@ == old(self).bounds@.push(bound),
            r.ty == old(self).ty,
            r.vis == old(self).vis,
            r.doc == old(self).doc,
            r.derives == old(self).derives,
            r.lints == old(self).lints,
            r.attributes == old(self).attributes,
            r.repr == old(self).repr,
            r.macros == old(self).macros,
            *final(self) == *final(r),
    {
        self.bounds.push(bound);
        self
    }

    /// Pushes one entry onto the bounds.
    pub fn with_bound(self, bound: Bound) -> (r: TypeDef)
        ensures
            r.bounds@ == self.bounds@.push(bound),
            r.ty == self.ty,
            r.vis == self.vis,
            r.doc == self.doc,
            r.derives == self.derives,
            r.lints == self.lints,
            r.attributes == self.attributes,
            r.repr == self.repr,
            r.macros == self.macros,
    {
        let mut s = self;
        s.bounds.push(bound);
        s
    }

    /// Gets the macros.
    pub fn macros(&self) -> (r: &Vec<String>)
        ensures
            *r == self.macros,
    {
        &self.macros
    }

    /// Sets the macros.
    pub fn set_macros(&mut self, macros: Vec<String>) -> (r: &mut TypeDef)
        ensures
            r.macros == macros,
            r.ty == old(self).ty,
            r.vis == old(self).vis,
            r.doc == old(self).doc,
            r.derives == old(self).derives,
            r.lints == old(self).lints,
            r.attributes == old(self).attributes,
            r.repr == old(self).repr,
            r.bounds == old(self).bounds,
            *final(self) == *final(r),
    {
        self.macros = macros;
        self
    }

    /// Sets the macros.
    pub fn with_macros(self, macros: Vec<String>) -> (r: TypeDef)
        ensures
            r.macros == macros,
            r.ty == self.ty,
            r.vis == self.vis,
            r.doc == self.doc,
            r.derives == self.derives,
            r.lints == self.lints,
            r.attributes == self.attributes,
            r.repr == self.repr,
            r.bounds == self.bounds,
    {
        let mut s = self;
        s.macros = macros;
        s
    }

    /// Gets the macros mutably.
    pub fn macros_mut(&mut self) -> (r: &mut Vec<String>)
        ensures
            *r == old(self).macros,
            final(self).macros == *final(r),
            final(self).ty == old(self).ty,
            final(self).vis == old(self).vis,
            final(self).doc == old(self).doc,
            final(self).derives == old(self).derives,
            final(self).lints == old(self).lints,
            final(self).attributes == old(self).attributes,
            final(self).repr == old(self).repr,
            final(self).bounds == old(self).bounds,
    {
        &mut self.macros
    }

    /// Pushes one entry onto the macros.
    pub fn push_macro(&mut self, macro_line: &str) -> (r: &mut TypeDef)
        ensures
            r.macros.deep_view() == old(self).macros.deep_view().push(macro_line@),
            r.ty == old(self).ty,
            r.vis == old(self).vis,
            r.doc == old(self).doc,
            r.derives == old(self).derives,
            r.lints == old(self).lints,
            r.attributes == old(self).attributes,
            r.repr == old(self).repr,
            r.bounds == old(self).bounds,
            *final(self) == *final(r),
    {
        self.macros.push(macro_line.to_owned());
        proof {
            assert(self.macros.deep_view() =~= old(self).macros.deep_view().push(macro_line@));
        }
        self
    }

    /// Pushes one entry onto the macros.
    pub fn with_macro(self, macro_line: &str) -> (r: TypeDef)
        ensures
            r.macros.deep_view() == self.macros.deep_view().push(macro_line@),
            r.ty == self.ty,
            r.vis == self.vis,
            r.doc == self.doc,
            r.derives == self.derives,
            r.lints == self.lints,
            r.attributes == self.attributes,
            r.repr == self.repr,
            r.bounds == self.bounds,
    {
        let mut s = self;
        s.macros.push(macro_line.to_owned());
        proof {
            assert(s.macros.deep_view() =~= self.macros.deep_view().push(macro_line@));
        }
        s
    }


    /// Gets the doc mutably, when one is set.
    pub fn doc_mut(&mut self) -> (r: Option<&mut Doc>)
        ensures
            old(self).doc is None ==> (r is None && final(self).doc is None),
            old(self).doc is Some ==> (r is Some && *r.unwrap() == old(self).doc.unwrap()
                && final(self).doc == Some(*final(r.unwrap()))),
            final(self).ty == old(self).ty,
            final(self).vis == old(self).vis,
            final(self).derives == old(self).derives,
            final(self).lints == old(self).lints,
            final(self).attributes == old(self).attributes,
            final(self).bounds == old(self).bounds,
            final(self).macros == old(self).macros,
            final(self).repr == old(self).repr,
    {
        self.doc.as_mut()
    }

    /// Gets the repr mutably, when one is set.
    pub fn repr_mut(&mut self) -> (r: Option<&mut String>)
        ensures
            old(self).repr is None ==> (r is None && final(self).repr is None),
            old(self).repr is Some ==> (r is Some && *r.unwrap() == old(self).repr.unwrap()
                && final(self).repr == Some(*final(r.unwrap()))),
            final(self).ty == old(self).ty,
            final(self).vis == old(self).vis,
            final(self).derives == old(self).derives,
            final(self).lints == old(self).lints,
            final(self).attributes == old(self).attributes,
            final(self).bounds == old(self).bounds,
            final(self).macros == old(self).macros,
            final(self).doc == old(self).doc,
    {
        self.repr.as_mut()
    }
}

} // verus!
