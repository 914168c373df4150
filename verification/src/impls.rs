use vstd::prelude::*;
use vstd::string::StringExecFns;

use crate::associated_const::AssociatedConst;
use crate::associated_type::AssociatedType;
use crate::bound::{bounds_text, bounds_to_text, Bound};
use crate::formatter::{
    at_start, block_region_text, ends_line, ind, lemma_block_region, lemma_ind_concat,
    lemma_ind_ends, lemma_ind_one, open_text, Formatter,
};
use crate::function::{fn_ok, function_text, lemma_function_text_ends, Function};
use crate::text::{angle_text, angle_to_text, join_strings, join_with, lines_text};
use crate::ty::{type_text, Type};
use crate::visibility::{vis_text, Vis};

verus! {

/// An impl block: a target type, an optional implemented trait, and the
/// block's members.
pub struct Impl {
    /// The type being implemented.
    pub target: Type,
    /// The impl-level generic parameters, written as given.
    pub generics: Vec<String>,
    /// The implemented trait, if this is a trait impl.
    pub impl_trait: Option<Type>,
    /// Associated constants, each with a concrete value.
    pub associated_consts: Vec<AssociatedConst>,
    /// Associated types, each with a concrete definition.
    pub associated_types: Vec<AssociatedType>,
    /// The `where`-clause bounds.
    pub bounds: Vec<Bound>,
    /// Macro lines written verbatim above the block.
    pub macros: Vec<String>,
    /// The block's functions, each with a body.
    pub functions: Vec<Function>,
}

/// The first `i` associated-constant definitions of an impl body.
pub open spec fn impl_consts_text(cs: Seq<AssociatedConst>, i: int) -> Seq<char>
    decreases i,
{
    if 0 < i <= cs.len() {
        impl_consts_text(cs, i - 1) + vis_text(cs[i - 1].concrete_vis) + "const "@ + cs[i
            - 1].name@ + ": "@ + cs[i - 1].ty@ + " = "@ + (match cs[i - 1].concrete_value {
            Option::Some(v) => v@,
            Option::None => Seq::<char>::empty(),
        }) + ";\n"@
    } else {
        Seq::empty()
    }
}

/// The first `i` associated-type definitions of an impl body.
pub open spec fn impl_types_text(ts: Seq<AssociatedType>, i: int) -> Seq<char>
    decreases i,
{
    if 0 < i <= ts.len() {
        impl_types_text(ts, i - 1) + "type "@ + ts[i - 1].ty.name@ + " = "@ + (match ts[i
            - 1].concrete_ty {
            Option::Some(c) => c.0@ + (if c.1@.len() == 0 {
                Seq::<char>::empty()
            } else {
                "<"@ + join_with(c.1.deep_view(), ", "@) + ">"@
            }),
            Option::None => Seq::<char>::empty(),
        }) + ";\n"@
    } else {
        Seq::empty()
    }
}

/// The first `i` functions of an impl body; a blank line precedes each
/// except a first one that follows no associated type.
pub open spec fn impl_fns_text(fs: Seq<Function>, i: int, lead: bool) -> Seq<char>
    decreases i,
{
    if 0 < i <= fs.len() {
        impl_fns_text(fs, i - 1, lead) + (if i > 1 || lead {
            "\n"@
        } else {
            Seq::<char>::empty()
        }) + function_text(fs[i - 1], false)
    } else {
        Seq::empty()
    }
}

/// The associated items written before the functions.
pub open spec fn impl_pre_text(im: Impl) -> Seq<char> {
    impl_consts_text(im.associated_consts@, im.associated_consts@.len() as int) + impl_types_text(
        im.associated_types@,
        im.associated_types@.len() as int,
    )
}

/// The whole impl body.
pub open spec fn impl_body_text(im: Impl) -> Seq<char> {
    impl_pre_text(im) + impl_fns_text(
        im.functions@,
        im.functions@.len() as int,
        im.associated_types@.len() > 0,
    )
}

/// The text before the impl's block: macros, the `impl` keyword, the
/// generics, the trait, the target, and the `where` clause.
pub open spec fn impl_head_text(im: Impl) -> Seq<char> {
    lines_text(im.macros.deep_view(), im.macros.deep_view().len() as int) + "impl"@ + angle_text(
        im.generics.deep_view(),
    ) + (match im.impl_trait {
        Option::None => Seq::<char>::empty(),
        Option::Some(t) => " "@ + type_text(t) + " for"@,
    }) + " "@ + type_text(im.target) + bounds_text(im.bounds@)
}

/// The rendered impl block.
pub open spec fn impl_text(im: Impl) -> Seq<char> {
    impl_head_text(im) + block_region_text(
        ends_line(impl_head_text(im), true),
        impl_body_text(im),
    )
}

/// A renderable impl: every associated constant and type is concrete, and
/// every function has a body.
pub open spec fn impl_ok(im: Impl) -> bool {
    &&& forall|i: int|
        0 <= i < im.associated_consts@.len() ==> (#[trigger] im.associated_consts@[i]).concrete_value is Some
    &&& forall|i: int|
        0 <= i < im.associated_types@.len() ==> (#[trigger] im.associated_types@[i]).concrete_ty is Some
    &&& forall|i: int| 0 <= i < im.functions@.len() ==> fn_ok(#[trigger] im.functions@[i], false)
}

proof fn lemma_impl_consts_ends(cs: Seq<AssociatedConst>, i: int)
    ensures
        ends_line(impl_consts_text(cs, i), true),
    decreases i,
{
    if 0 < i <= cs.len() {
        lemma_impl_consts_ends(cs, i - 1);
        reveal_strlit(";\n");
        assert(";\n"@.len() == 2 && ";\n"@.last() == '\n');
        assert((impl_consts_text(cs, i - 1) + vis_text(cs[i - 1].concrete_vis) + "const "@ + cs[i
            - 1].name@ + ": "@ + cs[i - 1].ty@ + " = "@ + (match cs[i - 1].concrete_value {
            Option::Some(v) => v@,
            Option::None => Seq::<char>::empty(),
        }) + ";\n"@).last() == ";\n"@.last());
    }
}

proof fn lemma_impl_types_ends(ts: Seq<AssociatedType>, i: int)
    ensures
        ends_line(impl_types_text(ts, i), true),
    decreases i,
{
    if 0 < i <= ts.len() {
        lemma_impl_types_ends(ts, i - 1);
        reveal_strlit(";\n");
        assert(";\n"@.len() == 2 && ";\n"@.last() == '\n');
        assert((impl_types_text(ts, i - 1) + "type "@ + ts[i - 1].ty.name@ + " = "@ + (match ts[i
            - 1].concrete_ty {
            Option::Some(c) => c.0@ + (if c.1@.len() == 0 {
                Seq::<char>::empty()
            } else {
                "<"@ + join_with(c.1.deep_view(), ", "@) + ">"@
            }),
            Option::None => Seq::<char>::empty(),
        }) + ";\n"@).last() == ";\n"@.last());
    }
}

proof fn lemma_impl_fns_ends(fs: Seq<Function>, i: int, lead: bool)
    ensures
        ends_line(impl_fns_text(fs, i, lead), true),
    decreases i,
{
    if 0 < i <= fs.len() {
        lemma_impl_fns_ends(fs, i - 1, lead);
        lemma_function_text_ends(fs[i - 1], false);
        assert((impl_fns_text(fs, i - 1, lead) + (if i > 1 || lead {
            "\n"@
        } else {
            Seq::<char>::empty()
        }) + function_text(fs[i - 1], false)).last() == function_text(fs[i - 1], false).last());
    }
}

proof fn lemma_impl_body_upto_ends(im: Impl, i: int)
    ensures
        ends_line(
            impl_pre_text(im) + impl_fns_text(im.functions@, i, im.associated_types@.len() > 0),
            true,
        ),
    decreases i,
{
    let lead = im.associated_types@.len() > 0;
    let pre = impl_pre_text(im);
    lemma_impl_consts_ends(im.associated_consts@, im.associated_consts@.len() as int);
    lemma_impl_types_ends(im.associated_types@, im.associated_types@.len() as int);
    if 0 < i <= im.functions@.len() {
        lemma_function_text_ends(im.functions@[i - 1], false);
        assert((pre + impl_fns_text(im.functions@, i, lead)).last() == function_text(
            im.functions@[i - 1],
            false,
        ).last());
    } else {
        let c = impl_consts_text(im.associated_consts@, im.associated_consts@.len() as int);
        let y = impl_types_text(im.associated_types@, im.associated_types@.len() as int);
        assert(pre + impl_fns_text(im.functions@, i, lead) =~= c + y);
        if y.len() > 0 {
            assert((c + y).last() == y.last());
        } else if c.len() > 0 {
            assert(c + y =~= c);
        }
    }
}

impl Impl {
    /// Creates an impl block for the given target type.
    pub fn new(target: Type) -> (r: Impl)
        ensures
            r.target == target,
            r.generics@.len() == 0,
            r.impl_trait is None,
            r.associated_consts@.len() == 0,
            r.associated_types@.len() == 0,
            r.bounds@.len() == 0,
            r.macros@.len() == 0,
            r.functions@.len() == 0,
    {
        Impl {
            target,
            generics: Vec::new(),
            impl_trait: None,
            associated_consts: Vec::new(),
            associated_types: Vec::new(),
            bounds: Vec::new(),
            macros: Vec::new(),
            functions: Vec::new(),
        }
    }

    /// Gets the implemented trait, if any.
    pub fn impl_trait(&self) -> (r: Option<&Type>)
        ensures
            self.impl_trait is Some <==> r is Some,
            r matches Some(t) ==> (self.impl_trait matches Some(st) && *t == st),
    {
        self.impl_trait.as_ref()
    }

    /// Sets the implemented trait.
    pub fn set_impl_trait(&mut self, ty: Type) -> (r: &mut Impl)
        ensures
            r.impl_trait == Some(ty),
            *r == (Impl { impl_trait: Some(ty), ..*old(self) }),
            *final(self) == *final(r),
    {
        self.impl_trait = Some(ty);
        self
    }

    /// Sets the implemented trait.
    pub fn with_impl_trait(self, ty: Type) -> (r: Impl)
        ensures
            r == (Impl { impl_trait: Some(ty), ..self }),
    {
        let mut s = self;
        s.impl_trait = Some(ty);
        s
    }

    /// Renders the text before the block.
    fn to_head_text(&self) -> (r: String)
        ensures
            r@ == impl_head_text(*self),
    {
        let mut out = String::new();
        let mut i: usize = 0;
        proof {
            assert(out@ + lines_text(self.macros.deep_view(), 0) =~= out@);
        }
        while i < self.macros.len()
            invariant
                i <= self.macros@.len(),
                self.macros.deep_view().len() == self.macros@.len(),
                forall|j: int|
                    0 <= j < self.macros@.len() ==> self.macros.deep_view()[j]
                        == self.macros@[j]@,
                out@ == lines_text(self.macros.deep_view(), i as int),
            decreases self.macros@.len() - i,
        {
            out.append(self.macros[i].as_str());
            out.append("\n");
            proof {
                assert(out@ =~= lines_text(self.macros.deep_view(), i as int + 1));
            }
            i = i + 1;
        }
        out.append("impl");
        let g = angle_to_text(&self.generics);
        out.append(g.as_str());
        match &self.impl_trait {
            Some(t) => {
                out.append(" ");
                let tt = t.to_text();
                out.append(tt.as_str());
                out.append(" for");
            },
            None => {},
        }
        out.append(" ");
        let target = self.target.to_text();
        out.append(target.as_str());
        let b = bounds_to_text(&self.bounds);
        out.append(b.as_str());
        proof {
            assert(out@ =~= impl_head_text(*self));
        }
        out
    }

    /// Renders the associated items of the body.
    fn to_pre_text(&self) -> (r: String)
        requires
            impl_ok(*self),
        ensures
            r@ == impl_pre_text(*self),
    {
        let mut out = String::new();
        let mut i: usize = 0;
        proof {
            assert(out@ + impl_consts_text(self.associated_consts@, 0) =~= out@);
        }
        while i < self.associated_consts.len()
            invariant
                i <= self.associated_consts@.len(),
                impl_ok(*self),
                out@ == impl_consts_text(self.associated_consts@, i as int),
            decreases self.associated_consts@.len() - i,
        {
            let v = self.associated_consts[i].concrete_vis.to_text();
            out.append(v.as_str());
            out.append("const ");
            out.append(self.associated_consts[i].name.as_str());
            out.append(": ");
            out.append(self.associated_consts[i].ty.as_str());
            out.append(" = ");
            match &self.associated_consts[i].concrete_value {
                Some(val) => {
                    out.append(val.as_str());
                },
                None => {
                    proof {
                        assert(false);
                    }
                },
            }
            out.append(";\n");
            proof {
                assert(out@ =~= impl_consts_text(self.associated_consts@, i as int + 1));
            }
            i = i + 1;
        }
        let ghost base = out@;
        let mut i2: usize = 0;
        proof {
            assert(out@ + impl_types_text(self.associated_types@, 0) =~= out@);
        }
        while i2 < self.associated_types.len()
            invariant
                i2 <= self.associated_types@.len(),
                impl_ok(*self),
                out@ == base + impl_types_text(self.associated_types@, i2 as int),
            decreases self.associated_types@.len() - i2,
        {
            out.append("type ");
            out.append(self.associated_types[i2].ty.name.as_str());
            out.append(" = ");
            match &self.associated_types[i2].concrete_ty {
                Some(c) => {
                    out.append(c.0.as_str());
                    if !c.1.is_empty() {
                        out.append("<");
                        let joined = join_strings(&c.1, ", ");
                        out.append(joined.as_str());
                        out.append(">");
                    }
                },
                None => {
                    proof {
                        assert(false);
                    }
                },
            }
            out.append(";\n");
            proof {
                assert(out@ =~= base + impl_types_text(self.associated_types@, i2 as int + 1));
            }
            i2 = i2 + 1;
        }
        proof {
            assert(out@ =~= impl_pre_text(*self));
        }
        out
    }

    /// Writes the impl block, starting at a line start.
    pub fn fmt(&self, fmt: &mut Formatter)
        requires
            old(fmt).wf(),
            at_start(old(fmt).text()),
            impl_ok(*self),
        ensures
            final(fmt).wf(),
            final(fmt).depth() == old(fmt).depth(),
            final(fmt).text() == old(fmt).text() + ind(impl_text(*self), true, old(fmt).depth()),
    {
        let ghost orig = fmt.text();
        let ghost n = fmt.depth();
        let ghost head = impl_head_text(*self);
        let h = self.to_head_text();
        fmt.write_str(h.as_str());
        proof {
            if head.len() == 0 {
                assert(ind(head, true, n) =~= Seq::<char>::empty());
                assert(fmt.text() =~= orig);
                assert(at_start(fmt.text()) == ends_line(head, true));
            } else {
                lemma_ind_ends(head, true, n);
                assert(fmt.text().last() == ind(head, true, n).last());
                assert(at_start(fmt.text()) == ends_line(head, true));
            }
        }
        let ghost e = ends_line(head, true);
        self.fmt_impl_block(fmt);
        proof {
            lemma_ind_concat(head, block_region_text(e, impl_body_text(*self)), true, n);
            assert(impl_text(*self) =~= head + block_region_text(e, impl_body_text(*self)));
            assert(fmt.text() =~= orig + ind(impl_text(*self), true, n));
        }
    }

    /// Writes the impl's brace-delimited body.
    #[verifier::rlimit(100)]
    fn fmt_impl_block(&self, fmt: &mut Formatter)
        requires
            old(fmt).wf(),
            impl_ok(*self),
        ensures
            final(fmt).wf(),
            final(fmt).depth() == old(fmt).depth(),
            final(fmt).text() == old(fmt).text() + ind(
                block_region_text(at_start(old(fmt).text()), impl_body_text(*self)),
                at_start(old(fmt).text()),
                old(fmt).depth(),
            ),
    {
        let ghost orig = fmt.text();
        let ghost e = at_start(orig);
        let ghost n = fmt.depth();
        let ghost lead = self.associated_types@.len() > 0;
        let ghost fl = self.functions@;
        fmt.open_block();
        let ghost t_open = fmt.text();
        let pre = self.to_pre_text();
        fmt.write_str(pre.as_str());
        proof {
            lemma_ind_ends(open_text(e), e, n);
            assert(open_text(e).last() == '\n');
            assert(t_open.last() == ind(open_text(e), e, n).last());
            assert(at_start(t_open));
            assert(fmt.text() == t_open + ind(pre@, true, n + 1));
            lemma_impl_consts_ends(self.associated_consts@, self.associated_consts@.len() as int);
            lemma_impl_types_ends(self.associated_types@, self.associated_types@.len() as int);
            crate::formatter::lemma_ends_concat(
                impl_consts_text(self.associated_consts@, self.associated_consts@.len() as int),
                impl_types_text(self.associated_types@, self.associated_types@.len() as int),
            );
            assert(ends_line(pre@, true));
            if pre@.len() == 0 {
                assert(ind(pre@, true, (n + 1) as nat) =~= Seq::<char>::empty());
                assert(fmt.text() =~= t_open);
            } else {
                lemma_ind_ends(pre@, true, n + 1);
                assert(fmt.text().last() == ind(pre@, true, (n + 1) as nat).last());
            }
            assert(at_start(fmt.text()));
        }
        self.fmt_impl_fns(fmt);
        let ghost fns_full = impl_fns_text(fl, fl.len() as int, lead);
        let ghost body_full = impl_body_text(*self);
        proof {
            lemma_ind_concat(pre@, fns_full, true, n + 1);
            assert(body_full =~= pre@ + fns_full);
            assert(fmt.text() =~= t_open + ind(body_full, true, n + 1));
            lemma_impl_fns_ends(fl, fl.len() as int, lead);
            crate::formatter::lemma_ends_concat(pre@, fns_full);
            if body_full.len() == 0 {
                assert(ind(body_full, true, (n + 1) as nat) =~= Seq::<char>::empty());
                assert(fmt.text() =~= t_open + ind(body_full, true, n + 1));
                assert(fmt.text() =~= t_open);
            } else {
                lemma_ind_ends(body_full, true, n + 1);
                assert(fmt.text().last() == ind(body_full, true, (n + 1) as nat).last());
            }
            assert(at_start(fmt.text()));
        }
        fmt.close_block();
        proof {
            assert(ind(seq!['}'], true, n).last() == '}') by {
                lemma_ind_one('}', true, n);
            }
            assert(fmt.text().last() == '}');
            assert(!at_start(fmt.text()));
        }
        fmt.write_str("\n");
        proof {
            reveal_strlit("\n");
            lemma_ind_one('\n', false, n);
            assert("\n"@ =~= seq!['\n']);
            lemma_block_region(e, body_full, n);
            assert(fmt.text() =~= orig + ind(block_region_text(e, body_full), e, n));
        }
    }

    /// Writes the impl's functions, separated by blank lines.
    #[verifier::rlimit(100)]
    #[verifier::spinoff_prover]
    fn fmt_impl_fns(&self, fmt: &mut Formatter)
        requires
            old(fmt).wf(),
            at_start(old(fmt).text()),
            impl_ok(*self),
        ensures
            final(fmt).wf(),
            final(fmt).depth() == old(fmt).depth(),
            final(fmt).text() == old(fmt).text() + ind(
                impl_fns_text(
                    self.functions@,
                    self.functions@.len() as int,
                    self.associated_types@.len() > 0,
                ),
                true,
                old(fmt).depth(),
            ),
    {
        let ghost orig = fmt.text();
        let ghost n = fmt.depth();
        let ghost lead = self.associated_types@.len() > 0;
        let ghost fl = self.functions@;
        let have_lead = !self.associated_types.is_empty();
        proof {
            assert(impl_fns_text(fl, 0, lead) =~= Seq::<char>::empty());
            assert(orig + Seq::<char>::empty() =~= orig);
        }
        let mut i: usize = 0;
        while i < self.functions.len()
            invariant
                i <= fl.len(),
                fl == self.functions@,
                impl_ok(*self),
                lead == (self.associated_types@.len() > 0),
                have_lead == lead,
                fmt.wf(),
                fmt.depth() == n,
                fmt.text() == orig + ind(impl_fns_text(fl, i as int, lead), true, n),
                at_start(orig),
            decreases fl.len() - i,
        {
            let ghost done = impl_fns_text(fl, i as int, lead);
            proof {
                lemma_impl_fns_ends(fl, i as int, lead);
                if done.len() == 0 {
                    assert(ind(done, true, n) =~= Seq::<char>::empty());
                    assert(fmt.text() =~= orig);
                } else {
                    lemma_ind_ends(done, true, n);
                    assert(fmt.text().last() == ind(done, true, n).last());
                }
                assert(at_start(fmt.text()));
            }
            let ghost sep = if i != 0 || lead {
                "\n"@
            } else {
                Seq::<char>::empty()
            };
            if i != 0 || have_lead {
                fmt.write_str("\n");
                proof {
                    reveal_strlit("\n");
                    lemma_ind_one('\n', true, n);
                    lemma_ind_concat(done, "\n"@, true, n);
                    assert("\n"@ =~= seq!['\n']);
                    assert(fmt.text() =~= orig + ind(done + sep, true, n));
                    lemma_ind_ends(done + sep, true, n);
                    assert(fmt.text().last() == ind(done + sep, true, n).last());
                    assert(at_start(fmt.text()));
                }
            } else {
                proof {
                    assert(done + sep =~= done);
                    assert(fmt.text() == orig + ind(done + sep, true, n));
                }
            }
            self.functions[i].fmt(false, fmt);
            proof {
                lemma_ind_concat(done + sep, function_text(fl[i as int], false), true, n);
                assert((done + sep) + function_text(fl[i as int], false) =~= impl_fns_text(
                    fl,
                    i as int + 1,
                    lead,
                ));
                assert(fmt.text() =~= orig + ind(impl_fns_text(fl, i as int + 1, lead), true, n));
            }
            i = i + 1;
        }
    }

    /// Gets the target.
    pub fn target(&self) -> (r: &Type)
        ensures
            *r == self.target,
    {
        &self.target
    }

    /// Sets the target.
    pub fn set_target(&mut self, target: Type) -> (r: &mut Impl)
        ensures
            r.target == target,
            r.generics == old(self).generics,
            r.impl_trait == old(self).impl_trait,
            r.associated_consts == old(self).associated_consts,
            r.associated_types == old(self).associated_types,
            r.bounds == old(self).bounds,
            r.macros == old(self).macros,
            r.functions == old(self).functions,
            *final(self) == *final(r),
    {
        self.target = target;
        self
    }

    /// Sets the target.
    pub fn with_target(self, target: Type) -> (r: Impl)
        ensures
            r.target == target,
            r.generics == self.generics,
            r.impl_trait == self.impl_trait,
            r.associated_consts == self.associated_consts,
            r.associated_types == self.associated_types,
            r.bounds == self.bounds,
            r.macros == self.macros,
            r.functions == self.functions,
    {
        let mut s = self;
        s.target = target;
        s
    }

    /// Gets the target mutably.
    pub fn target_mut(&mut self) -> (r: &mut Type)
        ensures
            *r == old(self).target,
            final(self).target == *final(r),
            final(self).generics == old(self).generics,
            final(self).impl_trait == old(self).impl_trait,
            final(self).associated_consts == old(self).associated_consts,
            final(self).associated_types == old(self).associated_types,
            final(self).bounds == old(self).bounds,
            final(self).macros == old(self).macros,
            final(self).functions == old(self).functions,
    {
        &mut self.target
    }

    /// Gets the generics.
    pub fn generics(&self) -> (r: &Vec<String>)
        ensures
            *r == self.generics,
    {
        &self.generics
    }

    /// Sets the generics.
    pub fn set_generics(&mut self, generics: Vec<String>) -> (r: &mut Impl)
        ensures
            r.generics == generics,
            r.target == old(self).target,
            r.impl_trait == old(self).impl_trait,
            r.associated_consts == old(self).associated_consts,
            r.associated_types == old(self).associated_types,
            r.bounds == old(self).bounds,
            r.macros == old(self).macros,
            r.functions == old(self).functions,
            *final(self) == *final(r),
    {
        self.generics = generics;
        self
    }

    /// Sets the generics.
    pub fn with_generics(self, generics: Vec<String>) -> (r: Impl)
        ensures
            r.generics == generics,
            r.target == self.target,
            r.impl_trait == self.impl_trait,
            r.associated_consts == self.associated_consts,
            r.associated_types == self.associated_types,
            r.bounds == self.bounds,
            r.macros == self.macros,
            r.functions == self.functions,
    {
        let mut s = self;
        s.generics = generics;
        s
    }

    /// Gets the generics mutably.
    pub fn generics_mut(&mut self) -> (r: &mut Vec<String>)
        ensures
            *r == old(self).generics,
            final(self).generics == *final(r),
            final(self).target == old(self).target,
            final(self).impl_trait == old(self).impl_trait,
            final(self).associated_consts == old(self).associated_consts,
            final(self).associated_types == old(self).associated_types,
            final(self).bounds == old(self).bounds,
            final(self).macros == old(self).macros,
            final(self).functions == old(self).functions,
    {
        &mut self.generics
    }

    /// Pushes one entry onto the generic list.
    pub fn push_generic(&mut self, generic: &str) -> (r: &mut Impl)
        ensures
            r.generics.deep_view() == old(self).generics.deep_view().push(generic@),
            r.target == old(self).target,
            r.impl_trait == old(self).impl_trait,
            r.associated_consts == old(self).associated_consts,
            r.associated_types == old(self).associated_types,
            r.bounds == old(self).bounds,
            r.macros == old(self).macros,
            r.functions == old(self).functions,
            *final(self) == *final(r),
    {
        self.generics.push(generic.to_owned());
        proof {
            assert(self.generics.deep_view() =~= old(self).generics.deep_view().push(generic@));
        }
        self
    }

    /// Pushes one entry onto the generic list.
    pub fn with_generic(self, generic: &str) -> (r: Impl)
        ensures
            r.generics.deep_view() == self.generics.deep_view().push(generic@),
            r.target == self.target,
            r.impl_trait == self.impl_trait,
            r.associated_consts == self.associated_consts,
            r.associated_types == self.associated_types,
            r.bounds == self.bounds,
            r.macros == self.macros,
            r.functions == self.functions,
    {
        let mut s = self;
        s.generics.push(generic.to_owned());
        proof {
            assert(s.generics.deep_view() =~= self.generics.deep_view().push(generic@));
        }
        s
    }

    /// Gets the associated consts.
    pub fn associated_consts(&self) -> (r: &Vec<AssociatedConst>)
        ensures
            *r == self.associated_consts,
    {
        &self.associated_consts
    }

    /// Sets the associated consts.
    pub fn set_associated_consts(&mut self, associated_consts: Vec<AssociatedConst>) -> (r: &mut Impl)
        ensures
            r.associated_consts == associated_consts,
            r.target == old(self).target,
            r.generics == old(self).generics,
            r.impl_trait == old(self).impl_trait,
            r.associated_types == old(self).associated_types,
            r.bounds == old(self).bounds,
            r.macros == old(self).macros,
            r.functions == old(self).functions,
            *final(self) == *final(r),
    {
        self.associated_consts = associated_consts;
        self
    }

    /// Sets the associated consts.
    pub fn with_associated_consts(self, associated_consts: Vec<AssociatedConst>) -> (r: Impl)
        ensures
            r.associated_consts == associated_consts,
            r.target == self.target,
            r.generics == self.generics,
            r.impl_trait == self.impl_trait,
            r.associated_types == self.associated_types,
            r.bounds == self.bounds,
            r.macros == self.macros,
            r.functions == self.functions,
    {
        let mut s = self;
        s.associated_consts = associated_consts;
        s
    }

    /// Gets the associated consts mutably.
    pub fn associated_consts_mut(&mut self) -> (r: &mut Vec<AssociatedConst>)
        ensures
            *r == old(self).associated_consts,
            final(self).associated_consts == *final(r),
            final(self).target == old(self).target,
            final(self).generics == old(self).generics,
            final(self).impl_trait == old(self).impl_trait,
            final(self).associated_types == old(self).associated_types,
            final(self).bounds == old(self).bounds,
            final(self).macros == old(self).macros,
            final(self).functions == old(self).functions,
    {
        &mut self.associated_consts
    }

    /// Pushes one entry onto the associated const list.
    pub fn push_associated_const(&mut self, associated_const: AssociatedConst) -> (r: &mut Impl)
        ensures
            r.associated_consts@ == old(self).associated_consts@.push(associated_const),
            r.target == old(self).target,
            r.generics == old(self).generics,
            r.impl_trait == old(self).impl_trait,
            r.associated_types == old(self).associated_types,
            r.bounds == old(self).bounds,
            r.macros == old(self).macros,
            r.functions == old(self).functions,
            *final(self) == *final(r),
    {
        self.associated_consts.push(associated_const);
        self
    }

    /// Pushes one entry onto the associated const list.
    pub fn with_associated_const(self, associated_const: AssociatedConst) -> (r: Impl)
        ensures
            r.associated_consts@ == self.associated_consts@.push(associated_const),
            r.target == self.target,
            r.generics == self.generics,
            r.impl_trait == self.impl_trait,
            r.associated_types == self.associated_types,
            r.bounds == self.bounds,
            r.macros == self.macros,
            r.functions == self.functions,
    {
        let mut s = self;
        s.associated_consts.push(associated_const);
        s
    }

    /// Gets the associated types.
    pub fn associated_type(&self) -> (r: &Vec<AssociatedType>)
        ensures
            *r == self.associated_types,
    {
        &self.associated_types
    }

    /// Sets the associated types.
    pub fn set_associated_types(&mut self, associated_types: Vec<AssociatedType>) -> (r: &mut Impl)
        ensures
            r.associated_types == associated_types,
            r.target == old(self).target,
            r.generics == old(self).generics,
            r.impl_trait == old(self).impl_trait,
            r.associated_consts == old(self).associated_consts,
            r.bounds == old(self).bounds,
            r.macros == old(self).macros,
            r.functions == old(self).functions,
            *final(self) == *final(r),
    {
        self.associated_types = associated_types;
        self
    }

    /// Sets the associated types.
    pub fn with_associated_types(self, associated_types: Vec<AssociatedType>) -> (r: Impl)
        ensures
            r.associated_types == associated_types,
            r.target == self.target,
            r.generics == self.generics,
            r.impl_trait == self.impl_trait,
            r.associated_consts == self.associated_consts,
            r.bounds == self.bounds,
            r.macros == self.macros,
            r.functions == self.functions,
    {
        let mut s = self;
        s.associated_types = associated_types;
        s
    }

    /// Gets the associated types mutably.
    pub fn associated_types_mut(&mut self) -> (r: &mut Vec<AssociatedType>)
        ensures
            *r == old(self).associated_types,
            final(self).associated_types == *final(r),
            final(self).target == old(self).target,
            final(self).generics == old(self).generics,
            final(self).impl_trait == old(self).impl_trait,
            final(self).associated_consts == old(self).associated_consts,
            final(self).bounds == old(self).bounds,
            final(self).macros == old(self).macros,
            final(self).functions == old(self).functions,
    {
        &mut self.associated_types
    }

    /// Pushes one entry onto the associated type list.
    pub fn push_associated_type(&mut self, associated_type: AssociatedType) -> (r: &mut Impl)
        ensures
            r.associated_types@ == old(self).associated_types@.push(associated_type),
            r.target == old(self).target,
            r.generics == old(self).generics,
            r.impl_trait == old(self).impl_trait,
            r.associated_consts == old(self).associated_consts,
            r.bounds == old(self).bounds,
            r.macros == old(self).macros,
            r.functions == old(self).functions,
            *final(self) == *final(r),
    {
        self.associated_types.push(associated_type);
        self
    }

    /// Pushes one entry onto the associated type list.
    pub fn with_associated_type(self, associated_type: AssociatedType) -> (r: Impl)
        ensures
            r.associated_types@ == self.associated_types@.push(associated_type),
            r.target == self.target,
            r.generics == self.generics,
            r.impl_trait == self.impl_trait,
            r.associated_consts == self.associated_consts,
            r.bounds == self.bounds,
            r.macros == self.macros,
            r.functions == self.functions,
    {
        let mut s = self;
        s.associated_types.push(associated_type);
        s
    }

    /// Gets the bounds.
    pub fn bounds(&self) -> (r: &Vec<Bound>)
        ensures
            *r == self.bounds,
    {
        &self.bounds
    }

    /// Sets the bounds.
    pub fn set_bounds(&mut self, bounds: Vec<Bound>) -> (r: &mut Impl)
        ensures
            r.bounds == bounds,
            r.target == old(self).target,
            r.generics == old(self).generics,
            r.impl_trait == old(self).impl_trait,
            r.associated_consts == old(self).associated_consts,
            r.associated_types == old(self).associated_types,
            r.macros == old(self).macros,
            r.functions == old(self).functions,
            *final(self) == *final(r),
    {
        self.bounds = bounds;
        self
    }

    /// Sets the bounds.
    pub fn with_bounds(self, bounds: Vec<Bound>) -> (r: Impl)
        ensures
            r.bounds == bounds,
            r.target == self.target,
            r.generics == self.generics,
            r.impl_trait == self.impl_trait,
            r.associated_consts == self.associated_consts,
            r.associated_types == self.associated_types,
            r.macros == self.macros,
            r.functions == self.functions,
    {
        let mut s = self;
        s.bounds = bounds;
        s
    }

    /// Gets the bounds mutably.
    pub fn bounds_mut(&mut self) -> (r: &mut Vec<Bound>)
        ensures
            *r == old(self).bounds,
            final(self).bounds == *final(r),
            final(self).target == old(self).target,
            final(self).generics == old(self).generics,
            final(self).impl_trait == old(self).impl_trait,
            final(self).associated_consts == old(self).associated_consts,
            final(self).associated_types == old(self).associated_types,
            final(self).macros == old(self).macros,
            final(self).functions == old(self).functions,
    {
        &mut self.bounds
    }

    /// Pushes one entry onto the bound list.
    pub fn push_bound(&mut self, bound: Bound) -> (r: &mut Impl)
        ensures
            r.bounds@ == old(self).bounds@.push(bound),
            r.target == old(self).target,
            r.generics == old(self).generics,
            r.impl_trait == old(self).impl_trait,
            r.associated_consts == old(self).associated_consts,
            r.associated_types == old(self).associated_types,
            r.macros == old(self).macros,
            r.functions == old(self).functions,
            *final(self) == *final(r),
    {
        self.bounds.push(bound);
        self
    }

    /// Pushes one entry onto the bound list.
    pub fn with_bound(self, bound: Bound) -> (r: Impl)
        ensures
            r.bounds@ == self.bounds@.push(bound),
            r.target == self.target,
            r.generics == self.generics,
            r.impl_trait == self.impl_trait,
            r.associated_consts == self.associated_consts,
            r.associated_types == self.associated_types,
            r.macros == self.macros,
            r.functions == self.functions,
    {
        let mut s = self;
        s.bounds.push(bound);
        s
    }

    /// Gets the macros.
    pub fn macros(&self) -> (r: &Vec<String>)
        ensures
            *r == self.macros,
    {
        &self.macros
    }

    /// Sets the macros.
    pub fn set_macros(&mut self, macros: Vec<String>) -> (r: &mut Impl)
        ensures
            r.macros == macros,
            r.target == old(self).target,
            r.generics == old(self).generics,
            r.impl_trait == old(self).impl_trait,
            r.associated_consts == old(self).associated_consts,
            r.associated_types == old(self).associated_types,
            r.bounds == old(self).bounds,
            r.functions == old(self).functions,
            *final(self) == *final(r),
    {
        self.macros = macros;
        self
    }

    /// Sets the macros.
    pub fn with_macros(self, macros: Vec<String>) -> (r: Impl)
        ensures
            r.macros == macros,
            r.target == self.target,
            r.generics == self.generics,
            r.impl_trait == self.impl_trait,
            r.associated_consts == self.associated_consts,
            r.associated_types == self.associated_types,
            r.bounds == self.bounds,
            r.functions == self.functions,
    {
        let mut s = self;
        s.macros = macros;
        s
    }

    /// Gets the macros mutably.
    pub fn macros_mut(&mut self) -> (r: &mut Vec<String>)
        ensures
            *r == old(self).macros,
            final(self).macros == *final(r),
            final(self).target == old(self).target,
            final(self).generics == old(self).generics,
            final(self).impl_trait == old(self).impl_trait,
            final(self).associated_consts == old(self).associated_consts,
            final(self).associated_types == old(self).associated_types,
            final(self).bounds == old(self).bounds,
            final(self).functions == old(self).functions,
    {
        &mut self.macros
    }

    /// Pushes one entry onto the macro line list.
    pub fn push_macro(&mut self, macro_line: &str) -> (r: &mut Impl)
        ensures
            r.macros.deep_view() == old(self).macros.deep_view().push(macro_line@),
            r.target == old(self).target,
            r.generics == old(self).generics,
            r.impl_trait == old(self).impl_trait,
            r.associated_consts == old(self).associated_consts,
            r.associated_types == old(self).associated_types,
            r.bounds == old(self).bounds,
            r.functions == old(self).functions,
            *final(self) == *final(r),
    {
        self.macros.push(macro_line.to_owned());
        proof {
            assert(self.macros.deep_view() =~= old(self).macros.deep_view().push(macro_line@));
        }
        self
    }

    /// Pushes one entry onto the macro line list.
    pub fn with_macro(self, macro_line: &str) -> (r: Impl)
        ensures
            r.macros.deep_view() == self.macros.deep_view().push(macro_line@),
            r.target == self.target,
            r.generics == self.generics,
            r.impl_trait == self.impl_trait,
            r.associated_consts == self.associated_consts,
            r.associated_types == self.associated_types,
            r.bounds == self.bounds,
            r.functions == self.functions,
    {
        let mut s = self;
        s.macros.push(macro_line.to_owned());
        proof {
            assert(s.macros.deep_view() =~= self.macros.deep_view().push(macro_line@));
        }
        s
    }

    /// Gets the functions.
    pub fn functions(&self) -> (r: &Vec<Function>)
        ensures
            *r == self.functions,
    {
        &self.functions
    }

    /// Sets the functions.
    pub fn set_functions(&mut self, functions: Vec<Function>) -> (r: &mut Impl)
        ensures
            r.functions == functions,
            r.target == old(self).target,
            r.generics == old(self).generics,
            r.impl_trait == old(self).impl_trait,
            r.associated_consts == old(self).associated_consts,
            r.associated_types == old(self).associated_types,
            r.bounds == old(self).bounds,
            r.macros == old(self).macros,
            *final(self) == *final(r),
    {
        self.functions = functions;
        self
    }

    /// Sets the functions.
    pub fn with_functions(self, functions: Vec<Function>) -> (r: Impl)
        ensures
            r.functions == functions,
            r.target == self.target,
            r.generics == self.generics,
            r.impl_trait == self.impl_trait,
            r.associated_consts == self.associated_consts,
            r.associated_types == self.associated_types,
            r.bounds == self.bounds,
            r.macros == self.macros,
    {
        let mut s = self;
        s.functions = functions;
        s
    }

    /// Gets the functions mutably.
    pub fn functions_mut(&mut self) -> (r: &mut Vec<Function>)
        ensures
            *r == old(self).functions,
            final(self).functions == *final(r),
            final(self).target == old(self).target,
            final(self).generics == old(self).generics,
            final(self).impl_trait == old(self).impl_trait,
            final(self).associated_consts == old(self).associated_consts,
            final(self).associated_types == old(self).associated_types,
            final(self).bounds == old(self).bounds,
            final(self).macros == old(self).macros,
    {
        &mut self.functions
    }

    /// Pushes one entry onto the function list.
    pub fn push_function(&mut self, function: Function) -> (r: &mut Impl)
        ensures
            r.functions@ == old(self).functions@.push(function),
            r.target == old(self).target,
            r.generics == old(self).generics,
            r.impl_trait == old(self).impl_trait,
            r.associated_consts == old(self).associated_consts,
            r.associated_types == old(self).associated_types,
            r.bounds == old(self).bounds,
            r.macros == old(self).macros,
            *final(self) == *final(r),
    {
        self.functions.push(function);
        self
    }

    /// Pushes one entry onto the function list.
    pub fn with_function(self, function: Function) -> (r: Impl)
        ensures
            r.functions@ == self.functions@.push(function),
            r.target == self.target,
            r.generics == self.generics,
            r.impl_trait == self.impl_trait,
            r.associated_consts == self.associated_consts,
            r.associated_types == self.associated_types,
            r.bounds == self.bounds,
            r.macros == self.macros,
    {
        let mut s = self;
        s.functions.push(function);
        s
    }


    /// Gets the impl trait mutably, when one is set.
    pub fn impl_trait_mut(&mut self) -> (r: Option<&mut Type>)
        ensures
            old(self).impl_trait is None ==> (r is None && final(self).impl_trait is None),
            old(self).impl_trait is Some ==> (r is Some && *r.unwrap() == old(self).impl_trait.unwrap()
                && final(self).impl_trait == Some(*final(r.unwrap()))),
            final(self).target == old(self).target,
            final(self).generics == old(self).generics,
            final(self).associated_consts == old(self).associated_consts,
            final(self).associated_types == old(self).associated_types,
            final(self).bounds == old(self).bounds,
            final(self).macros == old(self).macros,
            final(self).functions == old(self).functions,
    {
        self.impl_trait.as_mut()
    }
}

} // verus!
