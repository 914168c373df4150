use vstd::prelude::*;
use vstd::string::StringExecFns;

use crate::associated_const::AssociatedConst;
use crate::associated_type::AssociatedType;
use crate::bound::{bound_rhs_text, Bound};
use crate::doc::Doc;
use crate::formatter::{
    at_start, block_region_text, ends_line, ind, lemma_block_region, lemma_ind_concat,
    lemma_ind_ends, lemma_ind_one, open_text, Formatter,
};
use crate::function::{fn_ok, function_text, lemma_function_text_ends, Function};
use crate::generic_parameter::GenericParameter;
use crate::lint::Lint;
use crate::text::join_strings;
use crate::ty::Type;
use crate::type_def::{attr_lines_text, head_text, TypeDef};
use crate::visibility::Vis;

verus! {

/// A trait declaration: the shared head, parent traits, associated items
/// and member functions.
pub struct Trait {
    /// The declaration head.
    pub type_def: TypeDef,
    /// The parent traits after the name.
    pub parents: Vec<Type>,
    /// Associated constants, declared without values.
    pub associated_consts: Vec<AssociatedConst>,
    /// Attribute bodies, each written as `#[...]`.
    pub attributes: Vec<String>,
    /// Associated types, declared with their bounds.
    pub associated_types: Vec<AssociatedType>,
    /// Member functions; one without a body renders as a declaration.
    pub functions: Vec<Function>,
}

/// The first `i` associated-constant declarations of a trait body.
pub open spec fn trait_consts_text(cs: Seq<AssociatedConst>, i: int) -> Seq<char>
    decreases i,
{
    if 0 < i <= cs.len() {
        trait_consts_text(cs, i - 1) + "const "@ + cs[i - 1].name@ + ": "@ + cs[i - 1].ty@
            + ";\n"@
    } else {
        Seq::empty()
    }
}

/// The first `i` associated-type declarations of a trait body.
pub open spec fn trait_types_text(ts: Seq<AssociatedType>, i: int) -> Seq<char>
    decreases i,
{
    if 0 < i <= ts.len() {
        trait_types_text(ts, i - 1) + "type "@ + ts[i - 1].ty.name@ + (if ts[i
            - 1].ty.traits@.len() == 0 {
            Seq::<char>::empty()
        } else {
            ": "@ + bound_rhs_text(ts[i - 1].ty.traits.deep_view())
        }) + ";\n"@
    } else {
        Seq::empty()
    }
}

/// The first `i` member functions; a blank line precedes each one except
/// a very first one that follows no associated item (`lead` is false).
pub open spec fn trait_fns_text(fs: Seq<Function>, i: int, lead: bool) -> Seq<char>
    decreases i,
{
    if 0 < i <= fs.len() {
        trait_fns_text(fs, i - 1, lead) + (if i > 1 || lead {
            "\n"@
        } else {
            Seq::<char>::empty()
        }) + function_text(fs[i - 1], true)
    } else {
        Seq::empty()
    }
}

/// The associated items written before the member functions.
pub open spec fn trait_pre_text(t: Trait) -> Seq<char> {
    trait_consts_text(t.associated_consts@, t.associated_consts@.len() as int) + trait_types_text(
        t.associated_types@,
        t.associated_types@.len() as int,
    )
}

/// The whole trait body.
pub open spec fn trait_body_text(t: Trait) -> Seq<char> {
    trait_pre_text(t) + trait_fns_text(
        t.functions@,
        t.functions@.len() as int,
        t.associated_consts@.len() > 0 || t.associated_types@.len() > 0,
    )
}

/// The text before the trait's block: attributes, then the head with the
/// parents.
pub open spec fn trait_head_all_text(t: Trait) -> Seq<char> {
    attr_lines_text(t.attributes.deep_view(), t.attributes.deep_view().len() as int) + head_text(
        t.type_def,
        "trait"@,
        t.parents@,
    )
}

/// The rendered trait declaration.
pub open spec fn trait_text(t: Trait) -> Seq<char> {
    trait_head_all_text(t) + block_region_text(
        ends_line(trait_head_all_text(t), true),
        trait_body_text(t),
    )
}

/// A renderable trait: every member function is a valid trait member.
pub open spec fn trait_ok(t: Trait) -> bool {
    forall|i: int| 0 <= i < t.functions@.len() ==> fn_ok(#[trigger] t.functions@[i], true)
}

/// The associated-item lines end their line or are absent.
proof fn lemma_trait_consts_ends(cs: Seq<AssociatedConst>, i: int)
    ensures
        ends_line(trait_consts_text(cs, i), true),
    decreases i,
{
    if 0 < i <= cs.len() {
        lemma_trait_consts_ends(cs, i - 1);
        reveal_strlit(";\n");
        assert(";\n"@.len() == 2 && ";\n"@.last() == '\n');
        assert(trait_consts_text(cs, i).last() == ';' || trait_consts_text(cs, i).last() == '\n');
        assert((trait_consts_text(cs, i - 1) + "const "@ + cs[i - 1].name@ + ": "@ + cs[i - 1].ty@
            + ";\n"@).last() == ";\n"@.last());
    }
}

proof fn lemma_trait_types_ends(ts: Seq<AssociatedType>, i: int)
    ensures
        ends_line(trait_types_text(ts, i), true),
    decreases i,
{
    if 0 < i <= ts.len() {
        lemma_trait_types_ends(ts, i - 1);
        reveal_strlit(";\n");
        assert(";\n"@.len() == 2 && ";\n"@.last() == '\n');
        assert((trait_types_text(ts, i - 1) + "type "@ + ts[i - 1].ty.name@ + (if ts[i
            - 1].ty.traits@.len() == 0 {
            Seq::<char>::empty()
        } else {
            ": "@ + bound_rhs_text(ts[i - 1].ty.traits.deep_view())
        }) + ";\n"@).last() == ";\n"@.last());
    }
}

proof fn lemma_trait_fns_ends(fs: Seq<Function>, i: int, lead: bool)
    ensures
        ends_line(trait_fns_text(fs, i, lead), true),
    decreases i,
{
    if 0 < i <= fs.len() {
        lemma_trait_fns_ends(fs, i - 1, lead);
        lemma_function_text_ends(fs[i - 1], true);
        assert((trait_fns_text(fs, i - 1, lead) + (if i > 1 || lead {
            "\n"@
        } else {
            Seq::<char>::empty()
        }) + function_text(fs[i - 1], true)).last() == function_text(fs[i - 1], true).last());
    }
}

/// One more member function extends the rendered member list by its
/// separator and its text.
proof fn lemma_trait_fns_step(fs: Seq<Function>, i: int, lead: bool)
    requires
        0 <= i < fs.len(),
    ensures
        trait_fns_text(fs, i + 1, lead) == (trait_fns_text(fs, i, lead) + (if i != 0 || lead {
            "\n"@
        } else {
            Seq::<char>::empty()
        })) + function_text(fs[i], true),
{
    assert(trait_fns_text(fs, i + 1, lead) =~= (trait_fns_text(fs, i, lead) + (if i != 0 || lead {
        "\n"@
    } else {
        Seq::<char>::empty()
    })) + function_text(fs[i], true));
}

/// A trait body, up to any point between members, ends its line.
proof fn lemma_trait_body_upto_ends(t: Trait, i: int)
    ensures
        ends_line(
            trait_pre_text(t) + trait_fns_text(
                t.functions@,
                i,
                t.associated_consts@.len() > 0 || t.associated_types@.len() > 0,
            ),
            true,
        ),
    decreases i,
{
    let lead = t.associated_consts@.len() > 0 || t.associated_types@.len() > 0;
    let pre = trait_pre_text(t);
    lemma_trait_consts_ends(t.associated_consts@, t.associated_consts@.len() as int);
    lemma_trait_types_ends(t.associated_types@, t.associated_types@.len() as int);
    if 0 < i <= t.functions@.len() {
        lemma_function_text_ends(t.functions@[i - 1], true);
        assert((pre + trait_fns_text(t.functions@, i, lead)).last() == function_text(
            t.functions@[i - 1],
            true,
        ).last());
    } else {
        let c = trait_consts_text(t.associated_consts@, t.associated_consts@.len() as int);
        let y = trait_types_text(t.associated_types@, t.associated_types@.len() as int);
        assert(pre + trait_fns_text(t.functions@, i, lead) =~= c + y);
        if y.len() > 0 {
            assert((c + y).last() == y.last());
        } else if c.len() > 0 {
            assert(c + y =~= c);
        }
    }
}

impl Trait {
    /// Creates a trait with the given name.
    pub fn new(name: &str) -> (r: Trait)
        ensures
            r.type_def.ty.name@ == name@,
            r.type_def.ty.generics@.len() == 0,
            r.type_def.vis is Private,
            r.type_def.doc is None,
            r.parents@.len() == 0,
            r.associated_consts@.len() == 0,
            r.attributes@.len() == 0,
            r.associated_types@.len() == 0,
            r.functions@.len() == 0,
            r.type_def.derives@.len() == 0,
            r.type_def.lints@.len() == 0,
            r.type_def.attributes@.len() == 0,
            r.type_def.repr is None,
            r.type_def.bounds@.len() == 0,
            r.type_def.macros@.len() == 0,
    {
        Trait {
            type_def: TypeDef::new(name),
            parents: Vec::new(),
            associated_consts: Vec::new(),
            attributes: Vec::new(),
            associated_types: Vec::new(),
            functions: Vec::new(),
        }
    }

    /// Renders the associated-item lines of the body.
    fn to_pre_text(&self) -> (r: String)
        ensures
            r@ == trait_pre_text(*self),
    {
        let mut out = String::new();
        let mut i: usize = 0;
        proof {
            assert(out@ + trait_consts_text(self.associated_consts@, 0) =~= out@);
        }
        while i < self.associated_consts.len()
            invariant
                i <= self.associated_consts@.len(),
                out@ == trait_consts_text(self.associated_consts@, i as int),
            decreases self.associated_consts@.len() - i,
        {
            out.append("const ");
            out.append(self.associated_consts[i].name.as_str());
            out.append(": ");
            out.append(self.associated_consts[i].ty.as_str());
            out.append(";\n");
            proof {
                assert(out@ =~= trait_consts_text(self.associated_consts@, i as int + 1));
            }
            i = i + 1;
        }
        let ghost base = out@;
        let mut i2: usize = 0;
        proof {
            assert(out@ + trait_types_text(self.associated_types@, 0) =~= out@);
        }
        while i2 < self.associated_types.len()
            invariant
                i2 <= self.associated_types@.len(),
                out@ == base + trait_types_text(self.associated_types@, i2 as int),
            decreases self.associated_types@.len() - i2,
        {
            out.append("type ");
            out.append(self.associated_types[i2].ty.name.as_str());
            if !self.associated_types[i2].ty.traits.is_empty() {
                out.append(": ");
                let rhs = join_strings(&self.associated_types[i2].ty.traits, " + ");
                out.append(rhs.as_str());
            }
            out.append(";\n");
            proof {
                assert(out@ =~= base + trait_types_text(self.associated_types@, i2 as int + 1));
            }
            i2 = i2 + 1;
        }
        proof {
            assert(out@ =~= trait_pre_text(*self));
        }
        out
    }

    /// Writes the trait declaration, starting at a line start.
    pub fn fmt(&self, fmt: &mut Formatter)
        requires
            old(fmt).wf(),
            at_start(old(fmt).text()),
            trait_ok(*self),
        ensures
            final(fmt).wf(),
            final(fmt).depth() == old(fmt).depth(),
            final(fmt).text() == old(fmt).text() + ind(trait_text(*self), true, old(fmt).depth()),
    {
        let ghost orig = fmt.text();
        let ghost n = fmt.depth();
        let ghost head = trait_head_all_text(*self);
        let mut attrs = String::new();
        let mut ai: usize = 0;
        proof {
            assert(attrs@ + attr_lines_text(self.attributes.deep_view(), 0) =~= attrs@);
        }
        while ai < self.attributes.len()
            invariant
                ai <= self.attributes@.len(),
                self.attributes.deep_view().len() == self.attributes@.len(),
                forall|j: int|
                    0 <= j < self.attributes@.len() ==> self.attributes.deep_view()[j]
                        == self.attributes@[j]@,
                attrs@ == attr_lines_text(self.attributes.deep_view(), ai as int),
            decreases self.attributes@.len() - ai,
        {
            attrs.append("#[");
            attrs.append(self.attributes[ai].as_str());
            attrs.append("]\n");
            proof {
                assert(attrs@ =~= attr_lines_text(self.attributes.deep_view(), ai as int + 1));
            }
            ai = ai + 1;
        }
        fmt.write_str(attrs.as_str());
        proof {
            crate::type_def::lemma_attr_lines_ends(
                self.attributes.deep_view(),
                self.attributes.deep_view().len() as int,
            );
            if attrs@.len() == 0 {
                assert(ind(attrs@, true, n) =~= Seq::<char>::empty());
                assert(fmt.text() =~= orig);
                assert(at_start(fmt.text()));
            } else {
                lemma_ind_ends(attrs@, true, n);
                assert(fmt.text().last() == ind(attrs@, true, n).last());
                assert(at_start(fmt.text()));
            }
        }
        self.type_def.fmt_head("trait", &self.parents, fmt);
        proof {
            lemma_ind_concat(attrs@, head_text(self.type_def, "trait"@, self.parents@), true, n);
            assert(fmt.text() =~= orig + ind(head, true, n));
            if head.len() == 0 {
                assert(ind(head, true, n) =~= Seq::<char>::empty());
                assert(fmt.text() =~= orig);
                assert(at_start(fmt.text()) == ends_line(head, true));
            } else {
                lemma_ind_ends(head, true, n);
                assert(fmt.text().last() == ind(head, true, n).last());
                assert(at_start(fmt.text()) == ends_line(head, true));
            }
        }
        let ghost e = ends_line(head, true);
        self.fmt_trait_block(fmt);
        proof {
            lemma_ind_concat(head, block_region_text(e, trait_body_text(*self)), true, n);
            assert(trait_text(*self) =~= head + block_region_text(e, trait_body_text(*self)));
            assert(fmt.text() =~= orig + ind(trait_text(*self), true, n));
        }
    }

    /// Writes the trait's brace-delimited body.
    #[verifier::rlimit(100)]
    #[verifier::spinoff_prover]
    fn fmt_trait_block(&self, fmt: &mut Formatter)
        requires
            old(fmt).wf(),
            trait_ok(*self),
        ensures
            final(fmt).wf(),
            final(fmt).depth() == old(fmt).depth(),
            final(fmt).text() == old(fmt).text() + ind(
                block_region_text(at_start(old(fmt).text()), trait_body_text(*self)),
                at_start(old(fmt).text()),
                old(fmt).depth(),
            ),
    {
        let ghost orig = fmt.text();
        let ghost e = at_start(orig);
        let ghost n = fmt.depth();
        let ghost lead = self.associated_consts@.len() > 0 || self.associated_types@.len() > 0;
        let ghost fl = self.functions@;
        fmt.open_block();
        let ghost t_open = fmt.text();
        let pre = self.to_pre_text();
        fmt.write_str(pre.as_str());
        proof {
            lemma_ind_ends(open_text(e), e, n);
            assert(open_text(e).last() == '\n');
            assert(t_open.last() == ind(open_text(e), e, n).last());
            assert(at_start(t_open));
            assert(fmt.text() == t_open + ind(pre@, true, n + 1));
            lemma_trait_consts_ends(self.associated_consts@, self.associated_consts@.len() as int);
            lemma_trait_types_ends(self.associated_types@, self.associated_types@.len() as int);
            crate::formatter::lemma_ends_concat(
                trait_consts_text(self.associated_consts@, self.associated_consts@.len() as int),
                trait_types_text(self.associated_types@, self.associated_types@.len() as int),
            );
            assert(ends_line(pre@, true));
            if pre@.len() == 0 {
                assert(ind(pre@, true, (n + 1) as nat) =~= Seq::<char>::empty());
                assert(fmt.text() =~= t_open);
            } else {
                lemma_ind_ends(pre@, true, n + 1);
                assert(fmt.text().last() == ind(pre@, true, (n + 1) as nat).last());
            }
            assert(at_start(fmt.text()));
        }
        self.fmt_trait_fns(fmt);
        let ghost fns_full = trait_fns_text(fl, fl.len() as int, lead);
        let ghost body_full = trait_body_text(*self);
        proof {
            lemma_ind_concat(pre@, fns_full, true, n + 1);
            assert(body_full =~= pre@ + fns_full);
            assert(fmt.text() =~= t_open + ind(body_full, true, n + 1));
            lemma_trait_fns_ends(fl, fl.len() as int, lead);
            crate::formatter::lemma_ends_concat(pre@, fns_full);
            if body_full.len() == 0 {
                assert(ind(body_full, true, (n + 1) as nat) =~= Seq::<char>::empty());
                assert(fmt.text() =~= t_open + ind(body_full, true, n + 1));
                assert(fmt.text() =~= t_open);
            } else {
                lemma_ind_ends(body_full, true, n + 1);
                assert(fmt.text().last() == ind(body_full, true, (n + 1) as nat).last());
            }
            assert(at_start(fmt.text()));
        }
        fmt.close_block();
        proof {
            assert(ind(seq!['}'], true, n).last() == '}') by {
                lemma_ind_one('}', true, n);
            }
            assert(fmt.text().last() == '}');
            assert(!at_start(fmt.text()));
        }
        fmt.write_str("\n");
        proof {
            reveal_strlit("\n");
            lemma_ind_one('\n', false, n);
            assert("\n"@ =~= seq!['\n']);
            lemma_block_region(e, body_full, n);
            assert(fmt.text() =~= orig + ind(block_region_text(e, body_full), e, n));
        }
    }

    /// Writes the trait's member functions, separated by blank lines.
    #[verifier::rlimit(100)]
    #[verifier::spinoff_prover]
    fn fmt_trait_fns(&self, fmt: &mut Formatter)
        requires
            old(fmt).wf(),
            at_start(old(fmt).text()),
            trait_ok(*self),
        ensures
            final(fmt).wf(),
            final(fmt).depth() == old(fmt).depth(),
            final(fmt).text() == old(fmt).text() + ind(
                trait_fns_text(
                    self.functions@,
                    self.functions@.len() as int,
                    self.associated_consts@.len() > 0 || self.associated_types@.len() > 0,
                ),
                true,
                old(fmt).depth(),
            ),
    {
        let ghost orig = fmt.text();
        let ghost n = fmt.depth();
        let ghost lead = self.associated_consts@.len() > 0 || self.associated_types@.len() > 0;
        let ghost fl = self.functions@;
        let have_lead = !self.associated_consts.is_empty() || !self.associated_types.is_empty();
        proof {
            assert(trait_fns_text(fl, 0, lead) =~= Seq::<char>::empty());
            assert(orig + Seq::<char>::empty() =~= orig);
        }
        let mut i: usize = 0;
        while i < self.functions.len()
            invariant
                i <= fl.len(),
                fl == self.functions@,
                trait_ok(*self),
                lead == (self.associated_consts@.len() > 0 || self.associated_types@.len() > 0),
                have_lead == lead,
                fmt.wf(),
                fmt.depth() == n,
                fmt.text() == orig + ind(trait_fns_text(fl, i as int, lead), true, n),
                at_start(orig),
            decreases fl.len() - i,
        {
            let ghost done = trait_fns_text(fl, i as int, lead);
            proof {
                lemma_trait_fns_ends(fl, i as int, lead);
                if done.len() == 0 {
                    assert(ind(done, true, n) =~= Seq::<char>::empty());
                    assert(fmt.text() =~= orig);
                } else {
                    lemma_ind_ends(done, true, n);
                    assert(fmt.text().last() == ind(done, true, n).last());
                }
                assert(at_start(fmt.text()));
            }
            let ghost sep = if i != 0 || lead {
                "\n"@
            } else {
                Seq::<char>::empty()
            };
            if i != 0 || have_lead {
                fmt.write_str("\n");
                proof {
                    reveal_strlit("\n");
                    lemma_ind_one('\n', true, n);
                    lemma_ind_concat(done, "\n"@, true, n);
                    assert("\n"@ =~= seq!['\n']);
                    assert(fmt.text() =~= orig + ind(done + sep, true, n));
                    lemma_ind_ends(done + sep, true, n);
                    assert(fmt.text().last() == ind(done + sep, true, n).last());
                    assert(at_start(fmt.text()));
                }
            } else {
                proof {
                    assert(done + sep =~= done);
                    assert(fmt.text() == orig + ind(done + sep, true, n));
                }
            }
            self.functions[i].fmt(true, fmt);
            proof {
                lemma_ind_concat(done + sep, function_text(fl[i as int], true), true, n);
                lemma_trait_fns_step(fl, i as int, lead);
                assert(fmt.text() == orig + ind(trait_fns_text(fl, i as int + 1, lead), true, n));
            }
            i = i + 1;
        }
    }

    /// Gets the name.
    pub fn name(&self) -> (r: &str)
        ensures
            r@ == self.type_def.ty.name@,
    {
        self.type_def.ty.name.as_str()
    }

    /// Sets the name.
    pub fn set_name(&mut self, name: &str) -> (r: &mut Trait)
        ensures
            r.type_def.ty.name@ == name@,
            r.type_def.ty.generics == old(self).type_def.ty.generics,
            r.type_def.vis == old(self).type_def.vis,
            r.type_def.doc == old(self).type_def.doc,
            r.type_def.derives == old(self).type_def.derives,
            r.type_def.lints == old(self).type_def.lints,
            r.type_def.attributes == old(self).type_def.attributes,
            r.type_def.repr == old(self).type_def.repr,
            r.type_def.bounds == old(self).type_def.bounds,
            r.type_def.macros == old(self).type_def.macros,
            r.parents == old(self).parents,
            r.associated_consts == old(self).associated_consts,
            r.attributes == old(self).attributes,
            r.associated_types == old(self).associated_types,
            r.functions == old(self).functions,
            *final(self) == *final(r),
    {
        self.type_def.ty.name = name.to_owned();
        self
    }

    /// Sets the name.
    pub fn with_name(self, name: &str) -> (r: Trait)
        ensures
            r.type_def.ty.name@ == name@,
            r.type_def.ty.generics == self.type_def.ty.generics,
            r.type_def.vis == self.type_def.vis,
            r.type_def.doc == self.type_def.doc,
            r.type_def.derives == self.type_def.derives,
            r.type_def.lints == self.type_def.lints,
            r.type_def.attributes == self.type_def.attributes,
            r.type_def.repr == self.type_def.repr,
            r.type_def.bounds == self.type_def.bounds,
            r.type_def.macros == self.type_def.macros,
            r.parents == self.parents,
            r.associated_consts == self.associated_consts,
            r.attributes == self.attributes,
            r.associated_types == self.associated_types,
            r.functions == self.functions,
    {
        let mut s = self;
        s.type_def.ty.name = name.to_owned();
        s
    }

    /// Gets the name mutably.
    pub fn name_mut(&mut self) -> (r: &mut String)
        ensures
            *r == old(self).type_def.ty.name,
            final(self).type_def.ty.name == *final(r),
            final(self).type_def.ty.generics == old(self).type_def.ty.generics,
            final(self).type_def.vis == old(self).type_def.vis,
            final(self).type_def.doc == old(self).type_def.doc,
            final(self).type_def.derives == old(self).type_def.derives,
            final(self).type_def.lints == old(self).type_def.lints,
            final(self).type_def.attributes == old(self).type_def.attributes,
            final(self).type_def.repr == old(self).type_def.repr,
            final(self).type_def.bounds == old(self).type_def.bounds,
            final(self).type_def.macros == old(self).type_def.macros,
            final(self).parents == old(self).parents,
            final(self).associated_consts == old(self).associated_consts,
            final(self).attributes == old(self).attributes,
            final(self).associated_types == old(self).associated_types,
            final(self).functions == old(self).functions,
    {
        &mut self.type_def.ty.name
    }

    /// Gets the vis.
    pub fn vis(&self) -> (r: &Vis)
        ensures
            *r == self.type_def.vis,
    {
        &self.type_def.vis
    }

    /// Sets the vis.
    pub fn set_vis(&mut self, vis: Vis) -> (r: &mut Trait)
        ensures
            r.type_def.vis == vis,
            r.type_def.ty.name == old(self).type_def.ty.name,
            r.type_def.ty.generics == old(self).type_def.ty.generics,
            r.type_def.doc == old(self).type_def.doc,
            r.type_def.derives == old(self).type_def.derives,
            r.type_def.lints == old(self).type_def.lints,
            r.type_def.attributes == old(self).type_def.attributes,
            r.type_def.repr == old(self).type_def.repr,
            r.type_def.bounds == old(self).type_def.bounds,
            r.type_def.macros == old(self).type_def.macros,
            r.parents == old(self).parents,
            r.associated_consts == old(self).associated_consts,
            r.attributes == old(self).attributes,
            r.associated_types == old(self).associated_types,
            r.functions == old(self).functions,
            *final(self) == *final(r),
    {
        self.type_def.vis = vis;
        self
    }

    /// Sets the vis.
    pub fn with_vis(self, vis: Vis) -> (r: Trait)
        ensures
            r.type_def.vis == vis,
            r.type_def.ty.name == self.type_def.ty.name,
            r.type_def.ty.generics == self.type_def.ty.generics,
            r.type_def.doc == self.type_def.doc,
            r.type_def.derives == self.type_def.derives,
            r.type_def.lints == self.type_def.lints,
            r.type_def.attributes == self.type_def.attributes,
            r.type_def.repr == self.type_def.repr,
            r.type_def.bounds == self.type_def.bounds,
            r.type_def.macros == self.type_def.macros,
            r.parents == self.parents,
            r.associated_consts == self.associated_consts,
            r.attributes == self.attributes,
            r.associated_types == self.associated_types,
            r.functions == self.functions,
    {
        let mut s = self;
        s.type_def.vis = vis;
        s
    }

    /// Gets the vis mutably.
    pub fn vis_mut(&mut self) -> (r: &mut Vis)
        ensures
            *r == old(self).type_def.vis,
            final(self).type_def.vis == *final(r),
            final(self).type_def.ty.name == old(self).type_def.ty.name,
            final(self).type_def.ty.generics == old(self).type_def.ty.generics,
            final(self).type_def.doc == old(self).type_def.doc,
            final(self).type_def.derives == old(self).type_def.derives,
            final(self).type_def.lints == old(self).type_def.lints,
            final(self).type_def.attributes == old(self).type_def.attributes,
            final(self).type_def.repr == old(self).type_def.repr,
            final(self).type_def.bounds == old(self).type_def.bounds,
            final(self).type_def.macros == old(self).type_def.macros,
            final(self).parents == old(self).parents,
            final(self).associated_consts == old(self).associated_consts,
            final(self).attributes == old(self).attributes,
            final(self).associated_types == old(self).associated_types,
            final(self).functions == old(self).functions,
    {
        &mut self.type_def.vis
    }

    /// Gets the generics.
    pub fn generics(&self) -> (r: &Vec<GenericParameter>)
        ensures
            *r == self.type_def.ty.generics,
    {
        &self.type_def.ty.generics
    }

    /// Sets the generics.
    pub fn set_generics(&mut self, generics: Vec<GenericParameter>) -> (r: &mut Trait)
        ensures
            r.type_def.ty.generics == generics,
            r.type_def.ty.name == old(self).type_def.ty.name,
            r.type_def.vis == old(self).type_def.vis,
            r.type_def.doc == old(self).type_def.doc,
            r.type_def.derives == old(self).type_def.derives,
            r.type_def.lints == old(self).type_def.lints,
            r.type_def.attributes == old(self).type_def.attributes,
            r.type_def.repr == old(self).type_def.repr,
            r.type_def.bounds == old(self).type_def.bounds,
            r.type_def.macros == old(self).type_def.macros,
            r.parents == old(self).parents,
            r.associated_consts == old(self).associated_consts,
            r.attributes == old(self).attributes,
            r.associated_types == old(self).associated_types,
            r.functions == old(self).functions,
            *final(self) == *final(r),
    {
        self.type_def.ty.generics = generics;
        self
    }

    /// Sets the generics.
    pub fn with_generics(self, generics: Vec<GenericParameter>) -> (r: Trait)
        ensures
            r.type_def.ty.generics == generics,
            r.type_def.ty.name == self.type_def.ty.name,
            r.type_def.vis == self.type_def.vis,
            r.type_def.doc == self.type_def.doc,
            r.type_def.derives == self.type_def.derives,
            r.type_def.lints == self.type_def.lints,
            r.type_def.attributes == self.type_def.attributes,
            r.type_def.repr == self.type_def.repr,
            r.type_def.bounds == self.type_def.bounds,
            r.type_def.macros == self.type_def.macros,
            r.parents == self.parents,
            r.associated_consts == self.associated_consts,
            r.attributes == self.attributes,
            r.associated_types == self.associated_types,
            r.functions == self.functions,
    {
        let mut s = self;
        s.type_def.ty.generics = generics;
        s
    }

    /// Gets the generics mutably.
    pub fn generics_mut(&mut self) -> (r: &mut Vec<GenericParameter>)
        ensures
            *r == old(self).type_def.ty.generics,
            final(self).type_def.ty.generics == *final(r),
            final(self).type_def.ty.name == old(self).type_def.ty.name,
            final(self).type_def.vis == old(self).type_def.vis,
            final(self).type_def.doc == old(self).type_def.doc,
            final(self).type_def.derives == old(self).type_def.derives,
            final(self).type_def.lints == old(self).type_def.lints,
            final(self).type_def.attributes == old(self).type_def.attributes,
            final(self).type_def.repr == old(self).type_def.repr,
            final(self).type_def.bounds == old(self).type_def.bounds,
            final(self).type_def.macros == old(self).type_def.macros,
            final(self).parents == old(self).parents,
            final(self).associated_consts == old(self).associated_consts,
            final(self).attributes == old(self).attributes,
            final(self).associated_types == old(self).associated_types,
            final(self).functions == old(self).functions,
    {
        &mut self.type_def.ty.generics
    }

    /// Pushes one entry onto the generic list.
    pub fn push_generic(&mut self, generic: GenericParameter) -> (r: &mut Trait)
        ensures
            r.type_def.ty.generics@ == old(self).type_def.ty.generics@.push(generic),
            r.type_def.ty.name == old(self).type_def.ty.name,
            r.type_def.vis == old(self).type_def.vis,
            r.type_def.doc == old(self).type_def.doc,
            r.type_def.derives == old(self).type_def.derives,
            r.type_def.lints == old(self).type_def.lints,
            r.type_def.attributes == old(self).type_def.attributes,
            r.type_def.repr == old(self).type_def.repr,
            r.type_def.bounds == old(self).type_def.bounds,
            r.type_def.macros == old(self).type_def.macros,
            r.parents == old(self).parents,
            r.associated_consts == old(self).associated_consts,
            r.attributes == old(self).attributes,
            r.associated_types == old(self).associated_types,
            r.functions == old(self).functions,
            *final(self) == *final(r),
    {
        self.type_def.ty.generics.push(generic);
        self
    }

    /// Pushes one entry onto the generic list.
    pub fn with_generic(self, generic: GenericParameter) -> (r: Trait)
        ensures
            r.type_def.ty.generics@ == self.type_def.ty.generics@.push(generic),
            r.type_def.ty.name == self.type_def.ty.name,
            r.type_def.vis == self.type_def.vis,
            r.type_def.doc == self.type_def.doc,
            r.type_def.derives == self.type_def.derives,
            r.type_def.lints == self.type_def.lints,
            r.type_def.attributes == self.type_def.attributes,
            r.type_def.repr == self.type_def.repr,
            r.type_def.bounds == self.type_def.bounds,
            r.type_def.macros == self.type_def.macros,
            r.parents == self.parents,
            r.associated_consts == self.associated_consts,
            r.attributes == self.attributes,
            r.associated_types == self.associated_types,
            r.functions == self.functions,
    {
        let mut s = self;
        s.type_def.ty.generics.push(generic);
        s
    }

    /// Gets the bounds.
    pub fn bounds(&self) -> (r: &Vec<Bound>)
        ensures
            *r == self.type_def.bounds,
    {
        &self.type_def.bounds
    }

    /// Sets the bounds.
    pub fn set_bounds(&mut self, bounds: Vec<Bound>) -> (r: &mut Trait)
        ensures
            r.type_def.bounds == bounds,
            r.type_def.ty.name == old(self).type_def.ty.name,
            r.type_def.ty.generics == old(self).type_def.ty.generics,
            r.type_def.vis == old(self).type_def.vis,
            r.type_def.doc == old(self).type_def.doc,
            r.type_def.derives == old(self).type_def.derives,
            r.type_def.lints == old(self).type_def.lints,
            r.type_def.attributes == old(self).type_def.attributes,
            r.type_def.repr == old(self).type_def.repr,
            r.type_def.macros == old(self).type_def.macros,
            r.parents == old(self).parents,
            r.associated_consts == old(self).associated_consts,
            r.attributes == old(self).attributes,
            r.associated_types == old(self).associated_types,
            r.functions == old(self).functions,
            *final(self) == *final(r),
    {
        self.type_def.bounds = bounds;
        self
    }

    /// Sets the bounds.
    pub fn with_bounds(self, bounds: Vec<Bound>) -> (r: Trait)
        ensures
            r.type_def.bounds == bounds,
            r.type_def.ty.name == self.type_def.ty.name,
            r.type_def.ty.generics == self.type_def.ty.generics,
            r.type_def.vis == self.type_def.vis,
            r.type_def.doc == self.type_def.doc,
            r.type_def.derives == self.type_def.derives,
            r.type_def.lints == self.type_def.lints,
            r.type_def.attributes == self.type_def.attributes,
            r.type_def.repr == self.type_def.repr,
            r.type_def.macros == self.type_def.macros,
            r.parents == self.parents,
            r.associated_consts == self.associated_consts,
            r.attributes == self.attributes,
            r.associated_types == self.associated_types,
            r.functions == self.functions,
    {
        let mut s = self;
        s.type_def.bounds = bounds;
        s
    }

    /// Gets the bounds mutably.
    pub fn bounds_mut(&mut self) -> (r: &mut Vec<Bound>)
        ensures
            *r == old(self).type_def.bounds,
            final(self).type_def.bounds == *final(r),
            final(self).type_def.ty.name == old(self).type_def.ty.name,
            final(self).type_def.ty.generics == old(self).type_def.ty.generics,
            final(self).type_def.vis == old(self).type_def.vis,
            final(self).type_def.doc == old(self).type_def.doc,
            final(self).type_def.derives == old(self).type_def.derives,
            final(self).type_def.lints == old(self).type_def.lints,
            final(self).type_def.attributes == old(self).type_def.attributes,
            final(self).type_def.repr == old(self).type_def.repr,
            final(self).type_def.macros == old(self).type_def.macros,
            final(self).parents == old(self).parents,
            final(self).associated_consts == old(self).associated_consts,
            final(self).attributes == old(self).attributes,
            final(self).associated_types == old(self).associated_types,
            final(self).functions == old(self).functions,
    {
        &mut self.type_def.bounds
    }

    /// Pushes one entry onto the bound list.
    pub fn push_bound(&mut self, bound: Bound) -> (r: &mut Trait)
        ensures
            r.type_def.bounds@ == old(self).type_def.bounds@.push(bound),
            r.type_def.ty.name == old(self).type_def.ty.name,
            r.type_def.ty.generics == old(self).type_def.ty.generics,
            r.type_def.vis == old(self).type_def.vis,
            r.type_def.doc == old(self).type_def.doc,
            r.type_def.derives == old(self).type_def.derives,
            r.type_def.lints == old(self).type_def.lints,
            r.type_def.attributes == old(self).type_def.attributes,
            r.type_def.repr == old(self).type_def.repr,
            r.type_def.macros == old(self).type_def.macros,
            r.parents == old(self).parents,
            r.associated_consts == old(self).associated_consts,
            r.attributes == old(self).attributes,
            r.associated_types == old(self).associated_types,
            r.functions == old(self).functions,
            *final(self) == *final(r),
    {
        self.type_def.bounds.push(bound);
        self
    }

    /// Pushes one entry onto the bound list.
    pub fn with_bound(self, bound: Bound) -> (r: Trait)
        ensures
            r.type_def.bounds@ == self.type_def.bounds@.push(bound),
            r.type_def.ty.name == self.type_def.ty.name,
            r.type_def.ty.generics == self.type_def.ty.generics,
            r.type_def.vis == self.type_def.vis,
            r.type_def.doc == self.type_def.doc,
            r.type_def.derives == self.type_def.derives,
            r.type_def.lints == self.type_def.lints,
            r.type_def.attributes == self.type_def.attributes,
            r.type_def.repr == self.type_def.repr,
            r.type_def.macros == self.type_def.macros,
            r.parents == self.parents,
            r.associated_consts == self.associated_consts,
            r.attributes == self.attributes,
            r.associated_types == self.associated_types,
            r.functions == self.functions,
    {
        let mut s = self;
        s.type_def.bounds.push(bound);
        s
    }

    /// Gets the doc.
    pub fn doc(&self) -> (r: Option<&Doc>)
        ensures
            self.type_def.doc is Some <==> r is Some,
            r matches Some(d) ==> (self.type_def.doc matches Some(sd) && *d == sd),
    {
        self.type_def.doc.as_ref()
    }

    /// Sets the doc.
    pub fn set_doc(&mut self, doc: &str) -> (r: &mut Trait)
        ensures
            r.type_def.doc matches Some(d) && d.0@ == doc@,
            r.type_def.ty.name == old(self).type_def.ty.name,
            r.type_def.ty.generics == old(self).type_def.ty.generics,
            r.type_def.vis == old(self).type_def.vis,
            r.type_def.derives == old(self).type_def.derives,
            r.type_def.lints == old(self).type_def.lints,
            r.type_def.attributes == old(self).type_def.attributes,
            r.type_def.repr == old(self).type_def.repr,
            r.type_def.bounds == old(self).type_def.bounds,
            r.type_def.macros == old(self).type_def.macros,
            r.parents == old(self).parents,
            r.associated_consts == old(self).associated_consts,
            r.attributes == old(self).attributes,
            r.associated_types == old(self).associated_types,
            r.functions == old(self).functions,
            *final(self) == *final(r),
    {
        self.type_def.doc = Some(Doc::new(doc));
        self
    }

    /// Sets the doc.
    pub fn with_doc(self, doc: &str) -> (r: Trait)
        ensures
            r.type_def.doc matches Some(d) && d.0@ == doc@,
            r.type_def.ty.name == self.type_def.ty.name,
            r.type_def.ty.generics == self.type_def.ty.generics,
            r.type_def.vis == self.type_def.vis,
            r.type_def.derives == self.type_def.derives,
            r.type_def.lints == self.type_def.lints,
            r.type_def.attributes == self.type_def.attributes,
            r.type_def.repr == self.type_def.repr,
            r.type_def.bounds == self.type_def.bounds,
            r.type_def.macros == self.type_def.macros,
            r.parents == self.parents,
            r.associated_consts == self.associated_consts,
            r.attributes == self.attributes,
            r.associated_types == self.associated_types,
            r.functions == self.functions,
    {
        let mut s = self;
        s.type_def.doc = Some(Doc::new(doc));
        s
    }

    /// Gets the derives.
    pub fn derives(&self) -> (r: &Vec<String>)
        ensures
            *r == self.type_def.derives,
    {
        &self.type_def.derives
    }

    /// Sets the derives.
    pub fn set_derives(&mut self, derives: Vec<String>) -> (r: &mut Trait)
        ensures
            r.type_def.derives == derives,
            r.type_def.ty.name == old(self).type_def.ty.name,
            r.type_def.ty.generics == old(self).type_def.ty.generics,
            r.type_def.vis == old(self).type_def.vis,
            r.type_def.doc == old(self).type_def.doc,
            r.type_def.lints == old(self).type_def.lints,
            r.type_def.attributes == old(self).type_def.attributes,
            r.type_def.repr == old(self).type_def.repr,
            r.type_def.bounds == old(self).type_def.bounds,
            r.type_def.macros == old(self).type_def.macros,
            r.parents == old(self).parents,
            r.associated_consts == old(self).associated_consts,
            r.attributes == old(self).attributes,
            r.associated_types == old(self).associated_types,
            r.functions == old(self).functions,
            *final(self) == *final(r),
    {
        self.type_def.derives = derives;
        self
    }

    /// Sets the derives.
    pub fn with_derives(self, derives: Vec<String>) -> (r: Trait)
        ensures
            r.type_def.derives == derives,
            r.type_def.ty.name == self.type_def.ty.name,
            r.type_def.ty.generics == self.type_def.ty.generics,
            r.type_def.vis == self.type_def.vis,
            r.type_def.doc == self.type_def.doc,
            r.type_def.lints == self.type_def.lints,
            r.type_def.attributes == self.type_def.attributes,
            r.type_def.repr == self.type_def.repr,
            r.type_def.bounds == self.type_def.bounds,
            r.type_def.macros == self.type_def.macros,
            r.parents == self.parents,
            r.associated_consts == self.associated_consts,
            r.attributes == self.attributes,
            r.associated_types == self.associated_types,
            r.functions == self.functions,
    {
        let mut s = self;
        s.type_def.derives = derives;
        s
    }

    /// Gets the derives mutably.
    pub fn derives_mut(&mut self) -> (r: &mut Vec<String>)
        ensures
            *r == old(self).type_def.derives,
            final(self).type_def.derives == *final(r),
            final(self).type_def.ty.name == old(self).type_def.ty.name,
            final(self).type_def.ty.generics == old(self).type_def.ty.generics,
            final(self).type_def.vis == old(self).type_def.vis,
            final(self).type_def.doc == old(self).type_def.doc,
            final(self).type_def.lints == old(self).type_def.lints,
            final(self).type_def.attributes == old(self).type_def.attributes,
            final(self).type_def.repr == old(self).type_def.repr,
            final(self).type_def.bounds == old(self).type_def.bounds,
            final(self).type_def.macros == old(self).type_def.macros,
            final(self).parents == old(self).parents,
            final(self).associated_consts == old(self).associated_consts,
            final(self).attributes == old(self).attributes,
            final(self).associated_types == old(self).associated_types,
            final(self).functions == old(self).functions,
    {
        &mut self.type_def.derives
    }

    /// Pushes one entry onto the derive list.
    pub fn push_derive(&mut self, derive: &str) -> (r: &mut Trait)
        ensures
            r.type_def.derives.deep_view() == old(self).type_def.derives.deep_view().push(derive@),
            r.type_def.ty.name == old(self).type_def.ty.name,
            r.type_def.ty.generics == old(self).type_def.ty.generics,
            r.type_def.vis == old(self).type_def.vis,
            r.type_def.doc == old(self).type_def.doc,
            r.type_def.lints == old(self).type_def.lints,
            r.type_def.attributes == old(self).type_def.attributes,
            r.type_def.repr == old(self).type_def.repr,
            r.type_def.bounds == old(self).type_def.bounds,
            r.type_def.macros == old(self).type_def.macros,
            r.parents == old(self).parents,
            r.associated_consts == old(self).associated_consts,
            r.attributes == old(self).attributes,
            r.associated_types == old(self).associated_types,
            r.functions == old(self).functions,
            *final(self) == *final(r),
    {
        self.type_def.derives.push(derive.to_owned());
        proof {
            assert(self.type_def.derives.deep_view() =~= old(self).type_def.derives.deep_view().push(derive@));
        }
        self
    }

    /// Pushes one entry onto the derive list.
    pub fn with_derive(self, derive: &str) -> (r: Trait)
        ensures
            r.type_def.derives.deep_view() == self.type_def.derives.deep_view().push(derive@),
            r.type_def.ty.name == self.type_def.ty.name,
            r.type_def.ty.generics == self.type_def.ty.generics,
            r.type_def.vis == self.type_def.vis,
            r.type_def.doc == self.type_def.doc,
            r.type_def.lints == self.type_def.lints,
            r.type_def.attributes == self.type_def.attributes,
            r.type_def.repr == self.type_def.repr,
            r.type_def.bounds == self.type_def.bounds,
            r.type_def.macros == self.type_def.macros,
            r.parents == self.parents,
            r.associated_consts == self.associated_consts,
            r.attributes == self.attributes,
            r.associated_types == self.associated_types,
            r.functions == self.functions,
    {
        let mut s = self;
        s.type_def.derives.push(derive.to_owned());
        proof {
            assert(s.type_def.derives.deep_view() =~= self.type_def.derives.deep_view().push(derive@));
        }
        s
    }

    /// Gets the lints.
    pub fn lints(&self) -> (r: &Vec<Lint>)
        ensures
            *r == self.type_def.lints,
    {
        &self.type_def.lints
    }

    /// Sets the lints.
    pub fn set_lints(&mut self, lints: Vec<Lint>) -> (r: &mut Trait)
        ensures
            r.type_def.lints == lints,
            r.type_def.ty.name == old(self).type_def.ty.name,
            r.type_def.ty.generics == old(self).type_def.ty.generics,
            r.type_def.vis == old(self).type_def.vis,
            r.type_def.doc == old(self).type_def.doc,
            r.type_def.derives == old(self).type_def.derives,
            r.type_def.attributes == old(self).type_def.attributes,
            r.type_def.repr == old(self).type_def.repr,
            r.type_def.bounds == old(self).type_def.bounds,
            r.type_def.macros == old(self).type_def.macros,
            r.parents == old(self).parents,
            r.associated_consts == old(self).associated_consts,
            r.attributes == old(self).attributes,
            r.associated_types == old(self).associated_types,
            r.functions == old(self).functions,
            *final(self) == *final(r),
    {
        self.type_def.lints = lints;
        self
    }

    /// Sets the lints.
    pub fn with_lints(self, lints: Vec<Lint>) -> (r: Trait)
        ensures
            r.type_def.lints == lints,
            r.type_def.ty.name == self.type_def.ty.name,
            r.type_def.ty.generics == self.type_def.ty.generics,
            r.type_def.vis == self.type_def.vis,
            r.type_def.doc == self.type_def.doc,
            r.type_def.derives == self.type_def.derives,
            r.type_def.attributes == self.type_def.attributes,
            r.type_def.repr == self.type_def.repr,
            r.type_def.bounds == self.type_def.bounds,
            r.type_def.macros == self.type_def.macros,
            r.parents == self.parents,
            r.associated_consts == self.associated_consts,
            r.attributes == self.attributes,
            r.associated_types == self.associated_types,
            r.functions == self.functions,
    {
        let mut s = self;
        s.type_def.lints = lints;
        s
    }

    /// Gets the lints mutably.
    pub fn lints_mut(&mut self) -> (r: &mut Vec<Lint>)
        ensures
            *r == old(self).type_def.lints,
            final(self).type_def.lints == *final(r),
            final(self).type_def.ty.name == old(self).type_def.ty.name,
            final(self).type_def.ty.generics == old(self).type_def.ty.generics,
            final(self).type_def.vis == old(self).type_def.vis,
            final(self).type_def.doc == old(self).type_def.doc,
            final(self).type_def.derives == old(self).type_def.derives,
            final(self).type_def.attributes == old(self).type_def.attributes,
            final(self).type_def.repr == old(self).type_def.repr,
            final(self).type_def.bounds == old(self).type_def.bounds,
            final(self).type_def.macros == old(self).type_def.macros,
            final(self).parents == old(self).parents,
            final(self).associated_consts == old(self).associated_consts,
            final(self).attributes == old(self).attributes,
            final(self).associated_types == old(self).associated_types,
            final(self).functions == old(self).functions,
    {
        &mut self.type_def.lints
    }

    /// Pushes one entry onto the lint list.
    pub fn push_lint(&mut self, lint: Lint) -> (r: &mut Trait)
        ensures
            r.type_def.lints@ == old(self).type_def.lints@.push(lint),
            r.type_def.ty.name == old(self).type_def.ty.name,
            r.type_def.ty.generics == old(self).type_def.ty.generics,
            r.type_def.vis == old(self).type_def.vis,
            r.type_def.doc == old(self).type_def.doc,
            r.type_def.derives == old(self).type_def.derives,
            r.type_def.attributes == old(self).type_def.attributes,
            r.type_def.repr == old(self).type_def.repr,
            r.type_def.bounds == old(self).type_def.bounds,
            r.type_def.macros == old(self).type_def.macros,
            r.parents == old(self).parents,
            r.associated_consts == old(self).associated_consts,
            r.attributes == old(self).attributes,
            r.associated_types == old(self).associated_types,
            r.functions == old(self).functions,
            *final(self) == *final(r),
    {
        self.type_def.lints.push(lint);
        self
    }

    /// Pushes one entry onto the lint list.
    pub fn with_lint(self, lint: Lint) -> (r: Trait)
        ensures
            r.type_def.lints@ == self.type_def.lints@.push(lint),
            r.type_def.ty.name == self.type_def.ty.name,
            r.type_def.ty.generics == self.type_def.ty.generics,
            r.type_def.vis == self.type_def.vis,
            r.type_def.doc == self.type_def.doc,
            r.type_def.derives == self.type_def.derives,
            r.type_def.attributes == self.type_def.attributes,
            r.type_def.repr == self.type_def.repr,
            r.type_def.bounds == self.type_def.bounds,
            r.type_def.macros == self.type_def.macros,
            r.parents == self.parents,
            r.associated_consts == self.associated_consts,
            r.attributes == self.attributes,
            r.associated_types == self.associated_types,
            r.functions == self.functions,
    {
        let mut s = self;
        s.type_def.lints.push(lint);
        s
    }

    /// Gets the macros.
    pub fn macros(&self) -> (r: &Vec<String>)
        ensures
            *r == self.type_def.macros,
    {
        &self.type_def.macros
    }

    /// Sets the macros.
    pub fn set_macros(&mut self, macros: Vec<String>) -> (r: &mut Trait)
        ensures
            r.type_def.macros == macros,
            r.type_def.ty.name == old(self).type_def.ty.name,
            r.type_def.ty.generics == old(self).type_def.ty.generics,
            r.type_def.vis == old(self).type_def.vis,
            r.type_def.doc == old(self).type_def.doc,
            r.type_def.derives == old(self).type_def.derives,
            r.type_def.lints == old(self).type_def.lints,
            r.type_def.attributes == old(self).type_def.attributes,
            r.type_def.repr == old(self).type_def.repr,
            r.type_def.bounds == old(self).type_def.bounds,
            r.parents == old(self).parents,
            r.associated_consts == old(self).associated_consts,
            r.attributes == old(self).attributes,
            r.associated_types == old(self).associated_types,
            r.functions == old(self).functions,
            *final(self) == *final(r),
    {
        self.type_def.macros = macros;
        self
    }

    /// Sets the macros.
    pub fn with_macros(self, macros: Vec<String>) -> (r: Trait)
        ensures
            r.type_def.macros == macros,
            r.type_def.ty.name == self.type_def.ty.name,
            r.type_def.ty.generics == self.type_def.ty.generics,
            r.type_def.vis == self.type_def.vis,
            r.type_def.doc == self.type_def.doc,
            r.type_def.derives == self.type_def.derives,
            r.type_def.lints == self.type_def.lints,
            r.type_def.attributes == self.type_def.attributes,
            r.type_def.repr == self.type_def.repr,
            r.type_def.bounds == self.type_def.bounds,
            r.parents == self.parents,
            r.associated_consts == self.associated_consts,
            r.attributes == self.attributes,
            r.associated_types == self.associated_types,
            r.functions == self.functions,
    {
        let mut s = self;
        s.type_def.macros = macros;
        s
    }

    /// Gets the macros mutably.
    pub fn macros_mut(&mut self) -> (r: &mut Vec<String>)
        ensures
            *r == old(self).type_def.macros,
            final(self).type_def.macros == *final(r),
            final(self).type_def.ty.name == old(self).type_def.ty.name,
            final(self).type_def.ty.generics == old(self).type_def.ty.generics,
            final(self).type_def.vis == old(self).type_def.vis,
            final(self).type_def.doc == old(self).type_def.doc,
            final(self).type_def.derives == old(self).type_def.derives,
            final(self).type_def.lints == old(self).type_def.lints,
            final(self).type_def.attributes == old(self).type_def.attributes,
            final(self).type_def.repr == old(self).type_def.repr,
            final(self).type_def.bounds == old(self).type_def.bounds,
            final(self).parents == old(self).parents,
            final(self).associated_consts == old(self).associated_consts,
            final(self).attributes == old(self).attributes,
            final(self).associated_types == old(self).associated_types,
            final(self).functions == old(self).functions,
    {
        &mut self.type_def.macros
    }

    /// Pushes one entry onto the macro line list.
    pub fn push_macro(&mut self, macro_line: &str) -> (r: &mut Trait)
        ensures
            r.type_def.macros.deep_view() == old(self).type_def.macros.deep_view().push(macro_line@),
            r.type_def.ty.name == old(self).type_def.ty.name,
            r.type_def.ty.generics == old(self).type_def.ty.generics,
            r.type_def.vis == old(self).type_def.vis,
            r.type_def.doc == old(self).type_def.doc,
            r.type_def.derives == old(self).type_def.derives,
            r.type_def.lints == old(self).type_def.lints,
            r.type_def.attributes == old(self).type_def.attributes,
            r.type_def.repr == old(self).type_def.repr,
            r.type_def.bounds == old(self).type_def.bounds,
            r.parents == old(self).parents,
            r.associated_consts == old(self).associated_consts,
            r.attributes == old(self).attributes,
            r.associated_types == old(self).associated_types,
            r.functions == old(self).functions,
            *final(self) == *final(r),
    {
        self.type_def.macros.push(macro_line.to_owned());
        proof {
            assert(self.type_def.macros.deep_view() =~= old(self).type_def.macros.deep_view().push(macro_line@));
        }
        self
    }

    /// Pushes one entry onto the macro line list.
    pub fn with_macro(self, macro_line: &str) -> (r: Trait)
        ensures
            r.type_def.macros.deep_view() == self.type_def.macros.deep_view().push(macro_line@),
            r.type_def.ty.name == self.type_def.ty.name,
            r.type_def.ty.generics == self.type_def.ty.generics,
            r.type_def.vis == self.type_def.vis,
            r.type_def.doc == self.type_def.doc,
            r.type_def.derives == self.type_def.derives,
            r.type_def.lints == self.type_def.lints,
            r.type_def.attributes == self.type_def.attributes,
            r.type_def.repr == self.type_def.repr,
            r.type_def.bounds == self.type_def.bounds,
            r.parents == self.parents,
            r.associated_consts == self.associated_consts,
            r.attributes == self.attributes,
            r.associated_types == self.associated_types,
            r.functions == self.functions,
    {
        let mut s = self;
        s.type_def.macros.push(macro_line.to_owned());
        proof {
            assert(s.type_def.macros.deep_view() =~= self.type_def.macros.deep_view().push(macro_line@));
        }
        s
    }

    /// Gets the attributes.
    pub fn attributes(&self) -> (r: &Vec<String>)
        ensures
            *r == self.attributes,
    {
        &self.attributes
    }

    /// Sets the attributes.
    pub fn set_attributes(&mut self, attributes: Vec<String>) -> (r: &mut Trait)
        ensures
            r.attributes == attributes,
            r.type_def.ty.name == old(self).type_def.ty.name,
            r.type_def.ty.generics == old(self).type_def.ty.generics,
            r.type_def.vis == old(self).type_def.vis,
            r.type_def.doc == old(self).type_def.doc,
            r.type_def.derives == old(self).type_def.derives,
            r.type_def.lints == old(self).type_def.lints,
            r.type_def.attributes == old(self).type_def.attributes,
            r.type_def.repr == old(self).type_def.repr,
            r.type_def.bounds == old(self).type_def.bounds,
            r.type_def.macros == old(self).type_def.macros,
            r.parents == old(self).parents,
            r.associated_consts == old(self).associated_consts,
            r.associated_types == old(self).associated_types,
            r.functions == old(self).functions,
            *final(self) == *final(r),
    {
        self.attributes = attributes;
        self
    }

    /// Sets the attributes.
    pub fn with_attributes(self, attributes: Vec<String>) -> (r: Trait)
        ensures
            r.attributes == attributes,
            r.type_def.ty.name == self.type_def.ty.name,
            r.type_def.ty.generics == self.type_def.ty.generics,
            r.type_def.vis == self.type_def.vis,
            r.type_def.doc == self.type_def.doc,
            r.type_def.derives == self.type_def.derives,
            r.type_def.lints == self.type_def.lints,
            r.type_def.attributes == self.type_def.attributes,
            r.type_def.repr == self.type_def.repr,
            r.type_def.bounds == self.type_def.bounds,
            r.type_def.macros == self.type_def.macros,
            r.parents == self.parents,
            r.associated_consts == self.associated_consts,
            r.associated_types == self.associated_types,
            r.functions == self.functions,
    {
        let mut s = self;
        s.attributes = attributes;
        s
    }

    /// Gets the attributes mutably.
    pub fn attributes_mut(&mut self) -> (r: &mut Vec<String>)
        ensures
            *r == old(self).attributes,
            final(self).attributes == *final(r),
            final(self).type_def.ty.name == old(self).type_def.ty.name,
            final(self).type_def.ty.generics == old(self).type_def.ty.generics,
            final(self).type_def.vis == old(self).type_def.vis,
            final(self).type_def.doc == old(self).type_def.doc,
            final(self).type_def.derives == old(self).type_def.derives,
            final(self).type_def.lints == old(self).type_def.lints,
            final(self).type_def.attributes == old(self).type_def.attributes,
            final(self).type_def.repr == old(self).type_def.repr,
            final(self).type_def.bounds == old(self).type_def.bounds,
            final(self).type_def.macros == old(self).type_def.macros,
            final(self).parents == old(self).parents,
            final(self).associated_consts == old(self).associated_consts,
            final(self).associated_types == old(self).associated_types,
            final(self).functions == old(self).functions,
    {
        &mut self.attributes
    }

    /// Pushes one entry onto the attribute list.
    pub fn push_attribute(&mut self, attribute: &str) -> (r: &mut Trait)
        ensures
            r.attributes.deep_view() == old(self).attributes.deep_view().push(attribute@),
            r.type_def.ty.name == old(self).type_def.ty.name,
            r.type_def.ty.generics == old(self).type_def.ty.generics,
            r.type_def.vis == old(self).type_def.vis,
            r.type_def.doc == old(self).type_def.doc,
            r.type_def.derives == old(self).type_def.derives,
            r.type_def.lints == old(self).type_def.lints,
            r.type_def.attributes == old(self).type_def.attributes,
            r.type_def.repr == old(self).type_def.repr,
            r.type_def.bounds == old(self).type_def.bounds,
            r.type_def.macros == old(self).type_def.macros,
            r.parents == old(self).parents,
            r.associated_consts == old(self).associated_consts,
            r.associated_types == old(self).associated_types,
            r.functions == old(self).functions,
            *final(self) == *final(r),
    {
        self.attributes.push(attribute.to_owned());
        proof {
            assert(self.attributes.deep_view() =~= old(self).attributes.deep_view().push(attribute@));
        }
        self
    }

    /// Pushes one entry onto the attribute list.
    pub fn with_attribute(self, attribute: &str) -> (r: Trait)
        ensures
            r.attributes.deep_view() == self.attributes.deep_view().push(attribute@),
            r.type_def.ty.name == self.type_def.ty.name,
            r.type_def.ty.generics == self.type_def.ty.generics,
            r.type_def.vis == self.type_def.vis,
            r.type_def.doc == self.type_def.doc,
            r.type_def.derives == self.type_def.derives,
            r.type_def.lints == self.type_def.lints,
            r.type_def.attributes == self.type_def.attributes,
            r.type_def.repr == self.type_def.repr,
            r.type_def.bounds == self.type_def.bounds,
            r.type_def.macros == self.type_def.macros,
            r.parents == self.parents,
            r.associated_consts == self.associated_consts,
            r.associated_types == self.associated_types,
            r.functions == self.functions,
    {
        let mut s = self;
        s.attributes.push(attribute.to_owned());
        proof {
            assert(s.attributes.deep_view() =~= self.attributes.deep_view().push(attribute@));
        }
        s
    }

    /// Gets the parents.
    pub fn parents(&self) -> (r: &Vec<Type>)
        ensures
            *r == self.parents,
    {
        &self.parents
    }

    /// Sets the parents.
    pub fn set_parents(&mut self, parents: Vec<Type>) -> (r: &mut Trait)
        ensures
            r.parents == parents,
            r.type_def.ty.name == old(self).type_def.ty.name,
            r.type_def.ty.generics == old(self).type_def.ty.generics,
            r.type_def.vis == old(self).type_def.vis,
            r.type_def.doc == old(self).type_def.doc,
            r.type_def.derives == old(self).type_def.derives,
            r.type_def.lints == old(self).type_def.lints,
            r.type_def.attributes == old(self).type_def.attributes,
            r.type_def.repr == old(self).type_def.repr,
            r.type_def.bounds == old(self).type_def.bounds,
            r.type_def.macros == old(self).type_def.macros,
            r.associated_consts == old(self).associated_consts,
            r.attributes == old(self).attributes,
            r.associated_types == old(self).associated_types,
            r.functions == old(self).functions,
            *final(self) == *final(r),
    {
        self.parents = parents;
        self
    }

    /// Sets the parents.
    pub fn with_parents(self, parents: Vec<Type>) -> (r: Trait)
        ensures
            r.parents == parents,
            r.type_def.ty.name == self.type_def.ty.name,
            r.type_def.ty.generics == self.type_def.ty.generics,
            r.type_def.vis == self.type_def.vis,
            r.type_def.doc == self.type_def.doc,
            r.type_def.derives == self.type_def.derives,
            r.type_def.lints == self.type_def.lints,
            r.type_def.attributes == self.type_def.attributes,
            r.type_def.repr == self.type_def.repr,
            r.type_def.bounds == self.type_def.bounds,
            r.type_def.macros == self.type_def.macros,
            r.associated_consts == self.associated_consts,
            r.attributes == self.attributes,
            r.associated_types == self.associated_types,
            r.functions == self.functions,
    {
        let mut s = self;
        s.parents = parents;
        s
    }

    /// Gets the parents mutably.
    pub fn parents_mut(&mut self) -> (r: &mut Vec<Type>)
        ensures
            *r == old(self).parents,
            final(self).parents == *final(r),
            final(self).type_def.ty.name == old(self).type_def.ty.name,
            final(self).type_def.ty.generics == old(self).type_def.ty.generics,
            final(self).type_def.vis == old(self).type_def.vis,
            final(self).type_def.doc == old(self).type_def.doc,
            final(self).type_def.derives == old(self).type_def.derives,
            final(self).type_def.lints == old(self).type_def.lints,
            final(self).type_def.attributes == old(self).type_def.attributes,
            final(self).type_def.repr == old(self).type_def.repr,
            final(self).type_def.bounds == old(self).type_def.bounds,
            final(self).type_def.macros == old(self).type_def.macros,
            final(self).associated_consts == old(self).associated_consts,
            final(self).attributes == old(self).attributes,
            final(self).associated_types == old(self).associated_types,
            final(self).functions == old(self).functions,
    {
        &mut self.parents
    }

    /// Pushes one entry onto the parent list.
    pub fn push_parent(&mut self, parent: Type) -> (r: &mut Trait)
        ensures
            r.parents@ == old(self).parents@.push(parent),
            r.type_def.ty.name == old(self).type_def.ty.name,
            r.type_def.ty.generics == old(self).type_def.ty.generics,
            r.type_def.vis == old(self).type_def.vis,
            r.type_def.doc == old(self).type_def.doc,
            r.type_def.derives == old(self).type_def.derives,
            r.type_def.lints == old(self).type_def.lints,
            r.type_def.attributes == old(self).type_def.attributes,
            r.type_def.repr == old(self).type_def.repr,
            r.type_def.bounds == old(self).type_def.bounds,
            r.type_def.macros == old(self).type_def.macros,
            r.associated_consts == old(self).associated_consts,
            r.attributes == old(self).attributes,
            r.associated_types == old(self).associated_types,
            r.functions == old(self).functions,
            *final(self) == *final(r),
    {
        self.parents.push(parent);
        self
    }

    /// Pushes one entry onto the parent list.
    pub fn with_parent(self, parent: Type) -> (r: Trait)
        ensures
            r.parents@ == self.parents@.push(parent),
            r.type_def.ty.name == self.type_def.ty.name,
            r.type_def.ty.generics == self.type_def.ty.generics,
            r.type_def.vis == self.type_def.vis,
            r.type_def.doc == self.type_def.doc,
            r.type_def.derives == self.type_def.derives,
            r.type_def.lints == self.type_def.lints,
            r.type_def.attributes == self.type_def.attributes,
            r.type_def.repr == self.type_def.repr,
            r.type_def.bounds == self.type_def.bounds,
            r.type_def.macros == self.type_def.macros,
            r.associated_consts == self.associated_consts,
            r.attributes == self.attributes,
            r.associated_types == self.associated_types,
            r.functions == self.functions,
    {
        let mut s = self;
        s.parents.push(parent);
        s
    }

    /// Gets the associated consts.
    pub fn associated_consts(&self) -> (r: &Vec<AssociatedConst>)
        ensures
            *r == self.associated_consts,
    {
        &self.associated_consts
    }

    /// Sets the associated consts.
    pub fn set_associated_consts(&mut self, associated_consts: Vec<AssociatedConst>) -> (r: &mut Trait)
        ensures
            r.associated_consts == associated_consts,
            r.type_def.ty.name == old(self).type_def.ty.name,
            r.type_def.ty.generics == old(self).type_def.ty.generics,
            r.type_def.vis == old(self).type_def.vis,
            r.type_def.doc == old(self).type_def.doc,
            r.type_def.derives == old(self).type_def.derives,
            r.type_def.lints == old(self).type_def.lints,
            r.type_def.attributes == old(self).type_def.attributes,
            r.type_def.repr == old(self).type_def.repr,
            r.type_def.bounds == old(self).type_def.bounds,
            r.type_def.macros == old(self).type_def.macros,
            r.parents == old(self).parents,
            r.attributes == old(self).attributes,
            r.associated_types == old(self).associated_types,
            r.functions == old(self).functions,
            *final(self) == *final(r),
    {
        self.associated_consts = associated_consts;
        self
    }

    /// Sets the associated consts.
    pub fn with_associated_consts(self, associated_consts: Vec<AssociatedConst>) -> (r: Trait)
        ensures
            r.associated_consts == associated_consts,
            r.type_def.ty.name == self.type_def.ty.name,
            r.type_def.ty.generics == self.type_def.ty.generics,
            r.type_def.vis == self.type_def.vis,
            r.type_def.doc == self.type_def.doc,
            r.type_def.derives == self.type_def.derives,
            r.type_def.lints == self.type_def.lints,
            r.type_def.attributes == self.type_def.attributes,
            r.type_def.repr == self.type_def.repr,
            r.type_def.bounds == self.type_def.bounds,
            r.type_def.macros == self.type_def.macros,
            r.parents == self.parents,
            r.attributes == self.attributes,
            r.associated_types == self.associated_types,
            r.functions == self.functions,
    {
        let mut s = self;
        s.associated_consts = associated_consts;
        s
    }

    /// Gets the associated consts mutably.
    pub fn associated_consts_mut(&mut self) -> (r: &mut Vec<AssociatedConst>)
        ensures
            *r == old(self).associated_consts,
            final(self).associated_consts == *final(r),
            final(self).type_def.ty.name == old(self).type_def.ty.name,
            final(self).type_def.ty.generics == old(self).type_def.ty.generics,
            final(self).type_def.vis == old(self).type_def.vis,
            final(self).type_def.doc == old(self).type_def.doc,
            final(self).type_def.derives == old(self).type_def.derives,
            final(self).type_def.lints == old(self).type_def.lints,
            final(self).type_def.attributes == old(self).type_def.attributes,
            final(self).type_def.repr == old(self).type_def.repr,
            final(self).type_def.bounds == old(self).type_def.bounds,
            final(self).type_def.macros == old(self).type_def.macros,
            final(self).parents == old(self).parents,
            final(self).attributes == old(self).attributes,
            final(self).associated_types == old(self).associated_types,
            final(self).functions == old(self).functions,
    {
        &mut self.associated_consts
    }

    /// Pushes one entry onto the associated const list.
    pub fn push_associated_const(&mut self, associated_const: AssociatedConst) -> (r: &mut Trait)
        ensures
            r.associated_consts@ == old(self).associated_consts@.push(associated_const),
            r.type_def.ty.name == old(self).type_def.ty.name,
            r.type_def.ty.generics == old(self).type_def.ty.generics,
            r.type_def.vis == old(self).type_def.vis,
            r.type_def.doc == old(self).type_def.doc,
            r.type_def.derives == old(self).type_def.derives,
            r.type_def.lints == old(self).type_def.lints,
            r.type_def.attributes == old(self).type_def.attributes,
            r.type_def.repr == old(self).type_def.repr,
            r.type_def.bounds == old(self).type_def.bounds,
            r.type_def.macros == old(self).type_def.macros,
            r.parents == old(self).parents,
            r.attributes == old(self).attributes,
            r.associated_types == old(self).associated_types,
            r.functions == old(self).functions,
            *final(self) == *final(r),
    {
        self.associated_consts.push(associated_const);
        self
    }

    /// Pushes one entry onto the associated const list.
    pub fn with_associated_const(self, associated_const: AssociatedConst) -> (r: Trait)
        ensures
            r.associated_consts@ == self.associated_consts@.push(associated_const),
            r.type_def.ty.name == self.type_def.ty.name,
            r.type_def.ty.generics == self.type_def.ty.generics,
            r.type_def.vis == self.type_def.vis,
            r.type_def.doc == self.type_def.doc,
            r.type_def.derives == self.type_def.derives,
            r.type_def.lints == self.type_def.lints,
            r.type_def.attributes == self.type_def.attributes,
            r.type_def.repr == self.type_def.repr,
            r.type_def.bounds == self.type_def.bounds,
            r.type_def.macros == self.type_def.macros,
            r.parents == self.parents,
            r.attributes == self.attributes,
            r.associated_types == self.associated_types,
            r.functions == self.functions,
    {
        let mut s = self;
        s.associated_consts.push(associated_const);
        s
    }

    /// Gets the associated types.
    pub fn associated_type(&self) -> (r: &Vec<AssociatedType>)
        ensures
            *r == self.associated_types,
    {
        &self.associated_types
    }

    /// Sets the associated types.
    pub fn set_associated_types(&mut self, associated_types: Vec<AssociatedType>) -> (r: &mut Trait)
        ensures
            r.associated_types == associated_types,
            r.type_def.ty.name == old(self).type_def.ty.name,
            r.type_def.ty.generics == old(self).type_def.ty.generics,
            r.type_def.vis == old(self).type_def.vis,
            r.type_def.doc == old(self).type_def.doc,
            r.type_def.derives == old(self).type_def.derives,
            r.type_def.lints == old(self).type_def.lints,
            r.type_def.attributes == old(self).type_def.attributes,
            r.type_def.repr == old(self).type_def.repr,
            r.type_def.bounds == old(self).type_def.bounds,
            r.type_def.macros == old(self).type_def.macros,
            r.parents == old(self).parents,
            r.associated_consts == old(self).associated_consts,
            r.attributes == old(self).attributes,
            r.functions == old(self).functions,
            *final(self) == *final(r),
    {
        self.associated_types = associated_types;
        self
    }

    /// Sets the associated types.
    pub fn with_associated_types(self, associated_types: Vec<AssociatedType>) -> (r: Trait)
        ensures
            r.associated_types == associated_types,
            r.type_def.ty.name == self.type_def.ty.name,
            r.type_def.ty.generics == self.type_def.ty.generics,
            r.type_def.vis == self.type_def.vis,
            r.type_def.doc == self.type_def.doc,
            r.type_def.derives == self.type_def.derives,
            r.type_def.lints == self.type_def.lints,
            r.type_def.attributes == self.type_def.attributes,
            r.type_def.repr == self.type_def.repr,
            r.type_def.bounds == self.type_def.bounds,
            r.type_def.macros == self.type_def.macros,
            r.parents == self.parents,
            r.associated_consts == self.associated_consts,
            r.attributes == self.attributes,
            r.functions == self.functions,
    {
        let mut s = self;
        s.associated_types = associated_types;
        s
    }

    /// Gets the associated types mutably.
    pub fn associated_types_mut(&mut self) -> (r: &mut Vec<AssociatedType>)
        ensures
            *r == old(self).associated_types,
            final(self).associated_types == *final(r),
            final(self).type_def.ty.name == old(self).type_def.ty.name,
            final(self).type_def.ty.generics == old(self).type_def.ty.generics,
            final(self).type_def.vis == old(self).type_def.vis,
            final(self).type_def.doc == old(self).type_def.doc,
            final(self).type_def.derives == old(self).type_def.derives,
            final(self).type_def.lints == old(self).type_def.lints,
            final(self).type_def.attributes == old(self).type_def.attributes,
            final(self).type_def.repr == old(self).type_def.repr,
            final(self).type_def.bounds == old(self).type_def.bounds,
            final(self).type_def.macros == old(self).type_def.macros,
            final(self).parents == old(self).parents,
            final(self).associated_consts == old(self).associated_consts,
            final(self).attributes == old(self).attributes,
            final(self).functions == old(self).functions,
    {
        &mut self.associated_types
    }

    /// Pushes one entry onto the associated type list.
    pub fn push_associated_type(&mut self, associated_type: AssociatedType) -> (r: &mut Trait)
        ensures
            r.associated_types@ == old(self).associated_types@.push(associated_type),
            r.type_def.ty.name == old(self).type_def.ty.name,
            r.type_def.ty.generics == old(self).type_def.ty.generics,
            r.type_def.vis == old(self).type_def.vis,
            r.type_def.doc == old(self).type_def.doc,
            r.type_def.derives == old(self).type_def.derives,
            r.type_def.lints == old(self).type_def.lints,
            r.type_def.attributes == old(self).type_def.attributes,
            r.type_def.repr == old(self).type_def.repr,
            r.type_def.bounds == old(self).type_def.bounds,
            r.type_def.macros == old(self).type_def.macros,
            r.parents == old(self).parents,
            r.associated_consts == old(self).associated_consts,
            r.attributes == old(self).attributes,
            r.functions == old(self).functions,
            *final(self) == *final(r),
    {
        self.associated_types.push(associated_type);
        self
    }

    /// Pushes one entry onto the associated type list.
    pub fn with_associated_type(self, associated_type: AssociatedType) -> (r: Trait)
        ensures
            r.associated_types@ == self.associated_types@.push(associated_type),
            r.type_def.ty.name == self.type_def.ty.name,
            r.type_def.ty.generics == self.type_def.ty.generics,
            r.type_def.vis == self.type_def.vis,
            r.type_def.doc == self.type_def.doc,
            r.type_def.derives == self.type_def.derives,
            r.type_def.lints == self.type_def.lints,
            r.type_def.attributes == self.type_def.attributes,
            r.type_def.repr == self.type_def.repr,
            r.type_def.bounds == self.type_def.bounds,
            r.type_def.macros == self.type_def.macros,
            r.parents == self.parents,
            r.associated_consts == self.associated_consts,
            r.attributes == self.attributes,
            r.functions == self.functions,
    {
        let mut s = self;
        s.associated_types.push(associated_type);
        s
    }

    /// Gets the functions.
    pub fn functions(&self) -> (r: &Vec<Function>)
        ensures
            *r == self.functions,
    {
        &self.functions
    }

    /// Sets the functions.
    pub fn set_functions(&mut self, functions: Vec<Function>) -> (r: &mut Trait)
        ensures
            r.functions == functions,
            r.type_def.ty.name == old(self).type_def.ty.name,
            r.type_def.ty.generics == old(self).type_def.ty.generics,
            r.type_def.vis == old(self).type_def.vis,
            r.type_def.doc == old(self).type_def.doc,
            r.type_def.derives == old(self).type_def.derives,
            r.type_def.lints == old(self).type_def.lints,
            r.type_def.attributes == old(self).type_def.attributes,
            r.type_def.repr == old(self).type_def.repr,
            r.type_def.bounds == old(self).type_def.bounds,
            r.type_def.macros == old(self).type_def.macros,
            r.parents == old(self).parents,
            r.associated_consts == old(self).associated_consts,
            r.attributes == old(self).attributes,
            r.associated_types == old(self).associated_types,
            *final(self) == *final(r),
    {
        self.functions = functions;
        self
    }

    /// Sets the functions.
    pub fn with_functions(self, functions: Vec<Function>) -> (r: Trait)
        ensures
            r.functions == functions,
            r.type_def.ty.name == self.type_def.ty.name,
            r.type_def.ty.generics == self.type_def.ty.generics,
            r.type_def.vis == self.type_def.vis,
            r.type_def.doc == self.type_def.doc,
            r.type_def.derives == self.type_def.derives,
            r.type_def.lints == self.type_def.lints,
            r.type_def.attributes == self.type_def.attributes,
            r.type_def.repr == self.type_def.repr,
            r.type_def.bounds == self.type_def.bounds,
            r.type_def.macros == self.type_def.macros,
            r.parents == self.parents,
            r.associated_consts == self.associated_consts,
            r.attributes == self.attributes,
            r.associated_types == self.associated_types,
    {
        let mut s = self;
        s.functions = functions;
        s
    }

    /// Gets the functions mutably.
    pub fn functions_mut(&mut self) -> (r: &mut Vec<Function>)
        ensures
            *r == old(self).functions,
            final(self).functions == *final(r),
            final(self).type_def.ty.name == old(self).type_def.ty.name,
            final(self).type_def.ty.generics == old(self).type_def.ty.generics,
            final(self).type_def.vis == old(self).type_def.vis,
            final(self).type_def.doc == old(self).type_def.doc,
            final(self).type_def.derives == old(self).type_def.derives,
            final(self).type_def.lints == old(self).type_def.lints,
            final(self).type_def.attributes == old(self).type_def.attributes,
            final(self).type_def.repr == old(self).type_def.repr,
            final(self).type_def.bounds == old(self).type_def.bounds,
            final(self).type_def.macros == old(self).type_def.macros,
            final(self).parents == old(self).parents,
            final(self).associated_consts == old(self).associated_consts,
            final(self).attributes == old(self).attributes,
            final(self).associated_types == old(self).associated_types,
    {
        &mut self.functions
    }

    /// Pushes one entry onto the function list.
    pub fn push_function(&mut self, function: Function) -> (r: &mut Trait)
        ensures
            r.functions@ == old(self).functions@.push(function),
            r.type_def.ty.name == old(self).type_def.ty.name,
            r.type_def.ty.generics == old(self).type_def.ty.generics,
            r.type_def.vis == old(self).type_def.vis,
            r.type_def.doc == old(self).type_def.doc,
            r.type_def.derives == old(self).type_def.derives,
            r.type_def.lints == old(self).type_def.lints,
            r.type_def.attributes == old(self).type_def.attributes,
            r.type_def.repr == old(self).type_def.repr,
            r.type_def.bounds == old(self).type_def.bounds,
            r.type_def.macros == old(self).type_def.macros,
            r.parents == old(self).parents,
            r.associated_consts == old(self).associated_consts,
            r.attributes == old(self).attributes,
            r.associated_types == old(self).associated_types,
            *final(self) == *final(r),
    {
        self.functions.push(function);
        self
    }

    /// Pushes one entry onto the function list.
    pub fn with_function(self, function: Function) -> (r: Trait)
        ensures
            r.functions@ == self.functions@.push(function),
            r.type_def.ty.name == self.type_def.ty.name,
            r.type_def.ty.generics == self.type_def.ty.generics,
            r.type_def.vis == self.type_def.vis,
            r.type_def.doc == self.type_def.doc,
            r.type_def.derives == self.type_def.derives,
            r.type_def.lints == self.type_def.lints,
            r.type_def.attributes == self.type_def.attributes,
            r.type_def.repr == self.type_def.repr,
            r.type_def.bounds == self.type_def.bounds,
            r.type_def.macros == self.type_def.macros,
            r.parents == self.parents,
            r.associated_consts == self.associated_consts,
            r.attributes == self.attributes,
            r.associated_types == self.associated_types,
    {
        let mut s = self;
        s.functions.push(function);
        s
    }


    /// Gets the doc mutably, when one is set.
    pub fn doc_mut(&mut self) -> (r: Option<&mut Doc>)
        ensures
            old(self).type_def.doc is None ==> (r is None && final(self).type_def.doc is None),
            old(self).type_def.doc is Some ==> (r is Some && *r.unwrap() == old(self).type_def.doc.unwrap()
                && final(self).type_def.doc == Some(*final(r.unwrap()))),
            final(self).type_def.ty == old(self).type_def.ty,
            final(self).type_def.vis == old(self).type_def.vis,
            final(self).type_def.derives == old(self).type_def.derives,
            final(self).type_def.lints == old(self).type_def.lints,
            final(self).type_def.attributes == old(self).type_def.attributes,
            final(self).type_def.bounds == old(self).type_def.bounds,
            final(self).type_def.macros == old(self).type_def.macros,
            final(self).type_def.repr == old(self).type_def.repr,
            final(self).parents == old(self).parents,
            final(self).associated_consts == old(self).associated_consts,
            final(self).attributes == old(self).attributes,
            final(self).associated_types == old(self).associated_types,
            final(self).functions == old(self).functions,
    {
        self.type_def.doc.as_mut()
    }
}

} // verus!
