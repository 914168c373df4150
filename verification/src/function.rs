use vstd::prelude::*;
use vstd::string::StringExecFns;

use crate::block::{body_list_text, Body, Block};
use crate::bound::{bounds_text, bounds_to_text, Bound};
use crate::doc::Doc;
use crate::field::Field;
use crate::formatter::{
    at_start, block_region_text, ends_line, ind, lemma_block_region, lemma_ind_concat,
    lemma_ind_ends, lemma_ind_one, open_text, Formatter,
};
use crate::lint::Lint;
use crate::text::{angle_text, angle_to_text, lines_text};
use crate::ty::{type_text, Type};
use crate::type_def::{attr_lines_text, lint_lines_text, opt_doc_text};
use crate::visibility::{vis_text, Vis};

verus! {

/// How a function takes `self`.
pub enum SelfArg {
    /// `f()`: no `self` parameter.
    Bare,
    /// `f(self)`.
    WithSelf,
    /// `f(&self)`.
    WithSelfRef,
    /// `f(mut self)`.
    WithMutSelf,
    /// `f(&mut self)`.
    WithMutSelfRef,
}

/// A function declaration: its signature, attributes, and body.
pub struct Function {
    /// The function's name.
    pub name: String,
    /// The function's documentation.
    pub doc: Option<Doc>,
    /// Lint attributes written above the function.
    pub lints: Vec<Lint>,
    /// The function's visibility.
    pub vis: Vis,
    /// Whether the function is `async`.
    pub asyncness: bool,
    /// The generic parameters, written as given.
    pub generics: Vec<String>,
    /// How the function takes `self`.
    pub self_arg: SelfArg,
    /// The function's arguments.
    pub args: Vec<Field>,
    /// The return type, if any.
    pub ret: Option<Type>,
    /// The `where`-clause bounds.
    pub bounds: Vec<Bound>,
    /// The body: absent only for trait-member declarations.
    pub body: Vec<Body>,
    /// Attribute bodies, each written as `#[...]`.
    pub attributes: Vec<String>,
    /// The `extern` ABI, if any.
    pub extern_abi: Option<String>,
}

/// The `extern "abi" ` prefix, or nothing.
pub open spec fn abi_text(a: Option<String>) -> Seq<char> {
    match a {
        Option::None => Seq::empty(),
        Option::Some(s) => "extern \""@ + s@ + "\" "@,
    }
}

/// The `self` parameter as written inside the parentheses.
pub open spec fn self_arg_text(s: SelfArg) -> Seq<char> {
    match s {
        SelfArg::Bare => Seq::empty(),
        SelfArg::WithSelf => "self"@,
        SelfArg::WithSelfRef => "&self"@,
        SelfArg::WithMutSelf => "mut self"@,
        SelfArg::WithMutSelfRef => "&mut self"@,
    }
}

/// The first `i` arguments; a comma separates each argument from what
/// precedes it, except the very first when there is no `self` parameter.
pub open spec fn args_list_text(args: Seq<Field>, sa: SelfArg, i: int) -> Seq<char>
    decreases i,
{
    if 0 < i <= args.len() {
        args_list_text(args, sa, i - 1) + (if i == 1 && sa is Bare {
            Seq::<char>::empty()
        } else {
            ", "@
        }) + args[i - 1].name@ + ": "@ + type_text(args[i - 1].ty)
    } else {
        Seq::empty()
    }
}

/// The ` -> Type` suffix, or nothing.
pub open spec fn ret_text(r: Option<Type>) -> Seq<char> {
    match r {
        Option::None => Seq::empty(),
        Option::Some(t) => " -> "@ + type_text(t),
    }
}

/// The function's signature lines: everything up to the body.
pub open spec fn fn_head_text(f: Function, is_trait: bool) -> Seq<char> {
    opt_doc_text(f.doc) + lint_lines_text(f.lints@, f.lints@.len() as int) + attr_lines_text(
        f.attributes.deep_view(),
        f.attributes.deep_view().len() as int,
    ) + (if is_trait {
        Seq::<char>::empty()
    } else {
        vis_text(f.vis)
    }) + abi_text(f.extern_abi) + (if f.asyncness {
        "async "@
    } else {
        Seq::<char>::empty()
    }) + "fn "@ + f.name@ + angle_text(f.generics.deep_view()) + "("@ + self_arg_text(f.self_arg)
        + args_list_text(f.args@, f.self_arg, f.args@.len() as int) + ")"@ + ret_text(f.ret)
        + bounds_text(f.bounds@)
}

/// The whole rendered function: a signature-only declaration ends with a
/// semicolon; otherwise the body follows in a block.
#[verifier::opaque]
pub open spec fn function_text(f: Function, is_trait: bool) -> Seq<char> {
    fn_head_text(f, is_trait) + (if f.body@.len() == 0 {
        ";\n"@
    } else {
        block_region_text(
            ends_line(fn_head_text(f, is_trait), true),
            body_list_text(f.body@, f.body@.len() as int),
        )
    })
}

/// A rendered function ends its final line.
pub proof fn lemma_function_text_ends(f: Function, is_trait: bool)
    ensures
        function_text(f, is_trait).len() > 0,
        function_text(f, is_trait).last() == '\n',
{
    reveal(function_text);
    let head = fn_head_text(f, is_trait);
    if f.body@.len() == 0 {
        reveal_strlit(";\n");
        assert(";\n"@.len() == 2);
        assert(";\n"@.last() == '\n');
        assert((head + ";\n"@).last() == '\n');
    } else {
        let e = ends_line(head, true);
        let b = block_region_text(e, body_list_text(f.body@, f.body@.len() as int));
        assert(b =~= (open_text(e) + ind(
            body_list_text(f.body@, f.body@.len() as int),
            true,
            1,
        ) + seq!['}']) + seq!['\n']);
        assert(b.last() == '\n');
        assert((head + b).last() == '\n');
    }
}

/// A function the renderer accepts: a missing body only as a trait
/// member, and no visibility qualifier on a trait member.
pub open spec fn fn_ok(f: Function, is_trait: bool) -> bool {
    &&& f.body@.len() == 0 ==> is_trait
    &&& is_trait ==> f.vis is Private
}

impl Function {
    /// Creates a function with the given name.
    pub fn new(name: &str) -> (r: Function)
        ensures
            r.name@ == name@,
            r.doc is None,
            r.lints@.len() == 0,
            r.vis is Private,
            r.asyncness == false,
            r.generics@.len() == 0,
            r.self_arg is Bare,
            r.args@.len() == 0,
            r.ret is None,
            r.bounds@.len() == 0,
            r.body@.len() == 0,
            r.attributes@.len() == 0,
            r.extern_abi is None,
    {
        Function {
            name: name.to_owned(),
            doc: None,
            lints: Vec::new(),
            vis: Vis::Private,
            asyncness: false,
            generics: Vec::new(),
            self_arg: SelfArg::Bare,
            args: Vec::new(),
            ret: None,
            bounds: Vec::new(),
            body: Vec::new(),
            attributes: Vec::new(),
            extern_abi: None,
        }
    }

    /// Gets whether the function is `async`.
    pub fn is_async(&self) -> (r: bool)
        ensures
            r == self.asyncness,
    {
        self.asyncness
    }

    /// Sets whether the function is `async`.
    pub fn set_async(&mut self, asyncness: bool) -> (r: &mut Function)
        ensures
            r.asyncness == asyncness,
            *final(self) == *final(r),
            *r == (Function { asyncness, ..*old(self) }),
    {
        self.asyncness = asyncness;
        self
    }

    /// Sets whether the function is `async`.
    pub fn with_async(self, asyncness: bool) -> (r: Function)
        ensures
            r == (Function { asyncness, ..self }),
    {
        let mut s = self;
        s.asyncness = asyncness;
        s
    }

    /// Gets the `async` flag mutably.
    pub fn async_mut(&mut self) -> (r: &mut bool)
        ensures
            *r == old(self).asyncness,
            *final(self) == (Function { asyncness: *final(r), ..*old(self) }),
    {
        &mut self.asyncness
    }

    /// Gets the return type.
    pub fn ret(&self) -> (r: Option<&Type>)
        ensures
            self.ret is Some <==> r is Some,
            r matches Some(t) ==> (self.ret matches Some(st) && *t == st),
    {
        self.ret.as_ref()
    }

    /// Sets the return type.
    pub fn set_ret(&mut self, ty: Type) -> (r: &mut Function)
        ensures
            r.ret == Some(ty),
            *r == (Function { ret: Some(ty), ..*old(self) }),
            *final(self) == *final(r),
    {
        self.ret = Some(ty);
        self
    }

    /// Sets the return type.
    pub fn with_ret(self, ty: Type) -> (r: Function)
        ensures
            r == (Function { ret: Some(ty), ..self }),
    {
        let mut s = self;
        s.ret = Some(ty);
        s
    }

    /// Gets the `extern` ABI.
    pub fn extern_abi(&self) -> (r: Option<&String>)
        ensures
            self.extern_abi is Some <==> r is Some,
            r matches Some(a) ==> (self.extern_abi matches Some(sa) && *a == sa),
    {
        self.extern_abi.as_ref()
    }

    /// Sets the `extern` ABI.
    pub fn set_extern_abi(&mut self, abi: &str) -> (r: &mut Function)
        ensures
            r.extern_abi matches Some(a) && a@ == abi@,
            *r == (Function { extern_abi: r.extern_abi, ..*old(self) }),
            *final(self) == *final(r),
    {
        self.extern_abi = Some(abi.to_owned());
        self
    }

    /// Sets the `extern` ABI.
    pub fn with_extern_abi(self, abi: &str) -> (r: Function)
        ensures
            r.extern_abi matches Some(a) && a@ == abi@,
            r == (Function { extern_abi: r.extern_abi, ..self }),
    {
        let mut s = self;
        s.extern_abi = Some(abi.to_owned());
        s
    }

    /// Pushes an argument with the given name and type.
    pub fn push_arg(&mut self, name: &str, ty: Type) -> (r: &mut Function)
        ensures
            r.args@.len() == old(self).args@.len() + 1,
            r.args@.last().name@ == name@,
            r.args@.last().ty == ty,
            r.args@.drop_last() == old(self).args@,
            *r == (Function { args: r.args, ..*old(self) }),
            *final(self) == *final(r),
    {
        self.args.push(Field::new(name, ty));
        proof {
            assert(self.args@.drop_last() =~= old(self).args@);
        }
        self
    }

    /// Pushes an argument with the given name and type.
    pub fn with_arg(self, name: &str, ty: Type) -> (r: Function)
        ensures
            r.args@.len() == self.args@.len() + 1,
            r.args@.last().name@ == name@,
            r.args@.last().ty == ty,
            r.args@.drop_last() == self.args@,
            r == (Function { args: r.args, ..self }),
    {
        let mut s = self;
        s.args.push(Field::new(name, ty));
        proof {
            assert(s.args@.drop_last() =~= self.args@);
        }
        s
    }

    /// Pushes a line onto the function's body.
    pub fn push_line(&mut self, line: &str) -> (r: &mut Function)
        ensures
            r.body@.len() == old(self).body@.len() + 1,
            r.body@.last() matches Body::Text(s) && s@ == line@,
            r.body@.drop_last() == old(self).body@,
            *r == (Function { body: r.body, ..*old(self) }),
            *final(self) == *final(r),
    {
        self.body.push(Body::Text(line.to_owned()));
        proof {
            assert(self.body@.drop_last() =~= old(self).body@);
        }
        self
    }

    /// Pushes a line onto the function's body.
    pub fn with_line(self, line: &str) -> (r: Function)
        ensures
            r.body@.len() == self.body@.len() + 1,
            r.body@.last() matches Body::Text(s) && s@ == line@,
            r.body@.drop_last() == self.body@,
            r == (Function { body: r.body, ..self }),
    {
        let mut s = self;
        s.body.push(Body::Text(line.to_owned()));
        proof {
            assert(s.body@.drop_last() =~= self.body@);
        }
        s
    }

    /// Pushes a nested block onto the function's body.
    pub fn push_block(&mut self, block: Block) -> (r: &mut Function)
        ensures
            r.body@ == old(self).body@.push(Body::Block(block)),
            *r == (Function { body: r.body, ..*old(self) }),
            *final(self) == *final(r),
    {
        self.body.push(Body::Block(block));
        self
    }

    /// Pushes a nested block onto the function's body.
    pub fn with_block(self, block: Block) -> (r: Function)
        ensures
            r.body@ == self.body@.push(Body::Block(block)),
            r == (Function { body: r.body, ..self }),
    {
        let mut s = self;
        s.body.push(Body::Block(block));
        s
    }

    /// Renders the signature as text.
    #[verifier::rlimit(60)]
    fn to_head_text(&self, is_trait: bool) -> (r: String)
        ensures
            r@ == fn_head_text(*self, is_trait),
    {
        let mut out: String;
        match &self.doc {
            Some(d) => {
                out = d.to_text();
            },
            None => {
                out = String::new();
            },
        }
        let ghost base0 = out@;
        let mut i: usize = 0;
        proof {
            assert(out@ + lint_lines_text(self.lints@, 0) =~= out@);
        }
        while i < self.lints.len()
            invariant
                i <= self.lints@.len(),
                out@ == base0 + lint_lines_text(self.lints@, i as int),
            decreases self.lints@.len() - i,
        {
            let l = self.lints[i].to_text();
            out.append(l.as_str());
            proof {
                assert(out@ =~= base0 + lint_lines_text(self.lints@, i as int + 1));
            }
            i = i + 1;
        }
        let ghost base1 = base0 + lint_lines_text(self.lints@, self.lints@.len() as int);
        let mut i2: usize = 0;
        proof {
            assert(out@ + attr_lines_text(self.attributes.deep_view(), 0) =~= out@);
        }
        while i2 < self.attributes.len()
            invariant
                i2 <= self.attributes@.len(),
                self.attributes.deep_view().len() == self.attributes@.len(),
                forall|j: int|
                    0 <= j < self.attributes@.len() ==> self.attributes.deep_view()[j]
                        == self.attributes@[j]@,
                out@ == base1 + attr_lines_text(self.attributes.deep_view(), i2 as int),
            decreases self.attributes@.len() - i2,
        {
            out.append("#[");
            out.append(self.attributes[i2].as_str());
            out.append("]\n");
            proof {
                assert(out@ =~= base1 + attr_lines_text(self.attributes.deep_view(), i2 as int + 1));
            }
            i2 = i2 + 1;
        }
        if !is_trait {
            let v = self.vis.to_text();
            out.append(v.as_str());
        }
        match &self.extern_abi {
            Some(abi) => {
                out.append("extern \"");
                out.append(abi.as_str());
                out.append("\" ");
            },
            None => {},
        }
        if self.asyncness {
            out.append("async ");
        }
        out.append("fn ");
        out.append(self.name.as_str());
        let g = angle_to_text(&self.generics);
        out.append(g.as_str());
        out.append("(");
        match &self.self_arg {
            SelfArg::Bare => {},
            SelfArg::WithSelf => out.append("self"),
            SelfArg::WithSelfRef => out.append("&self"),
            SelfArg::WithMutSelf => out.append("mut self"),
            SelfArg::WithMutSelfRef => out.append("&mut self"),
        }
        let ghost base2 = base1 + attr_lines_text(
            self.attributes.deep_view(),
            self.attributes.deep_view().len() as int,
        ) + (if is_trait {
            Seq::<char>::empty()
        } else {
            vis_text(self.vis)
        }) + abi_text(self.extern_abi) + (if self.asyncness {
            "async "@
        } else {
            Seq::<char>::empty()
        }) + "fn "@ + self.name@ + angle_text(self.generics.deep_view()) + "("@ + self_arg_text(
            self.self_arg,
        );
        proof {
            assert(out@ =~= base2);
        }
        let mut i3: usize = 0;
        proof {
            assert(out@ + args_list_text(self.args@, self.self_arg, 0) =~= out@);
        }
        while i3 < self.args.len()
            invariant
                i3 <= self.args@.len(),
                out@ == base2 + args_list_text(self.args@, self.self_arg, i3 as int),
            decreases self.args@.len() - i3,
        {
            let skip_comma = i3 == 0 && matches!(&self.self_arg, SelfArg::Bare);
            if !skip_comma {
                out.append(", ");
            }
            out.append(self.args[i3].name.as_str());
            out.append(": ");
            let t = self.args[i3].ty.to_text();
            out.append(t.as_str());
            proof {
                assert(out@ =~= base2 + args_list_text(self.args@, self.self_arg, i3 as int + 1));
            }
            i3 = i3 + 1;
        }
        out.append(")");
        match &self.ret {
            Some(t) => {
                out.append(" -> ");
                let tt = t.to_text();
                out.append(tt.as_str());
            },
            None => {},
        }
        let b = bounds_to_text(&self.bounds);
        out.append(b.as_str());
        proof {
            assert(out@ =~= fn_head_text(*self, is_trait));
        }
        out
    }

    /// Writes the function. A missing body renders as a semicolon and is
    /// accepted only for a trait member; a trait member carries no
    /// visibility qualifier.
    #[verifier::rlimit(60)]
    pub fn fmt(&self, is_trait: bool, fmt: &mut Formatter)
        requires
            old(fmt).wf(),
            at_start(old(fmt).text()),
            fn_ok(*self, is_trait),
        ensures
            final(fmt).wf(),
            final(fmt).depth() == old(fmt).depth(),
            final(fmt).text() == old(fmt).text() + ind(
                function_text(*self, is_trait),
                true,
                old(fmt).depth(),
            ),
    {
        let ghost orig = fmt.text();
        let ghost n = fmt.depth();
        let ghost head = fn_head_text(*self, is_trait);
        let h = self.to_head_text(is_trait);
        fmt.write_str(h.as_str());
        proof {
            if head.len() == 0 {
                assert(ind(head, true, n) =~= Seq::<char>::empty());
                assert(fmt.text() =~= orig);
                assert(at_start(fmt.text()) == ends_line(head, true));
            } else {
                lemma_ind_ends(head, true, n);
                assert(fmt.text().last() == ind(head, true, n).last());
                assert(at_start(fmt.text()) == ends_line(head, true));
            }
        }
        let ghost e = ends_line(head, true);
        if self.body.is_empty() {
            fmt.write_str(";\n");
            proof {
                reveal(function_text);
                lemma_ind_concat(head, ";\n"@, true, n);
                assert(function_text(*self, is_trait) =~= head + ";\n"@);
                assert(fmt.text() =~= orig + ind(function_text(*self, is_trait), true, n));
            }
        } else {
            let ghost body_full = body_list_text(self.body@, self.body@.len() as int);
            crate::block::fmt_body_block(&self.body, fmt);
            proof {
                reveal(function_text);
                lemma_ind_concat(head, block_region_text(e, body_full), true, n);
                assert(function_text(*self, is_trait) =~= head + block_region_text(e, body_full));
                assert(fmt.text() =~= orig + ind(function_text(*self, is_trait), true, n));
            }
        }
    }

    /// Gets the name as text.
    pub fn name(&self) -> (r: &str)
        ensures
            r@ == self.name@,
    {
        self.name.as_str()
    }

    /// Sets the name.
    pub fn set_name(&mut self, name: &str) -> (r: &mut Function)
        ensures
            r.name@ == name@,
            r.doc == old(self).doc,
            r.lints == old(self).lints,
            r.vis == old(self).vis,
            r.asyncness == old(self).asyncness,
            r.generics == old(self).generics,
            r.self_arg == old(self).self_arg,
            r.args == old(self).args,
            r.ret == old(self).ret,
            r.bounds == old(self).bounds,
            r.body == old(self).body,
            r.attributes == old(self).attributes,
            r.extern_abi == old(self).extern_abi,
            *final(self) == *final(r),
    {
        self.name = name.to_owned();
        self
    }

    /// Sets the name.
    pub fn with_name(self, name: &str) -> (r: Function)
        ensures
            r.name@ == name@,
            r.doc == self.doc,
            r.lints == self.lints,
            r.vis == self.vis,
            r.asyncness == self.asyncness,
            r.generics == self.generics,
            r.self_arg == self.self_arg,
            r.args == self.args,
            r.ret == self.ret,
            r.bounds == self.bounds,
            r.body == self.body,
            r.attributes == self.attributes,
            r.extern_abi == self.extern_abi,
    {
        let mut s = self;
        s.name = name.to_owned();
        s
    }

    /// Gets the name mutably.
    pub fn name_mut(&mut self) -> (r: &mut String)
        ensures
            *r == old(self).name,
            final(self).name == *final(r),
            final(self).doc == old(self).doc,
            final(self).lints == old(self).lints,
            final(self).vis == old(self).vis,
            final(self).asyncness == old(self).asyncness,
            final(self).generics == old(self).generics,
            final(self).self_arg == old(self).self_arg,
            final(self).args == old(self).args,
            final(self).ret == old(self).ret,
            final(self).bounds == old(self).bounds,
            final(self).body == old(self).body,
            final(self).attributes == old(self).attributes,
            final(self).extern_abi == old(self).extern_abi,
    {
        &mut self.name
    }

    /// Gets the doc.
    pub fn doc(&self) -> (r: Option<&Doc>)
        ensures
            self.doc is Some <==> r is Some,
            r matches Some(d) ==> (self.doc matches Some(sd) && *d == sd),
    {
        self.doc.as_ref()
    }

    /// Sets the doc.
    pub fn set_doc(&mut self, doc: &str) -> (r: &mut Function)
        ensures
            r.doc matches Some(d) && d.0@ == doc@,
            r.name == old(self).name,
            r.lints == old(self).lints,
            r.vis == old(self).vis,
            r.asyncness == old(self).asyncness,
            r.generics == old(self).generics,
            r.self_arg == old(self).self_arg,
            r.args == old(self).args,
            r.ret == old(self).ret,
            r.bounds == old(self).bounds,
            r.body == old(self).body,
            r.attributes == old(self).attributes,
            r.extern_abi == old(self).extern_abi,
            *final(self) == *final(r),
    {
        self.doc = Some(Doc::new(doc));
        self
    }

    /// Sets the doc.
    pub fn with_doc(self, doc: &str) -> (r: Function)
        ensures
            r.doc matches Some(d) && d.0@ == doc@,
            r.name == self.name,
            r.lints == self.lints,
            r.vis == self.vis,
            r.asyncness == self.asyncness,
            r.generics == self.generics,
            r.self_arg == self.self_arg,
            r.args == self.args,
            r.ret == self.ret,
            r.bounds == self.bounds,
            r.body == self.body,
            r.attributes == self.attributes,
            r.extern_abi == self.extern_abi,
    {
        let mut s = self;
        s.doc = Some(Doc::new(doc));
        s
    }

    /// Gets the lints.
    pub fn lints(&self) -> (r: &Vec<Lint>)
        ensures
            *r == self.lints,
    {
        &self.lints
    }

    /// Sets the lints.
    pub fn set_lints(&mut self, lints: Vec<Lint>) -> (r: &mut Function)
        ensures
            r.lints == lints,
            r.name == old(self).name,
            r.doc == old(self).doc,
            r.vis == old(self).vis,
            r.asyncness == old(self).asyncness,
            r.generics == old(self).generics,
            r.self_arg == old(self).self_arg,
            r.args == old(self).args,
            r.ret == old(self).ret,
            r.bounds == old(self).bounds,
            r.body == old(self).body,
            r.attributes == old(self).attributes,
            r.extern_abi == old(self).extern_abi,
            *final(self) == *final(r),
    {
        self.lints = lints;
        self
    }

    /// Sets the lints.
    pub fn with_lints(self, lints: Vec<Lint>) -> (r: Function)
        ensures
            r.lints == lints,
            r.name == self.name,
            r.doc == self.doc,
            r.vis == self.vis,
            r.asyncness == self.asyncness,
            r.generics == self.generics,
            r.self_arg == self.self_arg,
            r.args == self.args,
            r.ret == self.ret,
            r.bounds == self.bounds,
            r.body == self.body,
            r.attributes == self.attributes,
            r.extern_abi == self.extern_abi,
    {
        let mut s = self;
        s.lints = lints;
        s
    }

    /// Gets the lints mutably.
    pub fn lints_mut(&mut self) -> (r: &mut Vec<Lint>)
        ensures
            *r == old(self).lints,
            final(self).lints == *final(r),
            final(self).name == old(self).name,
            final(self).doc == old(self).doc,
            final(self).vis == old(self).vis,
            final(self).asyncness == old(self).asyncness,
            final(self).generics == old(self).generics,
            final(self).self_arg == old(self).self_arg,
            final(self).args == old(self).args,
            final(self).ret == old(self).ret,
            final(self).bounds == old(self).bounds,
            final(self).body == old(self).body,
            final(self).attributes == old(self).attributes,
            final(self).extern_abi == old(self).extern_abi,
    {
        &mut self.lints
    }

    /// Pushes one entry onto the lints.
    pub fn push_lint(&mut self, lint: Lint) -> (r: &mut Function)
        ensures
            r.lints@ == old(self).lints@.push(lint),
            r.name == old(self).name,
            r.doc == old(self).doc,
            r.vis == old(self).vis,
            r.asyncness == old(self).asyncness,
            r.generics == old(self).generics,
            r.self_arg == old(self).self_arg,
            r.args == old(self).args,
            r.ret == old(self).ret,
            r.bounds == old(self).bounds,
            r.body == old(self).body,
            r.attributes == old(self).attributes,
            r.extern_abi == old(self).extern_abi,
            *final(self) == *final(r),
    {
        self.lints.push(lint);
        self
    }

    /// Pushes one entry onto the lints.
    pub fn with_lint(self, lint: Lint) -> (r: Function)
        ensures
            r.lints@ == self.lints@.push(lint),
            r.name == self.name,
            r.doc == self.doc,
            r.vis == self.vis,
            r.asyncness == self.asyncness,
            r.generics == self.generics,
            r.self_arg == self.self_arg,
            r.args == self.args,
            r.ret == self.ret,
            r.bounds == self.bounds,
            r.body == self.body,
            r.attributes == self.attributes,
            r.extern_abi == self.extern_abi,
    {
        let mut s = self;
        s.lints.push(lint);
        s
    }

    /// Gets the vis.
    pub fn vis(&self) -> (r: &Vis)
        ensures
            *r == self.vis,
    {
        &self.vis
    }

    /// Sets the vis.
    pub fn set_vis(&mut self, vis: Vis) -> (r: &mut Function)
        ensures
            r.vis == vis,
            r.name == old(self).name,
            r.doc == old(self).doc,
            r.lints == old(self).lints,
            r.asyncness == old(self).asyncness,
            r.generics == old(self).generics,
            r.self_arg == old(self).self_arg,
            r.args == old(self).args,
            r.ret == old(self).ret,
            r.bounds == old(self).bounds,
            r.body == old(self).body,
            r.attributes == old(self).attributes,
            r.extern_abi == old(self).extern_abi,
            *final(self) == *final(r),
    {
        self.vis = vis;
        self
    }

    /// Sets the vis.
    pub fn with_vis(self, vis: Vis) -> (r: Function)
        ensures
            r.vis == vis,
            r.name == self.name,
            r.doc == self.doc,
            r.lints == self.lints,
            r.asyncness == self.asyncness,
            r.generics == self.generics,
            r.self_arg == self.self_arg,
            r.args == self.args,
            r.ret == self.ret,
            r.bounds == self.bounds,
            r.body == self.body,
            r.attributes == self.attributes,
            r.extern_abi == self.extern_abi,
    {
        let mut s = self;
        s.vis = vis;
        s
    }

    /// Gets the vis mutably.
    pub fn vis_mut(&mut self) -> (r: &mut Vis)
        ensures
            *r == old(self).vis,
            final(self).vis == *final(r),
            final(self).name == old(self).name,
            final(self).doc == old(self).doc,
            final(self).lints == old(self).lints,
            final(self).asyncness == old(self).asyncness,
            final(self).generics == old(self).generics,
            final(self).self_arg == old(self).self_arg,
            final(self).args == old(self).args,
            final(self).ret == old(self).ret,
            final(self).bounds == old(self).bounds,
            final(self).body == old(self).body,
            final(self).attributes == old(self).attributes,
            final(self).extern_abi == old(self).extern_abi,
    {
        &mut self.vis
    }

    /// Gets the generics.
    pub fn generics(&self) -> (r: &Vec<String>)
        ensures
            *r == self.generics,
    {
        &self.generics
    }

    /// Sets the generics.
    pub fn set_generics(&mut self, generics: Vec<String>) -> (r: &mut Function)
        ensures
            r.generics == generics,
            r.name == old(self).name,
            r.doc == old(self).doc,
            r.lints == old(self).lints,
            r.vis == old(self).vis,
            r.asyncness == old(self).asyncness,
            r.self_arg == old(self).self_arg,
            r.args == old(self).args,
            r.ret == old(self).ret,
            r.bounds == old(self).bounds,
            r.body == old(self).body,
            r.attributes == old(self).attributes,
            r.extern_abi == old(self).extern_abi,
            *final(self) == *final(r),
    {
        self.generics = generics;
        self
    }

    /// Sets the generics.
    pub fn with_generics(self, generics: Vec<String>) -> (r: Function)
        ensures
            r.generics == generics,
            r.name == self.name,
            r.doc == self.doc,
            r.lints == self.lints,
            r.vis == self.vis,
            r.asyncness == self.asyncness,
            r.self_arg == self.self_arg,
            r.args == self.args,
            r.ret == self.ret,
            r.bounds == self.bounds,
            r.body == self.body,
            r.attributes == self.attributes,
            r.extern_abi == self.extern_abi,
    {
        let mut s = self;
        s.generics = generics;
        s
    }

    /// Gets the generics mutably.
    pub fn generics_mut(&mut self) -> (r: &mut Vec<String>)
        ensures
            *r == old(self).generics,
            final(self).generics == *final(r),
            final(self).name == old(self).name,
            final(self).doc == old(self).doc,
            final(self).lints == old(self).lints,
            final(self).vis == old(self).vis,
            final(self).asyncness == old(self).asyncness,
            final(self).self_arg == old(self).self_arg,
            final(self).args == old(self).args,
            final(self).ret == old(self).ret,
            final(self).bounds == old(self).bounds,
            final(self).body == old(self).body,
            final(self).attributes == old(self).attributes,
            final(self).extern_abi == old(self).extern_abi,
    {
        &mut self.generics
    }

    /// Pushes one entry onto the generics.
    pub fn push_generic(&mut self, generic: &str) -> (r: &mut Function)
        ensures
            r.generics.deep_view() == old(self).generics.deep_view().push(generic@),
            r.name == old(self).name,
            r.doc == old(self).doc,
            r.lints == old(self).lints,
            r.vis == old(self).vis,
            r.asyncness == old(self).asyncness,
            r.self_arg == old(self).self_arg,
            r.args == old(self).args,
            r.ret == old(self).ret,
            r.bounds == old(self).bounds,
            r.body == old(self).body,
            r.attributes == old(self).attributes,
            r.extern_abi == old(self).extern_abi,
            *final(self) == *final(r),
    {
        self.generics.push(generic.to_owned());
        proof {
            assert(self.generics.deep_view() =~= old(self).generics.deep_view().push(generic@));
        }
        self
    }

    /// Pushes one entry onto the generics.
    pub fn with_generic(self, generic: &str) -> (r: Function)
        ensures
            r.generics.deep_view() == self.generics.deep_view().push(generic@),
            r.name == self.name,
            r.doc == self.doc,
            r.lints == self.lints,
            r.vis == self.vis,
            r.asyncness == self.asyncness,
            r.self_arg == self.self_arg,
            r.args == self.args,
            r.ret == self.ret,
            r.bounds == self.bounds,
            r.body == self.body,
            r.attributes == self.attributes,
            r.extern_abi == self.extern_abi,
    {
        let mut s = self;
        s.generics.push(generic.to_owned());
        proof {
            assert(s.generics.deep_view() =~= self.generics.deep_view().push(generic@));
        }
        s
    }

    /// Gets the self arg.
    pub fn self_arg(&self) -> (r: &SelfArg)
        ensures
            *r == self.self_arg,
    {
        &self.self_arg
    }

    /// Sets the self arg.
    pub fn set_self_arg(&mut self, self_arg: SelfArg) -> (r: &mut Function)
        ensures
            r.self_arg == self_arg,
            r.name == old(self).name,
            r.doc == old(self).doc,
            r.lints == old(self).lints,
            r.vis == old(self).vis,
            r.asyncness == old(self).asyncness,
            r.generics == old(self).generics,
            r.args == old(self).args,
            r.ret == old(self).ret,
            r.bounds == old(self).bounds,
            r.body == old(self).body,
            r.attributes == old(self).attributes,
            r.extern_abi == old(self).extern_abi,
            *final(self) == *final(r),
    {
        self.self_arg = self_arg;
        self
    }

    /// Sets the self arg.
    pub fn with_self_arg(self, self_arg: SelfArg) -> (r: Function)
        ensures
            r.self_arg == self_arg,
            r.name == self.name,
            r.doc == self.doc,
            r.lints == self.lints,
            r.vis == self.vis,
            r.asyncness == self.asyncness,
            r.generics == self.generics,
            r.args == self.args,
            r.ret == self.ret,
            r.bounds == self.bounds,
            r.body == self.body,
            r.attributes == self.attributes,
            r.extern_abi == self.extern_abi,
    {
        let mut s = self;
        s.self_arg = self_arg;
        s
    }

    /// Gets the self arg mutably.
    pub fn self_arg_mut(&mut self) -> (r: &mut SelfArg)
        ensures
            *r == old(self).self_arg,
            final(self).self_arg == *final(r),
            final(self).name == old(self).name,
            final(self).doc == old(self).doc,
            final(self).lints == old(self).lints,
            final(self).vis == old(self).vis,
            final(self).asyncness == old(self).asyncness,
            final(self).generics == old(self).generics,
            final(self).args == old(self).args,
            final(self).ret == old(self).ret,
            final(self).bounds == old(self).bounds,
            final(self).body == old(self).body,
            final(self).attributes == old(self).attributes,
            final(self).extern_abi == old(self).extern_abi,
    {
        &mut self.self_arg
    }

    /// Gets the args.
    pub fn args(&self) -> (r: &Vec<Field>)
        ensures
            *r == self.args,
    {
        &self.args
    }

    /// Sets the args.
    pub fn set_args(&mut self, args: Vec<Field>) -> (r: &mut Function)
        ensures
            r.args == args,
            r.name == old(self).name,
            r.doc == old(self).doc,
            r.lints == old(self).lints,
            r.vis == old(self).vis,
            r.asyncness == old(self).asyncness,
            r.generics == old(self).generics,
            r.self_arg == old(self).self_arg,
            r.ret == old(self).ret,
            r.bounds == old(self).bounds,
            r.body == old(self).body,
            r.attributes == old(self).attributes,
            r.extern_abi == old(self).extern_abi,
            *final(self) == *final(r),
    {
        self.args = args;
        self
    }

    /// Sets the args.
    pub fn with_args(self, args: Vec<Field>) -> (r: Function)
        ensures
            r.args == args,
            r.name == self.name,
            r.doc == self.doc,
            r.lints == self.lints,
            r.vis == self.vis,
            r.asyncness == self.asyncness,
            r.generics == self.generics,
            r.self_arg == self.self_arg,
            r.ret == self.ret,
            r.bounds == self.bounds,
            r.body == self.body,
            r.attributes == self.attributes,
            r.extern_abi == self.extern_abi,
    {
        let mut s = self;
        s.args = args;
        s
    }

    /// Gets the args mutably.
    pub fn args_mut(&mut self) -> (r: &mut Vec<Field>)
        ensures
            *r == old(self).args,
            final(self).args == *final(r),
            final(self).name == old(self).name,
            final(self).doc == old(self).doc,
            final(self).lints == old(self).lints,
            final(self).vis == old(self).vis,
            final(self).asyncness == old(self).asyncness,
            final(self).generics == old(self).generics,
            final(self).self_arg == old(self).self_arg,
            final(self).ret == old(self).ret,
            final(self).bounds == old(self).bounds,
            final(self).body == old(self).body,
            final(self).attributes == old(self).attributes,
            final(self).extern_abi == old(self).extern_abi,
    {
        &mut self.args
    }

    /// Gets the bounds.
    pub fn bounds(&self) -> (r: &Vec<Bound>)
        ensures
            *r == self.bounds,
    {
        &self.bounds
    }

    /// Sets the bounds.
    pub fn set_bounds(&mut self, bounds: Vec<Bound>) -> (r: &mut Function)
        ensures
            r.bounds == bounds,
            r.name == old(self).name,
            r.doc == old(self).doc,
            r.lints == old(self).lints,
            r.vis == old(self).vis,
            r.asyncness == old(self).asyncness,
            r.generics == old(self).generics,
            r.self_arg == old(self).self_arg,
            r.args == old(self).args,
            r.ret == old(self).ret,
            r.body == old(self).body,
            r.attributes == old(self).attributes,
            r.extern_abi == old(self).extern_abi,
            *final(self) == *final(r),
    {
        self.bounds = bounds;
        self
    }

    /// Sets the bounds.
    pub fn with_bounds(self, bounds: Vec<Bound>) -> (r: Function)
        ensures
            r.bounds == bounds,
            r.name == self.name,
            r.doc == self.doc,
            r.lints == self.lints,
            r.vis == self.vis,
            r.asyncness == self.asyncness,
            r.generics == self.generics,
            r.self_arg == self.self_arg,
            r.args == self.args,
            r.ret == self.ret,
            r.body == self.body,
            r.attributes == self.attributes,
            r.extern_abi == self.extern_abi,
    {
        let mut s = self;
        s.bounds = bounds;
        s
    }

    /// Gets the bounds mutably.
    pub fn bounds_mut(&mut self) -> (r: &mut Vec<Bound>)
        ensures
            *r == old(self).bounds,
            final(self).bounds == *final(r),
            final(self).name == old(self).name,
            final(self).doc == old(self).doc,
            final(self).lints == old(self).lints,
            final(self).vis == old(self).vis,
            final(self).asyncness == old(self).asyncness,
            final(self).generics == old(self).generics,
            final(self).self_arg == old(self).self_arg,
            final(self).args == old(self).args,
            final(self).ret == old(self).ret,
            final(self).body == old(self).body,
            final(self).attributes == old(self).attributes,
            final(self).extern_abi == old(self).extern_abi,
    {
        &mut self.bounds
    }

    /// Pushes one entry onto the bounds.
    pub fn push_bound(&mut self, bound: Bound) -> (r: &mut Function)
        ensures
            r.bounds@ == old(self).bounds@.push(bound),
            r.name == old(self).name,
            r.doc == old(self).doc,
            r.lints == old(self).lints,
            r.vis == old(self).vis,
            r.asyncness == old(self).asyncness,
            r.generics == old(self).generics,
            r.self_arg == old(self).self_arg,
            r.args == old(self).args,
            r.ret == old(self).ret,
            r.body == old(self).body,
            r.attributes == old(self).attributes,
            r.extern_abi == old(self).extern_abi,
            *final(self) == *final(r),
    {
        self.bounds.push(bound);
        self
    }

    /// Pushes one entry onto the bounds.
    pub fn with_bound(self, bound: Bound) -> (r: Function)
        ensures
            r.bounds@ == self.bounds@.push(bound),
            r.name == self.name,
            r.doc == self.doc,
            r.lints == self.lints,
            r.vis == self.vis,
            r.asyncness == self.asyncness,
            r.generics == self.generics,
            r.self_arg == self.self_arg,
            r.args == self.args,
            r.ret == self.ret,
            r.body == self.body,
            r.attributes == self.attributes,
            r.extern_abi == self.extern_abi,
    {
        let mut s = self;
        s.bounds.push(bound);
        s
    }

    /// Gets the body.
    pub fn body(&self) -> (r: &Vec<Body>)
        ensures
            *r == self.body,
    {
        &self.body
    }

    /// Sets the body.
    pub fn set_body(&mut self, body: Vec<Body>) -> (r: &mut Function)
        ensures
            r.body == body,
            r.name == old(self).name,
            r.doc == old(self).doc,
            r.lints == old(self).lints,
            r.vis == old(self).vis,
            r.asyncness == old(self).asyncness,
            r.generics == old(self).generics,
            r.self_arg == old(self).self_arg,
            r.args == old(self).args,
            r.ret == old(self).ret,
            r.bounds == old(self).bounds,
            r.attributes == old(self).attributes,
            r.extern_abi == old(self).extern_abi,
            *final(self) == *final(r),
    {
        self.body = body;
        self
    }

    /// Sets the body.
    pub fn with_body(self, body: Vec<Body>) -> (r: Function)
        ensures
            r.body == body,
            r.name == self.name,
            r.doc == self.doc,
            r.lints == self.lints,
            r.vis == self.vis,
            r.asyncness == self.asyncness,
            r.generics == self.generics,
            r.self_arg == self.self_arg,
            r.args == self.args,
            r.ret == self.ret,
            r.bounds == self.bounds,
            r.attributes == self.attributes,
            r.extern_abi == self.extern_abi,
    {
        let mut s = self;
        s.body = body;
        s
    }

    /// Gets the body mutably.
    pub fn body_mut(&mut self) -> (r: &mut Vec<Body>)
        ensures
            *r == old(self).body,
            final(self).body == *final(r),
            final(self).name == old(self).name,
            final(self).doc == old(self).doc,
            final(self).lints == old(self).lints,
            final(self).vis == old(self).vis,
            final(self).asyncness == old(self).asyncness,
            final(self).generics == old(self).generics,
            final(self).self_arg == old(self).self_arg,
            final(self).args == old(self).args,
            final(self).ret == old(self).ret,
            final(self).bounds == old(self).bounds,
            final(self).attributes == old(self).attributes,
            final(self).extern_abi == old(self).extern_abi,
    {
        &mut self.body
    }

    /// Gets the attributes.
    pub fn attributes(&self) -> (r: &Vec<String>)
        ensures
            *r == self.attributes,
    {
        &self.attributes
    }

    /// Sets the attributes.
    pub fn set_attributes(&mut self, attributes: Vec<String>) -> (r: &mut Function)
        ensures
            r.attributes == attributes,
            r.name == old(self).name,
            r.doc == old(self).doc,
            r.lints == old(self).lints,
            r.vis == old(self).vis,
            r.asyncness == old(self).asyncness,
            r.generics == old(self).generics,
            r.self_arg == old(self).self_arg,
            r.args == old(self).args,
            r.ret == old(self).ret,
            r.bounds == old(self).bounds,
            r.body == old(self).body,
            r.extern_abi == old(self).extern_abi,
            *final(self) == *final(r),
    {
        self.attributes = attributes;
        self
    }

    /// Sets the attributes.
    pub fn with_attributes(self, attributes: Vec<String>) -> (r: Function)
        ensures
            r.attributes == attributes,
            r.name == self.name,
            r.doc == self.doc,
            r.lints == self.lints,
            r.vis == self.vis,
            r.asyncness == self.asyncness,
            r.generics == self.generics,
            r.self_arg == self.self_arg,
            r.args == self.args,
            r.ret == self.ret,
            r.bounds == self.bounds,
            r.body == self.body,
            r.extern_abi == self.extern_abi,
    {
        let mut s = self;
        s.attributes = attributes;
        s
    }

    /// Gets the attributes mutably.
    pub fn attributes_mut(&mut self) -> (r: &mut Vec<String>)
        ensures
            *r == old(self).attributes,
            final(self).attributes == *final(r),
            final(self).name == old(self).name,
            final(self).doc == old(self).doc,
            final(self).lints == old(self).lints,
            final(self).vis == old(self).vis,
            final(self).asyncness == old(self).asyncness,
            final(self).generics == old(self).generics,
            final(self).self_arg == old(self).self_arg,
            final(self).args == old(self).args,
            final(self).ret == old(self).ret,
            final(self).bounds == old(self).bounds,
            final(self).body == old(self).body,
            final(self).extern_abi == old(self).extern_abi,
    {
        &mut self.attributes
    }

    /// Pushes one entry onto the attributes.
    pub fn push_attribute(&mut self, attribute: &str) -> (r: &mut Function)
        ensures
            r.attributes.deep_view() == old(self).attributes.deep_view().push(attribute@),
            r.name == old(self).name,
            r.doc == old(self).doc,
            r.lints == old(self).lints,
            r.vis == old(self).vis,
            r.asyncness == old(self).asyncness,
            r.generics == old(self).generics,
            r.self_arg == old(self).self_arg,
            r.args == old(self).args,
            r.ret == old(self).ret,
            r.bounds == old(self).bounds,
            r.body == old(self).body,
            r.extern_abi == old(self).extern_abi,
            *final(self) == *final(r),
    {
        self.attributes.push(attribute.to_owned());
        proof {
            assert(self.attributes.deep_view() =~= old(self).attributes.deep_view().push(attribute@));
        }
        self
    }

    /// Pushes one entry onto the attributes.
    pub fn with_attribute(self, attribute: &str) -> (r: Function)
        ensures
            r.attributes.deep_view() == self.attributes.deep_view().push(attribute@),
            r.name == self.name,
            r.doc == self.doc,
            r.lints == self.lints,
            r.vis == self.vis,
            r.asyncness == self.asyncness,
            r.generics == self.generics,
            r.self_arg == self.self_arg,
            r.args == self.args,
            r.ret == self.ret,
            r.bounds == self.bounds,
            r.body == self.body,
            r.extern_abi == self.extern_abi,
    {
        let mut s = self;
        s.attributes.push(attribute.to_owned());
        proof {
            assert(s.attributes.deep_view() =~= self.attributes.deep_view().push(attribute@));
        }
        s
    }


    /// Gets the doc mutably, when one is set.
    pub fn doc_mut(&mut self) -> (r: Option<&mut Doc>)
        ensures
            old(self).doc is None ==> (r is None && final(self).doc is None),
            old(self).doc is Some ==> (r is Some && *r.unwrap() == old(self).doc.unwrap()
                && final(self).doc == Some(*final(r.unwrap()))),
            final(self).name == old(self).name,
            final(self).lints == old(self).lints,
            final(self).vis == old(self).vis,
            final(self).asyncness == old(self).asyncness,
            final(self).generics == old(self).generics,
            final(self).self_arg == old(self).self_arg,
            final(self).args == old(self).args,
            final(self).bounds == old(self).bounds,
            final(self).body == old(self).body,
            final(self).attributes == old(self).attributes,
            final(self).ret == old(self).ret,
            final(self).extern_abi == old(self).extern_abi,
    {
        self.doc.as_mut()
    }

    /// Gets the ret mutably, when one is set.
    pub fn ret_mut(&mut self) -> (r: Option<&mut Type>)
        ensures
            old(self).ret is None ==> (r is None && final(self).ret is None),
            old(self).ret is Some ==> (r is Some && *r.unwrap() == old(self).ret.unwrap()
                && final(self).ret == Some(*final(r.unwrap()))),
            final(self).name == old(self).name,
            final(self).lints == old(self).lints,
            final(self).vis == old(self).vis,
            final(self).asyncness == old(self).asyncness,
            final(self).generics == old(self).generics,
            final(self).self_arg == old(self).self_arg,
            final(self).args == old(self).args,
            final(self).bounds == old(self).bounds,
            final(self).body == old(self).body,
            final(self).attributes == old(self).attributes,
            final(self).doc == old(self).doc,
            final(self).extern_abi == old(self).extern_abi,
    {
        self.ret.as_mut()
    }

    /// Gets the extern abi mutably, when one is set.
    pub fn extern_abi_mut(&mut self) -> (r: Option<&mut String>)
        ensures
            old(self).extern_abi is None ==> (r is None && final(self).extern_abi is None),
            old(self).extern_abi is Some ==> (r is Some && *r.unwrap() == old(self).extern_abi.unwrap()
                && final(self).extern_abi == Some(*final(r.unwrap()))),
            final(self).name == old(self).name,
            final(self).lints == old(self).lints,
            final(self).vis == old(self).vis,
            final(self).asyncness == old(self).asyncness,
            final(self).generics == old(self).generics,
            final(self).self_arg == old(self).self_arg,
            final(self).args == old(self).args,
            final(self).bounds == old(self).bounds,
            final(self).body == old(self).body,
            final(self).attributes == old(self).attributes,
            final(self).doc == old(self).doc,
            final(self).ret == old(self).ret,
    {
        self.extern_abi.as_mut()
    }
}

} // verus!
