use vstd::prelude::*;
use vstd::string::StringExecFns;

use crate::enums::{enum_ok, enum_text, Enum};
use crate::formatter::{at_start, ind, Formatter};
use crate::function::{fn_ok, function_text, Function};
use crate::impls::{impl_ok, impl_text, Impl};
use crate::line_break::LineBreak;
use crate::module::{module_ok, module_text, Module};
use crate::structs::{struct_ok, struct_text, Struct};
use crate::fields::{fields_ok, Fields};
use crate::visibility::Vis;
use crate::traits::{trait_ok, trait_text, Trait};
use crate::type_alias::{type_alias_text, TypeAlias};

verus! {

/// One renderable node of a scope.
pub enum Item {
    /// A nested module.
    Module(Module),
    /// A struct declaration.
    Struct(Struct),
    /// A free function.
    Function(Function),
    /// A trait declaration.
    Trait(Trait),
    /// An enum declaration.
    Enum(Enum),
    /// An impl block.
    Impl(Impl),
    /// Raw text, written verbatim on its own line.
    Raw(String),
    /// A type alias.
    TypeAlias(TypeAlias),
    /// An explicit line break.
    LineBreak(LineBreak),
}

/// The rendered form of one item.
pub open spec fn item_text(it: Item) -> Seq<char>
    decreases it,
{
    match it {
        Item::Module(m) => module_text(m),
        Item::Struct(s) => struct_text(s),
        Item::Function(f) => function_text(f, false),
        Item::Trait(t) => trait_text(t),
        Item::Enum(e) => enum_text(e),
        Item::Impl(im) => impl_text(im),
        Item::Raw(s) => s@ + "\n"@,
        Item::TypeAlias(t) => type_alias_text(t),
        Item::LineBreak(b) => Seq::empty(),
    }
}

/// A renderable item.
pub open spec fn item_ok(it: Item) -> bool
    decreases it,
{
    match it {
        Item::Module(m) => module_ok(m),
        Item::Struct(s) => struct_ok(s),
        Item::Function(f) => fn_ok(f, false),
        Item::Trait(t) => trait_ok(t),
        Item::Enum(e) => enum_ok(e),
        Item::Impl(im) => impl_ok(im),
        Item::Raw(s) => true,
        Item::TypeAlias(t) => true,
        Item::LineBreak(b) => true,
    }
}

/// Checks a field list for renderability.
fn fields_renderable(f: &Fields) -> (r: bool)
    ensures
        r == fields_ok(*f),
{
    match f {
        Fields::Empty => true,
        Fields::Tuple(ts) => ts.len() > 0,
        Fields::Named(fs) => fs.len() > 0,
    }
}

/// Checks a function for renderability in the given position.
fn function_renderable(f: &crate::function::Function, is_trait: bool) -> (r: bool)
    ensures
        r == crate::function::fn_ok(*f, is_trait),
{
    let body_ok = f.body.len() > 0 || is_trait;
    let vis_ok = !is_trait || match f.vis {
        Vis::Private => true,
        _ => false,
    };
    body_ok && vis_ok
}

impl Item {
    /// Checks the item for renderability: a concrete function has a body,
    /// a trait member carries no visibility, field lists are non-empty,
    /// and impl members are concrete.
    pub fn is_renderable(&self) -> (r: bool)
        ensures
            r == item_ok(*self),
        decreases *self,
    {
        match self {
            Item::Module(m) => m.scope.is_renderable(),
            Item::Struct(s) => fields_renderable(&s.fields),
            Item::Function(f) => function_renderable(f, false),
            Item::Trait(t) => {
                let mut i: usize = 0;
                let mut ok = true;
                while i < t.functions.len()
                    invariant
                        i <= t.functions@.len(),
                        ok == (forall|j: int|
                            0 <= j < i ==> crate::function::fn_ok(
                                #[trigger] t.functions@[j],
                                true,
                            )),
                    decreases t.functions@.len() - i,
                {
                    if !function_renderable(&t.functions[i], true) {
                        ok = false;
                    }
                    i = i + 1;
                }
                ok
            },
            Item::Enum(e) => {
                let mut i: usize = 0;
                let mut ok = true;
                while i < e.variants.len()
                    invariant
                        i <= e.variants@.len(),
                        ok == (forall|j: int|
                            0 <= j < i ==> fields_ok((#[trigger] e.variants@[j]).fields)),
                    decreases e.variants@.len() - i,
                {
                    if !fields_renderable(&e.variants[i].fields) {
                        ok = false;
                    }
                    i = i + 1;
                }
                ok
            },
            Item::Impl(im) => {
                let mut ok = true;
                let mut i: usize = 0;
                while i < im.associated_consts.len()
                    invariant
                        i <= im.associated_consts@.len(),
                        ok == (forall|j: int|
                            0 <= j < i ==> (#[trigger] im.associated_consts@[j]).concrete_value is Some),
                    decreases im.associated_consts@.len() - i,
                {
                    if im.associated_consts[i].concrete_value.is_none() {
                        ok = false;
                    }
                    i = i + 1;
                }
                let mut ok2 = true;
                let mut i2: usize = 0;
                while i2 < im.associated_types.len()
                    invariant
                        i2 <= im.associated_types@.len(),
                        ok2 == (forall|j: int|
                            0 <= j < i2 ==> (#[trigger] im.associated_types@[j]).concrete_ty is Some),
                    decreases im.associated_types@.len() - i2,
                {
                    if im.associated_types[i2].concrete_ty.is_none() {
                        ok2 = false;
                    }
                    i2 = i2 + 1;
                }
                let mut ok3 = true;
                let mut i3: usize = 0;
                while i3 < im.functions.len()
                    invariant
                        i3 <= im.functions@.len(),
                        ok3 == (forall|j: int|
                            0 <= j < i3 ==> crate::function::fn_ok(
                                #[trigger] im.functions@[j],
                                false,
                            )),
                    decreases im.functions@.len() - i3,
                {
                    if !function_renderable(&im.functions[i3], false) {
                        ok3 = false;
                    }
                    i3 = i3 + 1;
                }
                ok && ok2 && ok3
            },
            Item::Raw(s) => true,
            Item::TypeAlias(t) => true,
            Item::LineBreak(b) => true,
        }
    }

    /// Writes the item, starting at a line start.
    pub fn fmt(&self, fmt: &mut Formatter)
        requires
            old(fmt).wf(),
            at_start(old(fmt).text()),
            item_ok(*self),
        ensures
            final(fmt).wf(),
            final(fmt).depth() == old(fmt).depth(),
            final(fmt).text() == old(fmt).text() + ind(item_text(*self), true, old(fmt).depth()),
        decreases *self,
    {
        match self {
            Item::Module(m) => {
                m.fmt(fmt);
            },
            Item::Struct(s) => {
                s.fmt(fmt);
            },
            Item::Function(f) => {
                f.fmt(false, fmt);
            },
            Item::Trait(t) => {
                t.fmt(fmt);
            },
            Item::Enum(e) => {
                e.fmt(fmt);
            },
            Item::Impl(im) => {
                im.fmt(fmt);
            },
            Item::Raw(s) => {
                let mut line = s.clone();
                line.append("\n");
                fmt.write_str(line.as_str());
                proof {
                    assert(line@ =~= s@ + "\n"@);
                }
            },
            Item::TypeAlias(t) => {
                t.fmt(fmt);
            },
            Item::LineBreak(b) => {
                b.fmt(fmt);
                proof {
                    assert(ind(item_text(*self), true, old(fmt).depth()) =~= Seq::<char>::empty());
                    assert(old(fmt).text() + Seq::<char>::empty() =~= old(fmt).text());
                }
            },
        }
    }
}

} // verus!
