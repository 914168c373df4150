use vstd::prelude::*;
use vstd::string::StringExecFns;

use crate::doc::Doc;
use crate::formatter::{
    at_start, block_region_text, ends_line, ind, lemma_block_region_any, lemma_ind_concat,
    lemma_ind_ends, lemma_ind_one, open_text, Formatter,
};
use crate::lint::Lint;
use crate::import::Import;
use crate::imports_table::{spec_table_insert, table_view};
use crate::scope::{first_segment, has_module, scope_ok, scope_text, Scope};
use crate::structs::Struct;
use crate::function::Function;
use crate::enums::Enum;
use crate::impls::Impl;
use crate::traits::Trait;
use crate::item::Item;
use crate::ty::Type;
use crate::type_def::{lint_lines_text, opt_doc_text};
use crate::visibility::{vis_text, Vis};

verus! {

/// A module: a named scope with its own documentation, attributes and
/// visibility.
pub struct Module {
    /// The module's name.
    pub name: String,
    /// The module's visibility.
    pub vis: Vis,
    /// The module's documentation.
    pub doc: Option<Doc>,
    /// The module's contents.
    pub scope: Scope,
    /// Attribute bodies, each written as `#[...]` followed by one space.
    pub attributes: Vec<String>,
    /// Lint attributes written above the module.
    pub lints: Vec<Lint>,
}

/// The first `i` module attribute lines; each carries a trailing space
/// after the closing bracket.
pub open spec fn module_attr_lines_text(ls: Seq<Seq<char>>, i: int) -> Seq<char>
    decreases i,
{
    if 0 < i <= ls.len() {
        module_attr_lines_text(ls, i - 1) + "#["@ + ls[i - 1] + "] \n"@
    } else {
        Seq::empty()
    }
}

/// The text before the module's block.
pub open spec fn module_head_text(m: Module) -> Seq<char> {
    opt_doc_text(m.doc) + module_attr_lines_text(
        m.attributes.deep_view(),
        m.attributes.deep_view().len() as int,
    ) + lint_lines_text(m.lints@, m.lints@.len() as int) + vis_text(m.vis) + "mod "@ + m.name@
}

/// The rendered module: its head, then its scope inside a block.
pub open spec fn module_text(m: Module) -> Seq<char>
    decreases m,
{
    module_head_text(m) + block_region_text(
        ends_line(module_head_text(m), true),
        scope_text(m.scope),
    )
}

/// A renderable module: its scope is renderable.
pub open spec fn module_ok(m: Module) -> bool
    decreases m,
{
    scope_ok(m.scope)
}

impl Module {
    /// Creates a module with the given name.
    pub fn new(name: &str) -> (r: Module)
        ensures
            r.name@ == name@,
            r.vis is Private,
            r.doc is None,
            r.scope.doc is None,
            crate::imports_table::table_view(&r.scope.imports).len() == 0,
            r.scope.items@.len() == 0,
            r.attributes@.len() == 0,
            r.lints@.len() == 0,
    {
        Module {
            name: name.to_owned(),
            vis: Vis::Private,
            doc: None,
            scope: Scope::new(),
            attributes: Vec::new(),
            lints: Vec::new(),
        }
    }

    /// Gets the module's scope.
    pub fn scope(&self) -> (r: &Scope)
        ensures
            *r == self.scope,
    {
        &self.scope
    }

    /// Sets the module's scope.
    pub fn set_scope(&mut self, scope: Scope) -> (r: &mut Module)
        ensures
            r.scope == scope,
            *r == (Module { scope: r.scope, ..*old(self) }),
            *final(self) == *final(r),
    {
        self.scope = scope;
        self
    }

    /// Sets the module's scope.
    pub fn with_scope(self, scope: Scope) -> (r: Module)
        ensures
            r == (Module { scope, ..self }),
    {
        let mut s = self;
        s.scope = scope;
        s
    }

    /// Gets the module's scope mutably.
    pub fn scope_mut(&mut self) -> (r: &mut Scope)
        ensures
            *r == old(self).scope,
            *final(self) == (Module { scope: *final(r), ..*old(self) }),
    {
        &mut self.scope
    }


    /// Gets the module name.
    pub fn name(&self) -> (r: &str)
        ensures
            r@ == self.name@,
    {
        self.name.as_str()
    }

    /// Sets the module name.
    pub fn set_name(&mut self, name: &str) -> (r: &mut Module)
        ensures
            r.name@ == name@,
            *r == (Module { name: r.name, ..*old(self) }),
            *final(self) == *final(r),
    {
        self.name = name.to_owned();
        self
    }

    /// Sets the module name.
    pub fn with_name(self, name: &str) -> (r: Module)
        ensures
            r.name@ == name@,
            r == (Module { name: r.name, ..self }),
    {
        let mut s = self;
        s.name = name.to_owned();
        s
    }

    /// Gets the module name mutably.
    pub fn name_mut(&mut self) -> (r: &mut String)
        ensures
            *r == old(self).name,
            *final(self) == (Module { name: *final(r), ..*old(self) }),
    {
        &mut self.name
    }

    /// Gets the module visibility.
    pub fn vis(&self) -> (r: &Vis)
        ensures
            *r == self.vis,
    {
        &self.vis
    }

    /// Sets the module visibility.
    pub fn set_vis(&mut self, vis: Vis) -> (r: &mut Module)
        ensures
            r.vis == vis,
            *r == (Module { vis: r.vis, ..*old(self) }),
            *final(self) == *final(r),
    {
        self.vis = vis;
        self
    }

    /// Sets the module visibility.
    pub fn with_vis(self, vis: Vis) -> (r: Module)
        ensures
            r == (Module { vis, ..self }),
    {
        let mut s = self;
        s.vis = vis;
        s
    }

    /// Gets the module visibility mutably.
    pub fn vis_mut(&mut self) -> (r: &mut Vis)
        ensures
            *r == old(self).vis,
            *final(self) == (Module { vis: *final(r), ..*old(self) }),
    {
        &mut self.vis
    }

    /// Gets the module documentation.
    pub fn doc(&self) -> (r: Option<&Doc>)
        ensures
            self.doc is Some <==> r is Some,
            r matches Some(d) ==> (self.doc matches Some(sd) && *d == sd),
    {
        self.doc.as_ref()
    }

    /// Sets the module documentation.
    pub fn set_doc(&mut self, doc: &str) -> (r: &mut Module)
        ensures
            r.doc matches Some(d) && d.0@ == doc@,
            *r == (Module { doc: r.doc, ..*old(self) }),
            *final(self) == *final(r),
    {
        self.doc = Some(Doc::new(doc));
        self
    }

    /// Sets the module documentation.
    pub fn with_doc(self, doc: &str) -> (r: Module)
        ensures
            r.doc matches Some(d) && d.0@ == doc@,
            r == (Module { doc: r.doc, ..self }),
    {
        let mut s = self;
        s.doc = Some(Doc::new(doc));
        s
    }

    /// Gets the module attributes.
    pub fn attributes(&self) -> (r: &Vec<String>)
        ensures
            *r == self.attributes,
    {
        &self.attributes
    }

    /// Sets the module attributes.
    pub fn set_attributes(&mut self, attributes: Vec<String>) -> (r: &mut Module)
        ensures
            r.attributes == attributes,
            *r == (Module { attributes: r.attributes, ..*old(self) }),
            *final(self) == *final(r),
    {
        self.attributes = attributes;
        self
    }

    /// Gets the module attributes mutably.
    pub fn attributes_mut(&mut self) -> (r: &mut Vec<String>)
        ensures
            *r == old(self).attributes,
            *final(self) == (Module { attributes: *final(r), ..*old(self) }),
    {
        &mut self.attributes
    }

    /// Pushes an attribute line onto the module.
    pub fn push_attribute(&mut self, attribute: &str) -> (r: &mut Module)
        ensures
            r.attributes.deep_view() == old(self).attributes.deep_view().push(attribute@),
            *r == (Module { attributes: r.attributes, ..*old(self) }),
            *final(self) == *final(r),
    {
        self.attributes.push(attribute.to_owned());
        proof {
            assert(self.attributes.deep_view() =~= old(self).attributes.deep_view().push(
                attribute@,
            ));
        }
        self
    }

    /// Pushes an attribute line onto the module.
    pub fn with_attribute(self, attribute: &str) -> (r: Module)
        ensures
            r.attributes.deep_view() == self.attributes.deep_view().push(attribute@),
            r == (Module { attributes: r.attributes, ..self }),
    {
        let mut s = self;
        s.attributes.push(attribute.to_owned());
        proof {
            assert(s.attributes.deep_view() =~= self.attributes.deep_view().push(attribute@));
        }
        s
    }

    /// Gets the module lints.
    pub fn lints(&self) -> (r: &Vec<Lint>)
        ensures
            *r == self.lints,
    {
        &self.lints
    }

    /// Sets the module lints.
    pub fn set_lints(&mut self, lints: Vec<Lint>) -> (r: &mut Module)
        ensures
            r.lints == lints,
            *r == (Module { lints: r.lints, ..*old(self) }),
            *final(self) == *final(r),
    {
        self.lints = lints;
        self
    }

    /// Gets the module lints mutably.
    pub fn lints_mut(&mut self) -> (r: &mut Vec<Lint>)
        ensures
            *r == old(self).lints,
            *final(self) == (Module { lints: *final(r), ..*old(self) }),
    {
        &mut self.lints
    }

    /// Pushes a lint onto the module.
    pub fn push_lint(&mut self, lint: Lint) -> (r: &mut Module)
        ensures
            r.lints@ == old(self).lints@.push(lint),
            *r == (Module { lints: r.lints, ..*old(self) }),
            *final(self) == *final(r),
    {
        self.lints.push(lint);
        self
    }

    /// Pushes a lint onto the module.
    pub fn with_lint(self, lint: Lint) -> (r: Module)
        ensures
            r.lints@ == self.lints@.push(lint),
            r == (Module { lints: r.lints, ..self }),
    {
        let mut s = self;
        s.lints.push(lint);
        s
    }

    /// Imports a type into the module's scope.
    pub fn push_import(&mut self, path: &str, ty: &str, vis: Vis) -> (r: &mut Module)
        ensures
            exists|imp: Import|
                {
                    &&& (#[trigger] imp.line)@ == path@ + "::"@ + first_segment(ty@)
                    &&& imp.vis == vis
                    &&& table_view(&r.scope.imports) == spec_table_insert(
                        table_view(&old(self).scope.imports),
                        path@,
                        first_segment(ty@),
                        imp,
                    )
                },
            r.scope.doc == old(self).scope.doc,
            r.scope.items == old(self).scope.items,
            r.name == old(self).name,
            r.vis == old(self).vis,
            r.doc == old(self).doc,
            r.attributes == old(self).attributes,
            r.lints == old(self).lints,
            *final(self) == *final(r),
    {
        self.scope.push_import(path, ty, vis);
        self
    }

    /// Imports a type into the module's scope.
    pub fn with_import(self, path: &str, ty: &str, vis: Vis) -> (r: Module)
        ensures
            r.name == self.name,
            r.vis == self.vis,
            r.doc == self.doc,
            r.attributes == self.attributes,
            r.lints == self.lints,
            r.scope.doc == self.scope.doc,
            r.scope.items == self.scope.items,
    {
        let mut s = self;
        s.scope.push_import(path, ty, vis);
        s
    }

    /// Pushes a new struct into the module's scope, returning it.
    pub fn new_struct(&mut self, name: &str) -> (r: &mut Struct)
        ensures
            r.type_def.ty.name@ == name@,
            r.fields is Empty,
            r.type_def.vis is Private,
            r.type_def.doc is None,
            r.type_def.derives@.len() == 0,
            r.type_def.lints@.len() == 0,
            r.type_def.attributes@.len() == 0,
            r.type_def.repr is None,
            r.type_def.bounds@.len() == 0,
            r.type_def.macros@.len() == 0,
            r.type_def.ty.generics@.len() == 0,
            final(self).scope.items@ == old(self).scope.items@.push(Item::Struct(*final(r))),
            final(self).scope.doc == old(self).scope.doc,
            final(self).scope.imports == old(self).scope.imports,
            final(self).name == old(self).name,
            final(self).vis == old(self).vis,
            final(self).doc == old(self).doc,
            final(self).attributes == old(self).attributes,
            final(self).lints == old(self).lints,
    {
        self.scope.new_struct(name)
    }

    /// Pushes a struct into the module's scope.
    pub fn push_struct(&mut self, item: Struct) -> (r: &mut Module)
        ensures
            r.scope.items@ == old(self).scope.items@.push(Item::Struct(item)),
            r.scope.doc == old(self).scope.doc,
            r.scope.imports == old(self).scope.imports,
            *final(self) == *final(r),
    {
        self.scope.push_struct(item);
        self
    }

    /// Pushes a new function into the module's scope, returning it.
    pub fn new_function(&mut self, name: &str) -> (r: &mut Function)
        ensures
            r.name@ == name@,
            r.body@.len() == 0,
            final(self).scope.items@ == old(self).scope.items@.push(Item::Function(*final(r))),
            final(self).scope.doc == old(self).scope.doc,
            final(self).scope.imports == old(self).scope.imports,
            final(self).name == old(self).name,
            final(self).vis == old(self).vis,
            final(self).doc == old(self).doc,
            final(self).attributes == old(self).attributes,
            final(self).lints == old(self).lints,
    {
        self.scope.new_function(name)
    }

    /// Pushes a function into the module's scope.
    pub fn push_function(&mut self, item: Function) -> (r: &mut Module)
        ensures
            r.scope.items@ == old(self).scope.items@.push(Item::Function(item)),
            r.scope.doc == old(self).scope.doc,
            r.scope.imports == old(self).scope.imports,
            *final(self) == *final(r),
    {
        self.scope.push_function(item);
        self
    }

    /// Pushes a new enum into the module's scope, returning it.
    pub fn new_enum(&mut self, name: &str) -> (r: &mut Enum)
        ensures
            r.type_def.ty.name@ == name@,
            r.variants@.len() == 0,
            final(self).scope.items@ == old(self).scope.items@.push(Item::Enum(*final(r))),
            final(self).scope.doc == old(self).scope.doc,
            final(self).scope.imports == old(self).scope.imports,
            final(self).name == old(self).name,
            final(self).vis == old(self).vis,
            final(self).doc == old(self).doc,
            final(self).attributes == old(self).attributes,
            final(self).lints == old(self).lints,
    {
        self.scope.new_enum(name)
    }

    /// Pushes an enum into the module's scope.
    pub fn push_enum(&mut self, item: Enum) -> (r: &mut Module)
        ensures
            r.scope.items@ == old(self).scope.items@.push(Item::Enum(item)),
            r.scope.doc == old(self).scope.doc,
            r.scope.imports == old(self).scope.imports,
            *final(self) == *final(r),
    {
        self.scope.push_enum(item);
        self
    }

    /// Pushes a new impl block into the module's scope, returning it.
    pub fn new_impl(&mut self, target: Type) -> (r: &mut Impl)
        ensures
            r.target == target,
            r.functions@.len() == 0,
            final(self).scope.items@ == old(self).scope.items@.push(Item::Impl(*final(r))),
            final(self).scope.doc == old(self).scope.doc,
            final(self).scope.imports == old(self).scope.imports,
            final(self).name == old(self).name,
            final(self).vis == old(self).vis,
            final(self).doc == old(self).doc,
            final(self).attributes == old(self).attributes,
            final(self).lints == old(self).lints,
    {
        self.scope.new_impl(target)
    }

    /// Pushes an impl block into the module's scope.
    pub fn push_impl(&mut self, item: Impl) -> (r: &mut Module)
        ensures
            r.scope.items@ == old(self).scope.items@.push(Item::Impl(item)),
            r.scope.doc == old(self).scope.doc,
            r.scope.imports == old(self).scope.imports,
            *final(self) == *final(r),
    {
        self.scope.push_impl(item);
        self
    }

    /// Pushes a new trait into the module's scope, returning it.
    pub fn new_trait(&mut self, name: &str) -> (r: &mut Trait)
        ensures
            r.type_def.ty.name@ == name@,
            r.functions@.len() == 0,
            final(self).scope.items@ == old(self).scope.items@.push(Item::Trait(*final(r))),
            final(self).scope.doc == old(self).scope.doc,
            final(self).scope.imports == old(self).scope.imports,
            final(self).name == old(self).name,
            final(self).vis == old(self).vis,
            final(self).doc == old(self).doc,
            final(self).attributes == old(self).attributes,
            final(self).lints == old(self).lints,
    {
        self.scope.new_trait(name)
    }

    /// Pushes a trait into the module's scope.
    pub fn push_trait(&mut self, item: Trait) -> (r: &mut Module)
        ensures
            r.scope.items@ == old(self).scope.items@.push(Item::Trait(item)),
            r.scope.doc == old(self).scope.doc,
            r.scope.imports == old(self).scope.imports,
            *final(self) == *final(r),
    {
        self.scope.push_trait(item);
        self
    }

    /// Pushes a module into this module's scope. Its name must not already
    /// be taken there.
    pub fn push_module(&mut self, item: Module) -> (r: &mut Module)
        requires
            !has_module(old(self).scope.items@, item.name@),
        ensures
            r.scope.items@ == old(self).scope.items@.push(Item::Module(item)),
            r.scope.doc == old(self).scope.doc,
            r.scope.imports == old(self).scope.imports,
            *final(self) == *final(r),
    {
        self.scope.push_module(item);
        self
    }

    /// Pushes a new module into this module's scope, returning it. The
    /// name must not already be taken there.
    pub fn new_module(&mut self, name: &str) -> (r: &mut Module)
        requires
            !has_module(old(self).scope.items@, name@),
        ensures
            r.name@ == name@,
            r.scope.items@.len() == 0,
            final(self).scope.items@ == old(self).scope.items@.push(Item::Module(*final(r))),
            final(self).scope.doc == old(self).scope.doc,
            final(self).scope.imports == old(self).scope.imports,
            final(self).name == old(self).name,
            final(self).vis == old(self).vis,
            final(self).doc == old(self).doc,
            final(self).attributes == old(self).attributes,
            final(self).lints == old(self).lints,
    {
        self.scope.new_module(name)
    }

    /// Writes the module, starting at a line start.
    #[verifier::rlimit(100)]
    pub fn fmt(&self, fmt: &mut Formatter)
        requires
            old(fmt).wf(),
            at_start(old(fmt).text()),
            module_ok(*self),
        ensures
            final(fmt).wf(),
            final(fmt).depth() == old(fmt).depth(),
            final(fmt).text() == old(fmt).text() + ind(
                module_text(*self),
                true,
                old(fmt).depth(),
            ),
        decreases *self,
    {
        let ghost orig = fmt.text();
        let ghost n = fmt.depth();
        let ghost head = module_head_text(*self);
        let mut h: String;
        match &self.doc {
            Some(d) => {
                h = d.to_text();
            },
            None => {
                h = String::new();
            },
        }
        let ghost base0 = h@;
        let mut i: usize = 0;
        proof {
            assert(h@ + module_attr_lines_text(self.attributes.deep_view(), 0) =~= h@);
        }
        while i < self.attributes.len()
            invariant
                i <= self.attributes@.len(),
                self.attributes.deep_view().len() == self.attributes@.len(),
                forall|j: int|
                    0 <= j < self.attributes@.len() ==> self.attributes.deep_view()[j]
                        == self.attributes@[j]@,
                h@ == base0 + module_attr_lines_text(self.attributes.deep_view(), i as int),
            decreases self.attributes@.len() - i,
        {
            h.append("#[");
            h.append(self.attributes[i].as_str());
            h.append("] \n");
            proof {
                assert(h@ =~= base0 + module_attr_lines_text(
                    self.attributes.deep_view(),
                    i as int + 1,
                ));
            }
            i = i + 1;
        }
        let ghost base1 = h@;
        let mut i2: usize = 0;
        proof {
            assert(h@ + lint_lines_text(self.lints@, 0) =~= h@);
        }
        while i2 < self.lints.len()
            invariant
                i2 <= self.lints@.len(),
                h@ == base1 + lint_lines_text(self.lints@, i2 as int),
            decreases self.lints@.len() - i2,
        {
            let l = self.lints[i2].to_text();
            h.append(l.as_str());
            proof {
                assert(h@ =~= base1 + lint_lines_text(self.lints@, i2 as int + 1));
            }
            i2 = i2 + 1;
        }
        let v = self.vis.to_text();
        h.append(v.as_str());
        h.append("mod ");
        h.append(self.name.as_str());
        proof {
            assert(h@ =~= head);
        }
        fmt.write_str(h.as_str());
        proof {
            if head.len() == 0 {
                assert(ind(head, true, n) =~= Seq::<char>::empty());
                assert(fmt.text() =~= orig);
                assert(at_start(fmt.text()) == ends_line(head, true));
            } else {
                lemma_ind_ends(head, true, n);
                assert(fmt.text().last() == ind(head, true, n).last());
                assert(at_start(fmt.text()) == ends_line(head, true));
            }
        }
        let ghost e = ends_line(head, true);
        fmt.open_block();
        let ghost t_open = fmt.text();
        proof {
            lemma_ind_ends(open_text(e), e, n);
            assert(open_text(e).last() == '\n');
            assert(t_open.last() == ind(open_text(e), e, n).last());
            assert(at_start(t_open));
        }
        self.scope.fmt(fmt);
        let ghost body = scope_text(self.scope);
        proof {
            if body.len() == 0 {
                assert(ind(body, true, (n + 1) as nat) =~= Seq::<char>::empty());
                assert(fmt.text() =~= t_open);
                assert(at_start(fmt.text()) == ends_line(body, true));
            } else {
                lemma_ind_ends(body, true, n + 1);
                assert(fmt.text().last() == ind(body, true, (n + 1) as nat).last());
                assert(at_start(fmt.text()) == ends_line(body, true));
            }
        }
        fmt.close_block();
        proof {
            lemma_ind_one('}', ends_line(body, true), n);
            if ends_line(body, true) {
                assert(ind(seq!['}'], true, n).last() == '}');
            } else {
                assert(ind(seq!['}'], false, n) =~= seq!['}']);
            }
            assert(fmt.text().last() == '}');
            assert(!at_start(fmt.text()));
        }
        fmt.write_str("\n");
        proof {
            reveal_strlit("\n");
            lemma_ind_one('\n', false, n);
            assert("\n"@ =~= seq!['\n']);
            lemma_block_region_any(e, body, n);
            lemma_ind_concat(head, block_region_text(e, body), true, n);
            assert(module_text(*self) =~= head + block_region_text(e, body));
            assert(fmt.text() =~= orig + ind(module_text(*self), true, n));
        }
    }

    /// Gets the doc mutably, when one is set.
    pub fn doc_mut(&mut self) -> (r: Option<&mut Doc>)
        ensures
            old(self).doc is None ==> (r is None && final(self).doc is None),
            old(self).doc is Some ==> (r is Some && *r.unwrap() == old(self).doc.unwrap()
                && final(self).doc == Some(*final(r.unwrap()))),
            final(self).name == old(self).name,
            final(self).vis == old(self).vis,
            final(self).scope == old(self).scope,
            final(self).attributes == old(self).attributes,
            final(self).lints == old(self).lints,
    {
        self.doc.as_mut()
    }
}

} // verus!
