use vstd::prelude::*;
use vstd::string::StringExecFns;
use vstd::string::StrSliceExecFns;

use indexmap::IndexMap;

use crate::doc::Doc;
use crate::enums::Enum;
use crate::formatter::{
    at_start, ends_line, ind, lemma_ends_concat, lemma_ind_concat, lemma_ind_ends, lemma_ind_one,
    lemma_ind_zero, trimmed, Formatter,
};
use crate::function::Function;
use crate::impls::Impl;
use crate::import::Import;
use crate::imports_table::{
    spec_table_insert, table_entries, table_insert_first_wins, table_is_empty, table_new,
    table_view,
};
use crate::item::{item_ok, item_text, Item};
use crate::line_break::LineBreak;
use crate::module::Module;
use crate::structs::Struct;
use crate::text::{join_strings, join_with};
use crate::traits::Trait;
use crate::ty::Type;
use crate::type_alias::TypeAlias;
use crate::type_def::opt_doc_text;
use crate::visibility::{vis_eq, vis_text, Vis};

verus! {

/// The table model: for each declaring path, the imported names under it,
/// in first-seen order at both levels.
pub type TableV = Seq<(Seq<char>, Seq<(Seq<char>, Import)>)>;

/// The top-level container: documentation, the import table, and the
/// ordered items.
pub struct Scope {
    /// The scope's documentation.
    pub doc: Option<Doc>,
    /// The import table.
    pub imports: IndexMap<String, IndexMap<String, Import>>,
    /// The scope's items, in order.
    pub items: Vec<Item>,
}

/// Whether a visibility already occurs in the list, comparing custom
/// qualifiers by their characters.
pub open spec fn contains_vis(vs: Seq<Vis>, v: Vis) -> bool {
    exists|k: int| 0 <= k < vs.len() && vis_eq(#[trigger] vs[k], v)
}

/// Visibilities of the first `j` imports under one path, appended to
/// `acc` in first-seen order.
pub open spec fn vis_scan_inner(acc: Seq<Vis>, inner: Seq<(Seq<char>, Import)>, j: int) -> Seq<
    Vis,
>
    decreases j,
{
    if 0 < j <= inner.len() {
        let a = vis_scan_inner(acc, inner, j - 1);
        if contains_vis(a, inner[j - 1].1.vis) {
            a
        } else {
            a.push(inner[j - 1].1.vis)
        }
    } else {
        acc
    }
}

/// Visibilities of all imports under the first `i` paths, in first-seen
/// order over a full scan of the table.
pub open spec fn vis_scan_paths(t: TableV, i: int) -> Seq<Vis>
    decreases i,
{
    if 0 < i <= t.len() {
        vis_scan_inner(vis_scan_paths(t, i - 1), t[i - 1].1, t[i - 1].1.len() as int)
    } else {
        Seq::empty()
    }
}

/// The distinct visibilities of the table, in first-seen order.
pub open spec fn vis_order(t: TableV) -> Seq<Vis> {
    vis_scan_paths(t, t.len() as int)
}

/// The names under one path whose stored visibility equals `v`, among the
/// first `j` entries, in insertion order.
pub open spec fn names_for(inner: Seq<(Seq<char>, Import)>, v: Vis, j: int) -> Seq<Seq<char>>
    decreases j,
{
    if 0 < j <= inner.len() {
        let p = names_for(inner, v, j - 1);
        if vis_eq(inner[j - 1].1.vis, v) {
            p.push(inner[j - 1].0)
        } else {
            p
        }
    } else {
        Seq::empty()
    }
}

/// One rendered `use` statement, or nothing when no name matches: a
/// single name stands alone, several collapse into one brace group.
pub open spec fn stmt_text(v: Vis, path: Seq<char>, names: Seq<Seq<char>>) -> Seq<char> {
    if names.len() == 0 {
        Seq::empty()
    } else if names.len() == 1 {
        vis_text(v) + "use "@ + path + "::"@ + names[0] + ";\n"@
    } else {
        vis_text(v) + "use "@ + path + "::"@ + "{"@ + join_with(names, ", "@) + "};\n"@
    }
}

/// The statements of one visibility over the first `i` paths, in table
/// order.
pub open spec fn paths_stmts_text(t: TableV, v: Vis, i: int) -> Seq<char>
    decreases i,
{
    if 0 < i <= t.len() {
        paths_stmts_text(t, v, i - 1) + stmt_text(
            v,
            t[i - 1].0,
            names_for(t[i - 1].1, v, t[i - 1].1.len() as int),
        )
    } else {
        Seq::empty()
    }
}

/// The statements of the first `k` visibility groups.
pub open spec fn vis_stmts_text(t: TableV, vs: Seq<Vis>, k: int) -> Seq<char>
    decreases k,
{
    if 0 < k <= vs.len() {
        vis_stmts_text(t, vs, k - 1) + paths_stmts_text(t, vs[k - 1], t.len() as int)
    } else {
        Seq::empty()
    }
}

/// The whole rendered import section: visibility groups in first-seen
/// order, paths in table order within each, names in insertion order.
pub open spec fn imports_text(t: TableV) -> Seq<char> {
    vis_stmts_text(t, vis_order(t), vis_order(t).len() as int)
}

/// The first `i` items, one blank line between consecutive items.
pub open spec fn scope_items_text(items: Seq<Item>, i: int) -> Seq<char>
    decreases items, i,
{
    if 0 < i <= items.len() {
        scope_items_text(items, i - 1) + (if i > 1 {
            "\n"@
        } else {
            Seq::<char>::empty()
        }) + item_text(items[i - 1])
    } else {
        Seq::empty()
    }
}

/// The rendered scope: documentation, the import section, a blank line
/// when any import exists, then the items.
pub open spec fn scope_text(s: Scope) -> Seq<char>
    decreases s,
{
    opt_doc_text(s.doc) + imports_text(table_view(&s.imports)) + (if table_view(
        &s.imports,
    ).len() > 0 {
        "\n"@
    } else {
        Seq::<char>::empty()
    }) + scope_items_text(s.items@, s.items@.len() as int)
}

/// A renderable scope: every item is renderable.
pub open spec fn scope_ok(s: Scope) -> bool
    decreases s,
{
    forall|i: int| 0 <= i < s.items@.len() ==> item_ok(#[trigger] s.items@[i])
}

/// Index of the first module under the given name, or `-1`.
pub open spec fn find_module(items: Seq<Item>, name: Seq<char>) -> int
    decreases items.len(),
{
    if items.len() == 0 {
        -1
    } else if items.first() matches Item::Module(m) && m.name@ == name {
        0
    } else if find_module(items.drop_first(), name) < 0 {
        -1
    } else {
        find_module(items.drop_first(), name) + 1
    }
}

/// What `find_module` finds is the first module under the name.
pub proof fn lemma_find_module(items: Seq<Item>, name: Seq<char>)
    ensures
        find_module(items, name) == -1 ==> forall|j: int|
            0 <= j < items.len() ==> !((#[trigger] items[j]) matches Item::Module(m) && m.name@
                == name),
        find_module(items, name) >= 0 ==> find_module(items, name) < items.len() && (items[
            find_module(items, name)
        ] matches Item::Module(m) && m.name@ == name) && forall|j: int|
            0 <= j < find_module(items, name) ==> !((#[trigger] items[j]) matches Item::Module(m)
                && m.name@ == name),
    decreases items.len(),
{
    if items.len() > 0 {
        lemma_find_module(items.drop_first(), name);
        assert(forall|j: int| 1 <= j < items.len() ==> items[j] == items.drop_first()[j - 1]);
    }
}

/// A partial item rendering after a line-ending preamble keeps the cursor
/// placement derivable.
proof fn lemma_scope_items_ends_start(pre: Seq<char>, items: Seq<Item>, i: int)
    requires
        ends_line(pre, true),
    ensures
        i <= 0 ==> ends_line(pre + scope_items_text(items, i), true),
{
    if i <= 0 {
        assert(scope_items_text(items, i) =~= Seq::<char>::empty());
        assert(pre + scope_items_text(items, i) =~= pre);
    }
}

/// Whether the scope already holds a module under the given name.
pub open spec fn has_module(items: Seq<Item>, name: Seq<char>) -> bool {
    exists|i: int|
        0 <= i < items.len() && ((#[trigger] items[i]) matches Item::Module(m) && m.name@ == name)
}

/// A statement's text ends its line or is empty.
proof fn lemma_stmt_ends(v: Vis, path: Seq<char>, names: Seq<Seq<char>>)
    ensures
        ends_line(stmt_text(v, path, names), true),
{
    reveal_strlit(";\n");
    reveal_strlit("};\n");
    assert(";\n"@.len() == 2 && ";\n"@.last() == '\n');
    assert("};\n"@.len() == 3 && "};\n"@.last() == '\n');
    if names.len() == 1 {
        assert((vis_text(v) + "use "@ + path + "::"@ + names[0] + ";\n"@).last() == ";\n"@.last());
    } else if names.len() > 1 {
        assert((vis_text(v) + "use "@ + path + "::"@ + "{"@ + join_with(names, ", "@)
            + "};\n"@).last() == "};\n"@.last());
    }
}

proof fn lemma_paths_stmts_ends(t: TableV, v: Vis, i: int)
    ensures
        ends_line(paths_stmts_text(t, v, i), true),
    decreases i,
{
    if 0 < i <= t.len() {
        lemma_paths_stmts_ends(t, v, i - 1);
        lemma_stmt_ends(v, t[i - 1].0, names_for(t[i - 1].1, v, t[i - 1].1.len() as int));
        lemma_ends_concat(
            paths_stmts_text(t, v, i - 1),
            stmt_text(v, t[i - 1].0, names_for(t[i - 1].1, v, t[i - 1].1.len() as int)),
        );
    }
}

proof fn lemma_vis_stmts_ends(t: TableV, vs: Seq<Vis>, k: int)
    ensures
        ends_line(vis_stmts_text(t, vs, k), true),
    decreases k,
{
    if 0 < k <= vs.len() {
        lemma_vis_stmts_ends(t, vs, k - 1);
        lemma_paths_stmts_ends(t, vs[k - 1], t.len() as int);
        lemma_ends_concat(vis_stmts_text(t, vs, k - 1), paths_stmts_text(t, vs[k - 1], t.len() as int));
    }
}

/// Checks whether a visibility is already listed.
fn contains_vis_exec(vs: &Vec<Vis>, v: &Vis) -> (r: bool)
    ensures
        r == contains_vis(vs@, *v),
{
    let mut k: usize = 0;
    while k < vs.len()
        invariant
            k <= vs@.len(),
            forall|j: int| 0 <= j < k ==> !vis_eq(#[trigger] vs@[j], *v),
        decreases vs@.len() - k,
    {
        if vs[k] == *v {
            return true;
        }
        k = k + 1;
    }
    false
}

impl Scope {
    /// Creates an empty scope.
    pub fn new() -> (r: Scope)
        ensures
            r.doc is None,
            table_view(&r.imports).len() == 0,
            r.items@.len() == 0,
    {
        Scope { doc: None, imports: table_new(), items: Vec::new() }
    }

    /// Gets the scope documentation.
    pub fn doc(&self) -> (r: Option<&Doc>)
        ensures
            self.doc is Some <==> r is Some,
            r matches Some(d) ==> (self.doc matches Some(sd) && *d == sd),
    {
        self.doc.as_ref()
    }

    /// Sets the scope documentation.
    pub fn set_doc(&mut self, doc: &str) -> (r: &mut Scope)
        ensures
            r.doc matches Some(d) && d.0@ == doc@,
            r.imports == old(self).imports,
            r.items == old(self).items,
            *final(self) == *final(r),
    {
        self.doc = Some(Doc::new(doc));
        self
    }

    /// Sets the scope documentation.
    pub fn with_doc(self, doc: &str) -> (r: Scope)
        ensures
            r.doc matches Some(d) && d.0@ == doc@,
            r.imports == self.imports,
            r.items == self.items,
    {
        let mut s = self;
        s.doc = Some(Doc::new(doc));
        s
    }


    /// Gets the doc mutably, when one is set.
    pub fn doc_mut(&mut self) -> (r: Option<&mut Doc>)
        ensures
            old(self).doc is None ==> (r is None && final(self).doc is None),
            old(self).doc is Some ==> (r is Some && *r.unwrap() == old(self).doc.unwrap()
                && final(self).doc == Some(*final(r.unwrap()))),
            final(self).imports == old(self).imports,
            final(self).items == old(self).items,
    {
        self.doc.as_mut()
    }

    /// Gets the import table.
    pub fn imports(&self) -> (r: &IndexMap<String, IndexMap<String, Import>>)
        ensures
            *r == self.imports,
    {
        &self.imports
    }

    /// Sets the import table.
    pub fn set_imports(&mut self, imports: IndexMap<String, IndexMap<String, Import>>) -> (r:
        &mut Scope)
        ensures
            r.imports == imports,
            r.doc == old(self).doc,
            r.items == old(self).items,
            *final(self) == *final(r),
    {
        self.imports = imports;
        self
    }

    /// Sets the import table.
    pub fn with_imports(self, imports: IndexMap<String, IndexMap<String, Import>>) -> (r: Scope)
        ensures
            r.imports == imports,
            r.doc == self.doc,
            r.items == self.items,
    {
        let mut s = self;
        s.imports = imports;
        s
    }

    /// Gets the import table mutably.
    pub fn imports_mut(&mut self) -> (r: &mut IndexMap<String, IndexMap<String, Import>>)
        ensures
            *r == old(self).imports,
            final(self).imports == *final(r),
            final(self).doc == old(self).doc,
            final(self).items == old(self).items,
    {
        &mut self.imports
    }

    /// Imports a type into the scope: a new `use` statement in the import
    /// section. The first segment of a `::`-nested name is the key; a
    /// repeated `(path, name)` key leaves the table unchanged.
    pub fn push_import(&mut self, path: &str, ty: &str, vis: Vis) -> (r: &mut Scope)
        ensures
            exists|imp: Import|
                {
                    &&& (#[trigger] imp.line)@ == path@ + "::"@ + first_segment(ty@)
                    &&& imp.vis == vis
                    &&& table_view(&r.imports) == spec_table_insert(
                        table_view(&old(self).imports),
                        path@,
                        first_segment(ty@),
                        imp,
                    )
                },
            r.doc == old(self).doc,
            r.items == old(self).items,
            *final(self) == *final(r),
    {
        let ty_key = first_segment_exec(ty);
        let path_s = path.to_owned();
        let imp = Import::new(path, ty_key.as_str()).with_vis(vis);
        let ghost imp_g = imp;
        table_insert_first_wins(&mut self.imports, &path_s, &ty_key, imp);
        proof {
            assert(imp_g.line@ == path@ + "::"@ + first_segment(ty@));
            assert(imp_g.vis == vis);
        }
        self
    }

    /// Writes the import section.
    pub fn fmt_imports(&self, fmt: &mut Formatter)
        requires
            old(fmt).wf(),
        ensures
            final(fmt).wf(),
            final(fmt).depth() == old(fmt).depth(),
            final(fmt).text() == old(fmt).text() + ind(
                imports_text(table_view(&self.imports)),
                at_start(old(fmt).text()),
                old(fmt).depth(),
            ),
    {
        let ghost orig = fmt.text();
        let ghost a0 = at_start(orig);
        let ghost n = fmt.depth();
        let ghost tv = table_view(&self.imports);
        let entries = table_entries(&self.imports);

        // First, collect the visibilities in first-seen order.
        let mut visibilities: Vec<Vis> = Vec::new();
        let mut i: usize = 0;
        proof {
            assert(visibilities@ =~= vis_scan_paths(tv, 0));
        }
        while i < entries.len()
            invariant
                i <= entries@.len(),
                entries@.len() == tv.len(),
                forall|p: int|
                    0 <= p < tv.len() ==> {
                        &&& (#[trigger] entries@[p]).0@ == tv[p].0
                        &&& entries@[p].1@.len() == tv[p].1.len()
                        &&& forall|q: int|
                            0 <= q < entries@[p].1@.len() ==> (#[trigger] entries@[p].1@[q]).0@
                                == tv[p].1[q].0 && entries@[p].1@[q].1 == tv[p].1[q].1
                    },
                visibilities@ == vis_scan_paths(tv, i as int),
            decreases entries@.len() - i,
        {
            let inner_len = entries[i].1.len();
            let mut j: usize = 0;
            proof {
                assert(vis_scan_inner(visibilities@, tv[i as int].1, 0) =~= visibilities@);
            }
            while j < inner_len
                invariant
                    j <= entries@[i as int].1@.len(),
                    i < entries@.len(),
                    inner_len == entries@[i as int].1@.len(),
                    entries@.len() == tv.len(),
                    forall|p: int|
                        0 <= p < tv.len() ==> {
                            &&& (#[trigger] entries@[p]).0@ == tv[p].0
                            &&& entries@[p].1@.len() == tv[p].1.len()
                            &&& forall|q: int|
                                0 <= q < entries@[p].1@.len() ==> (#[trigger] entries@[p].1@[q]).0@
                                    == tv[p].1[q].0 && entries@[p].1@[q].1 == tv[p].1[q].1
                        },
                    visibilities@ == vis_scan_inner(
                        vis_scan_paths(tv, i as int),
                        tv[i as int].1,
                        j as int,
                    ),
                decreases inner_len - j,
            {
                let v = &entries[i].1[j].1.vis;
                proof {
                    assert(entries@[i as int].1@[j as int].1 == tv[i as int].1[j as int].1);
                }
                if !contains_vis_exec(&visibilities, v) {
                    visibilities.push(v.clone());
                }
                j = j + 1;
            }
            proof {
                assert(visibilities@ == vis_scan_inner(
                    vis_scan_paths(tv, i as int),
                    tv[i as int].1,
                    tv[i as int].1.len() as int,
                ));
                assert(visibilities@ == vis_scan_paths(tv, i as int + 1));
            }
            i = i + 1;
        }
        let ghost vord = vis_order(tv);
        proof {
            assert(visibilities@ == vord);
            assert(vis_stmts_text(tv, vord, 0) =~= Seq::<char>::empty());
            assert(orig + Seq::<char>::empty() =~= orig);
        }

        // Then, write the statements: one visibility group at a time.
        let mut k: usize = 0;
        while k < visibilities.len()
            invariant
                k <= vord.len(),
                visibilities@ == vord,
                entries@.len() == tv.len(),
                forall|p: int|
                    0 <= p < tv.len() ==> {
                        &&& (#[trigger] entries@[p]).0@ == tv[p].0
                        &&& entries@[p].1@.len() == tv[p].1.len()
                        &&& forall|q: int|
                            0 <= q < entries@[p].1@.len() ==> (#[trigger] entries@[p].1@[q]).0@
                                == tv[p].1[q].0 && entries@[p].1@[q].1 == tv[p].1[q].1
                    },
                a0 == at_start(orig),
                fmt.wf(),
                fmt.depth() == n,
                fmt.text() == orig + ind(vis_stmts_text(tv, vord, k as int), a0, n),
            decreases vord.len() - k,
        {
            let ghost group_done = vis_stmts_text(tv, vord, k as int);
            let mut p: usize = 0;
            proof {
                assert(paths_stmts_text(tv, vord[k as int], 0) =~= Seq::<char>::empty());
                assert(group_done + Seq::<char>::empty() =~= group_done);
            }
            while p < entries.len()
                invariant
                    p <= tv.len(),
                    k < vord.len(),
                    visibilities@ == vord,
                    entries@.len() == tv.len(),
                    forall|pp: int|
                        0 <= pp < tv.len() ==> {
                            &&& (#[trigger] entries@[pp]).0@ == tv[pp].0
                            &&& entries@[pp].1@.len() == tv[pp].1.len()
                            &&& forall|q: int|
                                0 <= q < entries@[pp].1@.len() ==> (#[trigger] entries@[pp].1@[q]).0@
                                    == tv[pp].1[q].0 && entries@[pp].1@[q].1 == tv[pp].1[q].1
                        },
                    a0 == at_start(orig),
                    fmt.wf(),
                    fmt.depth() == n,
                    fmt.text() == orig + ind(
                        vis_stmts_text(tv, vord, k as int) + paths_stmts_text(
                            tv,
                            vord[k as int],
                            p as int,
                        ),
                        a0,
                        n,
                    ),
                decreases tv.len() - p,
            {
                let ghost inner = tv[p as int].1;
                let mut names: Vec<String> = Vec::new();
                let mut q: usize = 0;
                proof {
                    assert(names.deep_view() =~= names_for(inner, vord[k as int], 0));
                }
                while q < entries[p].1.len()
                    invariant
                        q <= inner.len(),
                        p < tv.len(),
                        k < vord.len(),
                        visibilities@ == vord,
                        inner == tv[p as int].1,
                        entries@.len() == tv.len(),
                        entries@[p as int].1@.len() == inner.len(),
                        forall|qq: int|
                            0 <= qq < inner.len() ==> (#[trigger] entries@[p as int].1@[qq]).0@
                                == inner[qq].0 && entries@[p as int].1@[qq].1 == inner[qq].1,
                        names.deep_view() == names_for(inner, vord[k as int], q as int),
                    decreases inner.len() - q,
                {
                    if entries[p].1[q].1.vis == visibilities[k] {
                        let c = entries[p].1[q].0.clone();
                        proof {
                            assert(c@ == inner[q as int].0);
                            assert(names.deep_view().len() == names@.len());
                        }
                        names.push(c);
                        proof {
                            assert(names.deep_view() =~~= names_for(
                                inner,
                                vord[k as int],
                                q as int,
                            ).push(c@));
                        }
                    }
                    q = q + 1;
                }
                let ghost nm = names_for(inner, vord[k as int], inner.len() as int);
                proof {
                    assert(names.deep_view() == nm);
                    assert(names.deep_view().len() == names@.len());
                }
                if !names.is_empty() {
                    let mut stmt = visibilities[k].to_text();
                    stmt.append("use ");
                    stmt.append(entries[p].0.as_str());
                    stmt.append("::");
                    if names.len() > 1 {
                        stmt.append("{");
                        let joined = join_strings(&names, ", ");
                        stmt.append(joined.as_str());
                        stmt.append("};\n");
                    } else {
                        stmt.append(names[0].as_str());
                        stmt.append(";\n");
                    }
                    proof {
                        let done = vis_stmts_text(tv, vord, k as int) + paths_stmts_text(
                            tv,
                            vord[k as int],
                            p as int,
                        );
                        lemma_vis_stmts_ends(tv, vord, k as int);
                        lemma_paths_stmts_ends(tv, vord[k as int], p as int);
                        lemma_ends_concat(
                            vis_stmts_text(tv, vord, k as int),
                            paths_stmts_text(tv, vord[k as int], p as int),
                        );
                        if done.len() == 0 {
                            assert(ind(done, a0, n) =~= Seq::<char>::empty());
                            assert(fmt.text() =~= orig);
                            assert(at_start(fmt.text()) == ends_line(done, a0));
                        } else {
                            lemma_ind_ends(done, a0, n);
                            assert(fmt.text().last() == ind(done, a0, n).last());
                            assert(at_start(fmt.text()) == ends_line(done, a0));
                        }
                    }
                    fmt.write_str(stmt.as_str());
                    proof {
                        assert(names@[0]@ == names.deep_view()[0]);
                        assert(stmt@ =~= stmt_text(vord[k as int], tv[p as int].0, nm));
                        let done = vis_stmts_text(tv, vord, k as int) + paths_stmts_text(
                            tv,
                            vord[k as int],
                            p as int,
                        );
                        lemma_ind_concat(done, stmt@, a0, n);
                        assert(done + stmt@ =~= vis_stmts_text(tv, vord, k as int)
                            + paths_stmts_text(tv, vord[k as int], p as int + 1));
                        assert(fmt.text() =~= orig + ind(
                            vis_stmts_text(tv, vord, k as int) + paths_stmts_text(
                                tv,
                                vord[k as int],
                                p as int + 1,
                            ),
                            a0,
                            n,
                        ));
                    }
                } else {
                    proof {
                        assert(stmt_text(vord[k as int], tv[p as int].0, nm)
                            =~= Seq::<char>::empty());
                        let done = vis_stmts_text(tv, vord, k as int) + paths_stmts_text(
                            tv,
                            vord[k as int],
                            p as int,
                        );
                        assert(done + stmt_text(vord[k as int], tv[p as int].0, nm) =~= done);
                        assert(vis_stmts_text(tv, vord, k as int) + paths_stmts_text(
                            tv,
                            vord[k as int],
                            p as int + 1,
                        ) =~= done);
                    }
                }
                p = p + 1;
            }
            proof {
                assert(vis_stmts_text(tv, vord, k as int) + paths_stmts_text(
                    tv,
                    vord[k as int],
                    tv.len() as int,
                ) =~= vis_stmts_text(tv, vord, k as int + 1));
            }
            k = k + 1;
        }
        proof {
            assert(vis_stmts_text(tv, vord, vord.len() as int) == imports_text(tv));
        }
    }

    /// Gets the items of the scope.
    pub fn items(&self) -> (r: &Vec<Item>)
        ensures
            *r == self.items,
    {
        &self.items
    }

    /// Sets the items of the scope.
    pub fn set_items(&mut self, items: Vec<Item>) -> (r: &mut Scope)
        ensures
            r.items == items,
            r.doc == old(self).doc,
            r.imports == old(self).imports,
            *final(self) == *final(r),
    {
        self.items = items;
        self
    }

    /// Sets the items of the scope.
    pub fn with_items(self, items: Vec<Item>) -> (r: Scope)
        ensures
            r.items == items,
            r.doc == self.doc,
            r.imports == self.imports,
    {
        let mut s = self;
        s.items = items;
        s
    }

    /// Gets the items of the scope mutably.
    pub fn items_mut(&mut self) -> (r: &mut Vec<Item>)
        ensures
            *r == old(self).items,
            final(self).items == *final(r),
            final(self).doc == old(self).doc,
            final(self).imports == old(self).imports,
    {
        &mut self.items
    }

    /// Imports a type into the scope.
    pub fn with_import(self, path: &str, ty: &str, vis: Vis) -> (r: Scope)
        ensures
            exists|imp: Import|
                {
                    &&& (#[trigger] imp.line)@ == path@ + "::"@ + first_segment(ty@)
                    &&& imp.vis == vis
                    &&& table_view(&r.imports) == spec_table_insert(
                        table_view(&self.imports),
                        path@,
                        first_segment(ty@),
                        imp,
                    )
                },
            r.doc == self.doc,
            r.items == self.items,
    {
        let mut s = self;
        s.push_import(path, ty, vis);
        s
    }

    /// Finds the first module under the given name.
    fn find_module_index(&self, name: &str) -> (r: Option<usize>)
        ensures
            match r {
                Some(i) => 0 <= find_module(self.items@, name@) == i < self.items@.len()
                    && (self.items@[i as int] matches Item::Module(m) && m.name@ == name@),
                None => find_module(self.items@, name@) < 0 && !has_module(self.items@, name@),
            },
    {
        let needle = name.to_owned();
        let mut i: usize = 0;
        while i < self.items.len()
            invariant
                i <= self.items@.len(),
                needle@ == name@,
                forall|j: int|
                    0 <= j < i ==> !((#[trigger] self.items@[j]) matches Item::Module(m)
                        && m.name@ == name@),
            decreases self.items@.len() - i,
        {
            let hit = match &self.items[i] {
                Item::Module(m) => m.name == needle,
                _ => false,
            };
            if hit {
                proof {
                    lemma_find_module(self.items@, name@);
                    let f = find_module(self.items@, name@);
                    if f != i as int {
                        if 0 <= f < i as int {
                            assert(!(self.items@[f] matches Item::Module(m) && m.name@ == name@));
                            assert(false);
                        } else {
                            assert(!(self.items@[i as int] matches Item::Module(m) && m.name@
                                == name@));
                            assert(false);
                        }
                    }
                }
                return Some(i);
            }
            i = i + 1;
        }
        proof {
            lemma_find_module(self.items@, name@);
            let f = find_module(self.items@, name@);
            if f >= 0 {
                assert(!(self.items@[f] matches Item::Module(m) && m.name@ == name@));
                assert(false);
            }
            if has_module(self.items@, name@) {
                let w = choose|w: int|
                    0 <= w < self.items@.len() && ((#[trigger] self.items@[w]) matches Item::Module(
                        m,
                    ) && m.name@ == name@);
                assert(!(self.items@[w] matches Item::Module(m) && m.name@ == name@));
                assert(false);
            }
        }
        None
    }

    /// Gets the first module under the given name, if any.
    pub fn get_module(&self, name: &str) -> (r: Option<&Module>)
        ensures
            r is Some <==> has_module(self.items@, name@),
            r matches Some(m) ==> 0 <= find_module(self.items@, name@) < self.items@.len()
                && self.items@[find_module(self.items@, name@)] == Item::Module(*m) && m.name@
                == name@,
    {
        match self.find_module_index(name) {
            Some(i) => {
                proof {
                    lemma_find_module(self.items@, name@);
                }
                match &self.items[i] {
                    Item::Module(m) => Some(m),
                    _ => {
                        proof {
                            assert(false);
                        }
                        None
                    },
                }
            },
            None => None,
        }
    }

    /// Gets the first module under the given name mutably, if any.
    pub fn get_module_mut(&mut self, name: &str) -> (r: Option<&mut Module>)
        ensures
            r is Some <==> has_module(old(self).items@, name@),
            r is None ==> *final(self) == *old(self),
            r matches Some(m) ==> {
                let fi = find_module(old(self).items@, name@);
                &&& 0 <= fi < old(self).items@.len()
                &&& old(self).items@[fi] == Item::Module(*m)
                &&& m.name@ == name@
                &&& final(self).items@ == old(self).items@.update(fi, Item::Module(*final(m)))
                &&& final(self).doc == old(self).doc
                &&& final(self).imports == old(self).imports
            },
    {
        match self.find_module_index(name) {
            Some(i) => {
                proof {
                    lemma_find_module(self.items@, name@);
                }
                match &mut self.items[i] {
                    Item::Module(m) => Some(m),
                    _ => vstd::pervasive::unreached(),
                }
            },
            None => None,
        }
    }

    /// Pushes a module. Its name must not already be taken in this scope.
    pub fn push_module(&mut self, module: Module) -> (r: &mut Scope)
        requires
            !has_module(old(self).items@, module.name@),
        ensures
            r.items@ == old(self).items@.push(Item::Module(module)),
            r.doc == old(self).doc,
            r.imports == old(self).imports,
            *final(self) == *final(r),
    {
        self.items.push(Item::Module(module));
        self
    }

    /// Pushes a new module under the given name, returning it for further
    /// construction. The name must not already be taken in this scope.
    pub fn new_module(&mut self, name: &str) -> (r: &mut Module)
        requires
            !has_module(old(self).items@, name@),
        ensures
            r.name@ == name@,
            r.vis is Private,
            r.doc is None,
            r.scope.doc is None,
            table_view(&r.scope.imports).len() == 0,
            r.scope.items@.len() == 0,
            r.attributes@.len() == 0,
            r.lints@.len() == 0,
            final(self).items@ == old(self).items@.push(Item::Module(*final(r))),
            final(self).doc == old(self).doc,
            final(self).imports == old(self).imports,
    {
        self.items.push(Item::Module(Module::new(name)));
        let idx = self.items.len() - 1;
        match &mut self.items[idx] {
            Item::Module(m) => m,
            _ => vstd::pervasive::unreached(),
        }
    }

    /// Gets the module under the given name, creating it when absent.
    pub fn get_or_new_module(&mut self, name: &str) -> (r: &mut Module)
        ensures
            r.name@ == name@,
            final(self).doc == old(self).doc,
            final(self).imports == old(self).imports,
            has_module(old(self).items@, name@) ==> final(self).items@ == old(
                self,
            ).items@.update(
                find_module(old(self).items@, name@),
                Item::Module(*final(r)),
            ),
            !has_module(old(self).items@, name@) ==> final(self).items@ == old(
                self,
            ).items@.push(Item::Module(*final(r))),
    {
        let present = match self.find_module_index(name) {
            Some(_) => true,
            None => false,
        };
        if present {
            proof {
                lemma_find_module(self.items@, name@);
            }
            match self.get_module_mut(name) {
                Some(m) => m,
                None => vstd::pervasive::unreached(),
            }
        } else {
            self.new_module(name)
        }
    }

    /// Pushes a struct declaration.
    pub fn push_struct(&mut self, item: Struct) -> (r: &mut Scope)
        ensures
            r.items@ == old(self).items@.push(Item::Struct(item)),
            r.doc == old(self).doc,
            r.imports == old(self).imports,
            *final(self) == *final(r),
    {
        self.items.push(Item::Struct(item));
        self
    }

    /// Pushes a new struct under the given name, returning it.
    pub fn new_struct(&mut self, name: &str) -> (r: &mut Struct)
        ensures
            r.type_def.ty.name@ == name@,
            r.fields is Empty,
            r.type_def.vis is Private,
            r.type_def.doc is None,
            r.type_def.derives@.len() == 0,
            r.type_def.lints@.len() == 0,
            r.type_def.attributes@.len() == 0,
            r.type_def.repr is None,
            r.type_def.bounds@.len() == 0,
            r.type_def.macros@.len() == 0,
            r.type_def.ty.generics@.len() == 0,
            final(self).items@ == old(self).items@.push(Item::Struct(*final(r))),
            final(self).doc == old(self).doc,
            final(self).imports == old(self).imports,
    {
        self.items.push(Item::Struct(Struct::new(name)));
        let idx = self.items.len() - 1;
        match &mut self.items[idx] {
            Item::Struct(v) => v,
            _ => vstd::pervasive::unreached(),
        }
    }

    /// Pushes a function definition.
    pub fn push_function(&mut self, item: Function) -> (r: &mut Scope)
        ensures
            r.items@ == old(self).items@.push(Item::Function(item)),
            r.doc == old(self).doc,
            r.imports == old(self).imports,
            *final(self) == *final(r),
    {
        self.items.push(Item::Function(item));
        self
    }

    /// Pushes a new function under the given name, returning it.
    pub fn new_function(&mut self, name: &str) -> (r: &mut Function)
        ensures
            r.name@ == name@,
            r.doc is None,
            r.lints@.len() == 0,
            r.vis is Private,
            r.asyncness == false,
            r.generics@.len() == 0,
            r.self_arg is Bare,
            r.args@.len() == 0,
            r.ret is None,
            r.bounds@.len() == 0,
            r.body@.len() == 0,
            r.attributes@.len() == 0,
            r.extern_abi is None,
            final(self).items@ == old(self).items@.push(Item::Function(*final(r))),
            final(self).doc == old(self).doc,
            final(self).imports == old(self).imports,
    {
        self.items.push(Item::Function(Function::new(name)));
        let idx = self.items.len() - 1;
        match &mut self.items[idx] {
            Item::Function(v) => v,
            _ => vstd::pervasive::unreached(),
        }
    }

    /// Pushes a trait definition.
    pub fn push_trait(&mut self, item: Trait) -> (r: &mut Scope)
        ensures
            r.items@ == old(self).items@.push(Item::Trait(item)),
            r.doc == old(self).doc,
            r.imports == old(self).imports,
            *final(self) == *final(r),
    {
        self.items.push(Item::Trait(item));
        self
    }

    /// Pushes a new trait under the given name, returning it.
    pub fn new_trait(&mut self, name: &str) -> (r: &mut Trait)
        ensures
            r.type_def.ty.name@ == name@,
            r.type_def.vis is Private,
            r.type_def.doc is None,
            r.parents@.len() == 0,
            r.associated_consts@.len() == 0,
            r.attributes@.len() == 0,
            r.associated_types@.len() == 0,
            r.functions@.len() == 0,
            r.type_def.derives@.len() == 0,
            r.type_def.lints@.len() == 0,
            r.type_def.attributes@.len() == 0,
            r.type_def.repr is None,
            r.type_def.bounds@.len() == 0,
            r.type_def.macros@.len() == 0,
            r.type_def.ty.generics@.len() == 0,
            final(self).items@ == old(self).items@.push(Item::Trait(*final(r))),
            final(self).doc == old(self).doc,
            final(self).imports == old(self).imports,
    {
        self.items.push(Item::Trait(Trait::new(name)));
        let idx = self.items.len() - 1;
        match &mut self.items[idx] {
            Item::Trait(v) => v,
            _ => vstd::pervasive::unreached(),
        }
    }

    /// Pushes an enum definition.
    pub fn push_enum(&mut self, item: Enum) -> (r: &mut Scope)
        ensures
            r.items@ == old(self).items@.push(Item::Enum(item)),
            r.doc == old(self).doc,
            r.imports == old(self).imports,
            *final(self) == *final(r),
    {
        self.items.push(Item::Enum(item));
        self
    }

    /// Pushes a new enum under the given name, returning it.
    pub fn new_enum(&mut self, name: &str) -> (r: &mut Enum)
        ensures
            r.type_def.ty.name@ == name@,
            r.variants@.len() == 0,
            r.type_def.vis is Private,
            r.type_def.doc is None,
            r.type_def.derives@.len() == 0,
            r.type_def.lints@.len() == 0,
            r.type_def.attributes@.len() == 0,
            r.type_def.repr is None,
            r.type_def.bounds@.len() == 0,
            r.type_def.macros@.len() == 0,
            r.type_def.ty.generics@.len() == 0,
            final(self).items@ == old(self).items@.push(Item::Enum(*final(r))),
            final(self).doc == old(self).doc,
            final(self).imports == old(self).imports,
    {
        self.items.push(Item::Enum(Enum::new(name)));
        let idx = self.items.len() - 1;
        match &mut self.items[idx] {
            Item::Enum(v) => v,
            _ => vstd::pervasive::unreached(),
        }
    }

    /// Pushes an impl block.
    pub fn push_impl(&mut self, item: Impl) -> (r: &mut Scope)
        ensures
            r.items@ == old(self).items@.push(Item::Impl(item)),
            r.doc == old(self).doc,
            r.imports == old(self).imports,
            *final(self) == *final(r),
    {
        self.items.push(Item::Impl(item));
        self
    }

    /// Pushes a new impl block for the given target, returning it.
    pub fn new_impl(&mut self, target: Type) -> (r: &mut Impl)
        ensures
            r.target == target,
            r.generics@.len() == 0,
            r.impl_trait is None,
            r.associated_consts@.len() == 0,
            r.associated_types@.len() == 0,
            r.bounds@.len() == 0,
            r.macros@.len() == 0,
            r.functions@.len() == 0,
            final(self).items@ == old(self).items@.push(Item::Impl(*final(r))),
            final(self).doc == old(self).doc,
            final(self).imports == old(self).imports,
    {
        self.items.push(Item::Impl(Impl::new(target)));
        let idx = self.items.len() - 1;
        match &mut self.items[idx] {
            Item::Impl(v) => v,
            _ => vstd::pervasive::unreached(),
        }
    }

    /// Pushes raw text, included verbatim on its own line.
    pub fn raw(&mut self, val: &str) -> (r: &mut Scope)
        ensures
            r.items@.len() == old(self).items@.len() + 1,
            r.items@.last() matches Item::Raw(s) && s@ == val@,
            r.items@.drop_last() == old(self).items@,
            r.doc == old(self).doc,
            r.imports == old(self).imports,
            *final(self) == *final(r),
    {
        self.items.push(Item::Raw(val.to_owned()));
        proof {
            assert(self.items@.drop_last() =~= old(self).items@);
        }
        self
    }

    /// Pushes a type alias.
    pub fn push_type_alias(&mut self, item: TypeAlias) -> (r: &mut Scope)
        ensures
            r.items@ == old(self).items@.push(Item::TypeAlias(item)),
            r.doc == old(self).doc,
            r.imports == old(self).imports,
            *final(self) == *final(r),
    {
        self.items.push(Item::TypeAlias(item));
        self
    }

    /// Pushes a new type alias, returning it.
    pub fn new_type_alias(&mut self, name: &str, target: &str) -> (r: &mut TypeAlias)
        ensures
            r.type_def.ty.name@ == name@,
            r.ty.name@ == target@,
            r.ty.generics@.len() == 0,
            r.type_def.vis is Private,
            r.type_def.doc is None,
            r.type_def.derives@.len() == 0,
            r.type_def.lints@.len() == 0,
            r.type_def.attributes@.len() == 0,
            r.type_def.repr is None,
            r.type_def.bounds@.len() == 0,
            r.type_def.macros@.len() == 0,
            r.type_def.ty.generics@.len() == 0,
            final(self).items@ == old(self).items@.push(Item::TypeAlias(*final(r))),
            final(self).doc == old(self).doc,
            final(self).imports == old(self).imports,
    {
        self.items.push(Item::TypeAlias(TypeAlias::new(name, Type::new(target))));
        let idx = self.items.len() - 1;
        match &mut self.items[idx] {
            Item::TypeAlias(v) => v,
            _ => vstd::pervasive::unreached(),
        }
    }

    /// Pushes an explicit line break.
    pub fn push_line_break(&mut self) -> (r: &mut Scope)
        ensures
            r.items@.len() == old(self).items@.len() + 1,
            r.items@.last() is LineBreak,
            r.items@.drop_last() == old(self).items@,
            r.doc == old(self).doc,
            r.imports == old(self).imports,
            *final(self) == *final(r),
    {
        self.items.push(Item::LineBreak(LineBreak::new()));
        proof {
            assert(self.items@.drop_last() =~= old(self).items@);
        }
        self
    }

    /// Writes the scope: documentation, the import section, one blank line
    /// when imports exist, then the items with one blank line between
    /// consecutive items.
    #[verifier::rlimit(100)]
    pub fn fmt(&self, fmt: &mut Formatter)
        requires
            old(fmt).wf(),
            at_start(old(fmt).text()),
            scope_ok(*self),
        ensures
            final(fmt).wf(),
            final(fmt).depth() == old(fmt).depth(),
            final(fmt).text() == old(fmt).text() + ind(scope_text(*self), true, old(fmt).depth()),
        decreases *self,
    {
        let ghost orig = fmt.text();
        let ghost n = fmt.depth();
        let ghost tv = table_view(&self.imports);
        let ghost dt = opt_doc_text(self.doc);
        match &self.doc {
            Some(d) => {
                d.fmt(fmt);
            },
            None => {
                proof {
                    assert(ind(dt, true, n) =~= Seq::<char>::empty());
                    assert(orig + ind(dt, true, n) =~= orig);
                }
            },
        }
        proof {
            match &self.doc {
                Some(d) => {
                    crate::doc::lemma_doc_text_ends(d.0@);
                },
                None => {},
            }
            assert(ends_line(dt, true));
            assert(fmt.text() == orig + ind(dt, true, n));
            if dt.len() == 0 {
                assert(ind(dt, true, n) =~= Seq::<char>::empty());
                assert(fmt.text() =~= orig);
            } else {
                lemma_ind_ends(dt, true, n);
                assert(fmt.text().last() == ind(dt, true, n).last());
            }
            assert(at_start(fmt.text()));
        }
        self.fmt_imports(fmt);
        let ghost it = imports_text(tv);
        proof {
            lemma_ind_concat(dt, it, true, n);
            assert(fmt.text() =~= orig + ind(dt + it, true, n));
            lemma_vis_stmts_ends(tv, vis_order(tv), vis_order(tv).len() as int);
            lemma_ends_concat(dt, it);
            if (dt + it).len() == 0 {
                assert(ind(dt + it, true, n) =~= Seq::<char>::empty());
                assert(fmt.text() =~= orig);
            } else {
                lemma_ind_ends(dt + it, true, n);
                assert(fmt.text().last() == ind(dt + it, true, n).last());
            }
            assert(at_start(fmt.text()));
        }
        let ghost blank = if tv.len() > 0 {
            "\n"@
        } else {
            Seq::<char>::empty()
        };
        if !table_is_empty(&self.imports) {
            fmt.write_str("\n");
            proof {
                reveal_strlit("\n");
                lemma_ind_one('\n', true, n);
                lemma_ind_concat(dt + it, "\n"@, true, n);
                assert("\n"@ =~= seq!['\n']);
                assert(fmt.text() =~= orig + ind((dt + it) + blank, true, n));
            }
        } else {
            proof {
                assert((dt + it) + blank =~= dt + it);
            }
        }
        let ghost pre = (dt + it) + blank;
        proof {
            reveal_strlit("\n");
            lemma_ends_concat(dt, it);
            if tv.len() > 0 {
                assert("\n"@.len() == 1 && "\n"@.last() == '\n');
                assert(ends_line(pre, true));
            } else {
                assert(pre =~= dt + it);
                assert(ends_line(pre, true));
            }
            assert(fmt.text() == orig + ind(pre, true, n));
            assert(scope_items_text(self.items@, 0) =~= Seq::<char>::empty());
            assert(pre + scope_items_text(self.items@, 0) =~= pre);
        }
        let ghost il = self.items@;
        let mut i: usize = 0;
        while i < self.items.len()
            invariant
                i <= il.len(),
                il == self.items@,
                scope_ok(*self),
                ends_line(pre, true),
                fmt.wf(),
                fmt.depth() == n,
                fmt.text() == orig + ind(pre + scope_items_text(il, i as int), true, n),
                at_start(orig),
            decreases il.len() - i,
        {
            let ghost done = pre + scope_items_text(il, i as int);
            let ghost sep = if i != 0 {
                "\n"@
            } else {
                Seq::<char>::empty()
            };
            if i != 0 {
                fmt.write_str("\n");
                proof {
                    reveal_strlit("\n");
                    lemma_ind_one('\n', ends_line(done, true), n);
                    lemma_ind_concat(done, "\n"@, true, n);
                    assert("\n"@ =~= seq!['\n']);
                    assert(fmt.text() =~= orig + ind(done + sep, true, n));
                    lemma_ind_ends(done + sep, true, n);
                    assert(fmt.text().last() == ind(done + sep, true, n).last());
                    assert(at_start(fmt.text()));
                }
            } else {
                proof {
                    assert(done + sep =~= done);
                    assert(fmt.text() == orig + ind(done + sep, true, n));
                    lemma_scope_items_ends_start(pre, il, 0);
                    if (done + sep).len() == 0 {
                        assert(ind(done + sep, true, n) =~= Seq::<char>::empty());
                        assert(fmt.text() =~= orig);
                    } else {
                        lemma_ind_ends(done + sep, true, n);
                        assert(fmt.text().last() == ind(done + sep, true, n).last());
                    }
                    assert(at_start(fmt.text()));
                }
            }
            self.items[i].fmt(fmt);
            proof {
                lemma_ind_concat(done + sep, item_text(il[i as int]), true, n);
                assert((done + sep) + item_text(il[i as int]) =~= pre + scope_items_text(
                    il,
                    i as int + 1,
                ));
                assert(fmt.text() =~= orig + ind(
                    pre + scope_items_text(il, i as int + 1),
                    true,
                    n,
                ));
            }
            i = i + 1;
        }
        proof {
            assert(pre + scope_items_text(il, il.len() as int) =~= scope_text(*self));
            assert(fmt.text() =~= orig + ind(scope_text(*self), true, n));
        }
    }

    /// Checks every item of the scope for renderability: exactly the
    /// condition under which the scope can be rendered.
    pub fn is_renderable(&self) -> (r: bool)
        ensures
            r == scope_ok(*self),
        decreases *self,
    {
        let mut i: usize = 0;
        let mut ok = true;
        while i < self.items.len()
            invariant
                i <= self.items@.len(),
                ok == (forall|j: int| 0 <= j < i ==> item_ok(#[trigger] self.items@[j])),
            decreases self.items@.len() - i,
        {
            if !self.items[i].is_renderable() {
                ok = false;
            }
            i = i + 1;
        }
        ok
    }

    /// Renders the scope to its final document text: the accumulated
    /// buffer with a single trailing newline removed.
    pub fn to_string(&self) -> (r: String)
        requires
            scope_ok(*self),
        ensures
            r@ == trimmed(scope_text(*self)),
    {
        let mut f = Formatter::new();
        self.fmt(&mut f);
        proof {
            lemma_ind_zero(scope_text(*self), true);
            assert(Seq::<char>::empty() + scope_text(*self) =~= scope_text(*self));
        }
        f.finish()
    }
}

/// The first segment of a possibly `::`-nested name.
pub open spec fn first_segment(s: Seq<char>) -> Seq<char> {
    first_segment_rec(s, 0)
}

/// Scans for the first `::`; everything before it is the segment.
pub open spec fn first_segment_rec(s: Seq<char>, i: int) -> Seq<char>
    decreases s.len() - i,
{
    if i < 0 || i + 1 > s.len() {
        s
    } else if i + 1 < s.len() && s[i] == ':' && s[i + 1] == ':' {
        s.take(i)
    } else {
        first_segment_rec(s, i + 1)
    }
}

/// Takes the first segment of a possibly `::`-nested name.
pub fn first_segment_exec(s: &str) -> (r: String)
    ensures
        r@ == first_segment(s@),
{
    let len = s.unicode_len();
    let mut i: usize = 0;
    while i < len && i + 1 < len
        invariant
            i <= len,
            len == s@.len(),
            first_segment(s@) == first_segment_rec(s@, i as int),
        decreases len - i,
    {
        let c1 = s.get_char(i);
        if c1 == ':' {
            let c2 = s.get_char(i + 1);
            if c2 == ':' {
                let r = s.substring_char(0, i);
                let owned = r.to_owned();
                proof {
                    assert(s@.subrange(0, i as int) =~= s@.take(i as int));
                }
                return owned;
            }
        }
        i = i + 1;
    }
    proof {
        if i + 1 == len {
            assert(first_segment_rec(s@, i as int + 1) =~= s@);
        }
        assert(first_segment_rec(s@, i as int) =~= s@);
    }
    s.to_owned()
}

} // verus!
