use vstd::prelude::*;

use crate::doc::doc_text;
use crate::formatter::{ind, lemma_ind_shift, trimmed};
use crate::function::{fn_head_text, function_text, Function};
use crate::import::Import;
use crate::imports_table::{find_name, find_path, spec_table_insert, table_has, table_view};
use crate::scope::{
    contains_vis, imports_text, names_for, scope_text, vis_order, vis_scan_inner, vis_scan_paths,
    Scope, TableV,
};
use crate::visibility::{vis_eq, Vis};

verus! {

/// What `find_path` finds is the first entry under the path.
pub proof fn lemma_find_path_spec(t: TableV, p: Seq<char>)
    ensures
        find_path(t, p) == -1 ==> forall|j: int| 0 <= j < t.len() ==> (#[trigger] t[j]).0 != p,
        find_path(t, p) >= 0 ==> find_path(t, p) < t.len() && t[find_path(t, p)].0 == p && forall|
            j: int,
        | 0 <= j < find_path(t, p) ==> (#[trigger] t[j]).0 != p,
    decreases t.len(),
{
    if t.len() > 0 {
        lemma_find_path_spec(t.drop_first(), p);
        assert(forall|j: int| 1 <= j < t.len() ==> t[j] == t.drop_first()[j - 1]);
    }
}

/// What `find_name` finds is the first entry under the name.
pub proof fn lemma_find_name_spec(inner: Seq<(Seq<char>, Import)>, n: Seq<char>)
    ensures
        find_name(inner, n) == -1 ==> forall|j: int|
            0 <= j < inner.len() ==> (#[trigger] inner[j]).0 != n,
        find_name(inner, n) >= 0 ==> find_name(inner, n) < inner.len() && inner[find_name(
            inner,
            n,
        )].0 == n && forall|j: int|
            0 <= j < find_name(inner, n) ==> (#[trigger] inner[j]).0 != n,
    decreases inner.len(),
{
    if inner.len() > 0 {
        lemma_find_name_spec(inner.drop_first(), n);
        assert(forall|j: int| 1 <= j < inner.len() ==> inner[j] == inner.drop_first()[j - 1]);
    }
}

/// Inserting a key makes it present.
pub proof fn lemma_insert_makes_present(t: TableV, p: Seq<char>, n: Seq<char>, imp: Import)
    ensures
        table_has(spec_table_insert(t, p, n, imp), p, n),
{
    let pi = find_path(t, p);
    lemma_find_path_spec(t, p);
    if pi < 0 || pi >= t.len() {
        let t2 = t.push((p, seq![(n, imp)]));
        lemma_find_path_spec(t2, p);
        let pi2 = find_path(t2, p);
        if pi2 == -1 {
            assert(t2[t.len() as int].0 == p);
            assert(false);
        }
        if pi2 < t.len() {
            assert(t2[pi2] == t[pi2]);
            assert(t[pi2].0 != p);
            assert(false);
        }
        assert(pi2 == t.len());
        assert(t2[pi2].1 =~= seq![(n, imp)]);
        assert(find_name(t2[pi2].1, n) == 0);
    } else if find_name(t[pi].1, n) >= 0 {
        lemma_find_name_spec(t[pi].1, n);
    } else {
        let t2 = t.update(pi, (t[pi].0, t[pi].1.push((n, imp))));
        lemma_find_path_spec(t2, p);
        let pi2 = find_path(t2, p);
        assert(t2[pi].0 == p);
        if pi2 == -1 {
            assert(false);
        }
        assert(forall|j: int| 0 <= j < t2.len() && j != pi ==> t2[j] == t[j]);
        if pi2 < pi {
            assert(t[pi2].0 != p);
            assert(false);
        }
        if pi2 > pi {
            assert(t2[pi].0 != p);
            assert(false);
        }
        assert(pi2 == pi);
        let inner2 = t2[pi].1;
        lemma_find_name_spec(inner2, n);
        lemma_find_name_spec(t[pi].1, n);
        let ni2 = find_name(inner2, n);
        if ni2 == -1 {
            assert(inner2[t[pi].1.len() as int].0 == n);
            assert(false);
        }
    }
}

/// Inserting a key that is already present changes nothing.
pub proof fn lemma_reinsert_existing(t: TableV, p: Seq<char>, n: Seq<char>, imp: Import)
    requires
        table_has(t, p, n),
    ensures
        spec_table_insert(t, p, n, imp) == t,
        imports_text(spec_table_insert(t, p, n, imp)) == imports_text(t),
{
}

/// Inserting the same `(path, name)` key twice is inserting it once: the
/// second insertion leaves the table, and so the rendered import section,
/// unchanged, whatever visibility it carries.
pub proof fn lemma_duplicate_insert(
    t: TableV,
    p: Seq<char>,
    n: Seq<char>,
    imp1: Import,
    imp2: Import,
)
    ensures
        spec_table_insert(spec_table_insert(t, p, n, imp1), p, n, imp2) == spec_table_insert(
            t,
            p,
            n,
            imp1,
        ),
        imports_text(spec_table_insert(spec_table_insert(t, p, n, imp1), p, n, imp2))
            == imports_text(spec_table_insert(t, p, n, imp1)),
{
    lemma_insert_makes_present(t, p, n, imp1);
    lemma_reinsert_existing(spec_table_insert(t, p, n, imp1), p, n, imp2);
}

/// A visibility scan only appends: everything in the accumulator stays,
/// in place.
proof fn lemma_scan_inner_extends(acc: Seq<Vis>, inner: Seq<(Seq<char>, Import)>, j: int)
    ensures
        vis_scan_inner(acc, inner, j).len() >= acc.len(),
        forall|k: int|
            0 <= k < acc.len() ==> #[trigger] vis_scan_inner(acc, inner, j)[k] == acc[k],
    decreases j,
{
    if 0 < j <= inner.len() {
        lemma_scan_inner_extends(acc, inner, j - 1);
    }
}

/// A visibility scan keeps the list free of repeats.
proof fn lemma_scan_inner_distinct(acc: Seq<Vis>, inner: Seq<(Seq<char>, Import)>, j: int)
    requires
        forall|a: int, b: int|
            0 <= a < b < acc.len() ==> !vis_eq(#[trigger] acc[a], #[trigger] acc[b]),
    ensures
        ({
            let r = vis_scan_inner(acc, inner, j);
            forall|a: int, b: int| 0 <= a < b < r.len() ==> !vis_eq(#[trigger] r[a], #[trigger] r[b])
        }),
    decreases j,
{
    if 0 < j <= inner.len() {
        lemma_scan_inner_distinct(acc, inner, j - 1);
        let a0 = vis_scan_inner(acc, inner, j - 1);
        let v = inner[j - 1].1.vis;
        if !contains_vis(a0, v) {
            let r = a0.push(v);
            assert forall|a: int, b: int| 0 <= a < b < r.len() implies !vis_eq(
                #[trigger] r[a],
                #[trigger] r[b],
            ) by {
                if b == a0.len() as int {
                    assert(r[a] == a0[a]);
                    if vis_eq(a0[a], v) {
                        assert(contains_vis(a0, v));
                    }
                }
            }
        }
    }
}

proof fn lemma_scan_paths_distinct(t: TableV, i: int)
    ensures
        ({
            let r = vis_scan_paths(t, i);
            forall|a: int, b: int| 0 <= a < b < r.len() ==> !vis_eq(#[trigger] r[a], #[trigger] r[b])
        }),
    decreases i,
{
    if 0 < i <= t.len() {
        lemma_scan_paths_distinct(t, i - 1);
        lemma_scan_inner_distinct(vis_scan_paths(t, i - 1), t[i - 1].1, t[i - 1].1.len() as int);
    }
}

/// A visibility scan covers every visibility it has walked over.
proof fn lemma_scan_inner_complete(acc: Seq<Vis>, inner: Seq<(Seq<char>, Import)>, j: int)
    requires
        j <= inner.len(),
    ensures
        forall|q: int|
            0 <= q < j && q < inner.len() ==> contains_vis(
                vis_scan_inner(acc, inner, j),
                (#[trigger] inner[q]).1.vis,
            ),
    decreases j,
{
    if 0 < j <= inner.len() {
        lemma_scan_inner_complete(acc, inner, j - 1);
        let a0 = vis_scan_inner(acc, inner, j - 1);
        let v = inner[j - 1].1.vis;
        let r = vis_scan_inner(acc, inner, j);
        assert forall|q: int| 0 <= q < j && q < inner.len() implies contains_vis(
            r,
            (#[trigger] inner[q]).1.vis,
        ) by {
            if q < j - 1 {
                let w = choose|w: int|
                    0 <= w < a0.len() && vis_eq(#[trigger] a0[w], inner[q].1.vis);
                if contains_vis(a0, v) {
                    assert(r == a0);
                } else {
                    assert(r == a0.push(v));
                    assert(r[w] == a0[w]);
                }
            } else {
                if contains_vis(a0, v) {
                    let w = choose|w: int| 0 <= w < a0.len() && vis_eq(#[trigger] a0[w], v);
                    assert(r[w] == a0[w]);
                } else {
                    assert(r == a0.push(v));
                    assert(r[a0.len() as int] == v);
                    assert(vis_eq(v, v));
                }
            }
        }
    }
}

proof fn lemma_scan_paths_complete(t: TableV, i: int)
    requires
        i <= t.len(),
    ensures
        forall|p: int, q: int|
            0 <= p < i && p < t.len() && 0 <= q < (#[trigger] t[p]).1.len() ==> contains_vis(
                vis_scan_paths(t, i),
                (#[trigger] t[p].1[q]).1.vis,
            ),
    decreases i,
{
    if 0 < i <= t.len() {
        lemma_scan_paths_complete(t, i - 1);
        lemma_scan_inner_complete(vis_scan_paths(t, i - 1), t[i - 1].1, t[i - 1].1.len() as int);
        assert forall|p: int, q: int|
            0 <= p < i && p < t.len() && 0 <= q < (#[trigger] t[p]).1.len() implies contains_vis(
            vis_scan_paths(t, i),
            (#[trigger] t[p].1[q]).1.vis,
        ) by {
            if p < i - 1 {
                let w = choose|w: int|
                    0 <= w < vis_scan_paths(t, i - 1).len() && vis_eq(
                        #[trigger] vis_scan_paths(t, i - 1)[w],
                        t[p].1[q].1.vis,
                    );
                lemma_scan_inner_extends(
                    vis_scan_paths(t, i - 1),
                    t[i - 1].1,
                    t[i - 1].1.len() as int,
                );
                assert(vis_scan_paths(t, i)[w] == vis_scan_paths(t, i - 1)[w]);
            }
        }
    }
}

/// One rendered `use` statement stands for each distinct `(path,
/// visibility)` pair that has at least one name, and its name list is the
/// insertion-ordered filter of the names under that pair: the group list
/// holds every visibility of the table exactly once, and the statement
/// for a pair is empty exactly when the pair has no name.
pub proof fn lemma_statement_per_pair(t: TableV)
    ensures
        forall|a: int, b: int|
            0 <= a < b < vis_order(t).len() ==> !vis_eq(
                #[trigger] vis_order(t)[a],
                #[trigger] vis_order(t)[b],
            ),
        forall|p: int, q: int|
            0 <= p < t.len() && 0 <= q < (#[trigger] t[p]).1.len() ==> contains_vis(
                vis_order(t),
                (#[trigger] t[p].1[q]).1.vis,
            ),
        forall|k: int, p: int|
            0 <= k < vis_order(t).len() && 0 <= p < t.len() ==> ((#[trigger] crate::scope::stmt_text(
                vis_order(t)[k],
                t[p].0,
                names_for(t[p].1, vis_order(t)[k], t[p].1.len() as int),
            )).len() > 0 <==> names_for(t[p].1, vis_order(t)[k], t[p].1.len() as int).len() > 0),
{
    lemma_scan_paths_distinct(t, t.len() as int);
    lemma_scan_paths_complete(t, t.len() as int);
    assert forall|k: int, p: int|
        0 <= k < vis_order(t).len() && 0 <= p < t.len() implies ((#[trigger] crate::scope::stmt_text(
        vis_order(t)[k],
        t[p].0,
        names_for(t[p].1, vis_order(t)[k], t[p].1.len() as int),
    )).len() > 0 <==> names_for(t[p].1, vis_order(t)[k], t[p].1.len() as int).len() > 0) by {
        let nm = names_for(t[p].1, vis_order(t)[k], t[p].1.len() as int);
        lemma_stmt_len(vis_order(t)[k], t[p].0, nm);
    }
}

/// A statement is empty exactly when its name list is.
proof fn lemma_stmt_len(v: Vis, path: Seq<char>, names: Seq<Seq<char>>)
    ensures
        crate::scope::stmt_text(v, path, names).len() > 0 <==> names.len() > 0,
{
    reveal_strlit("use ");
    reveal_strlit(";\n");
    reveal_strlit("};\n");
    assert("use "@.len() == 4);
    if names.len() == 1 {
        assert(crate::scope::stmt_text(v, path, names).len() > 0);
    } else if names.len() > 1 {
        assert(crate::scope::stmt_text(v, path, names).len() > 0);
    }
}

/// Content written inside nested blocks is indented four spaces per
/// level: writing at depth `d` is writing the once-indented text one
/// level further out, so each line that has a character of its own ends
/// up behind `4 * d` spaces. The closing brace of a block is written one
/// level out, at `4 * (d - 1)` spaces, by the formatter's block-closing
/// contract.
pub proof fn lemma_nested_block_indentation(s: Seq<char>, d: nat)
    requires
        d >= 1,
    ensures
        ind(s, true, d) == ind(ind(s, true, 1), true, (d - 1) as nat),
{
    lemma_ind_shift(s, true, d);
}

/// An empty scope renders to the empty document, and a scope holding only
/// a documentation comment renders to exactly that comment, without a
/// trailing blank line.
pub proof fn lemma_empty_scope(s: Scope)
    requires
        table_view(&s.imports).len() == 0,
        s.items@.len() == 0,
    ensures
        s.doc is None ==> trimmed(scope_text(s)) == Seq::<char>::empty(),
        s.doc matches Some(d) ==> scope_text(s) == doc_text(d.0@) && trimmed(scope_text(s))
            == trimmed(doc_text(d.0@)),
{
    let t = table_view(&s.imports);
    assert(vis_order(t) =~= Seq::<Vis>::empty());
    assert(imports_text(t) =~= Seq::<char>::empty());
    assert(crate::scope::scope_items_text(s.items@, 0) =~= Seq::<char>::empty());
    match s.doc {
        Some(d) => {
            assert(scope_text(s) =~= doc_text(d.0@));
        },
        None => {
            assert(scope_text(s) =~= Seq::<char>::empty());
        },
    }
}

/// A function without a body renders, as a trait member, as its bare
/// signature closed by a semicolon.
pub proof fn lemma_trait_member_signature(f: Function)
    requires
        f.body@.len() == 0,
    ensures
        function_text(f, true) == fn_head_text(f, true) + ";\n"@,
{
    reveal(crate::function::function_text);
}

} // verus!
