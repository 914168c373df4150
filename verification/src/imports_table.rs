use vstd::prelude::*;

use indexmap::IndexMap;

use crate::import::Import;

verus! {

#[verifier::external_type_specification]
#[verifier::external_body]
#[verifier::reject_recursive_types(K)]
#[verifier::reject_recursive_types(V)]
#[verifier::reject_recursive_types(S)]
pub struct ExIndexMap<K, V, S>(IndexMap<K, V, S>);

/// What the two-level import table holds: for each declaring path, in
/// insertion order, the imported names under it, in insertion order, each
/// with its stored record.
pub uninterp spec fn table_view(m: &IndexMap<String, IndexMap<String, Import>>) -> Seq<
    (Seq<char>, Seq<(Seq<char>, Import)>),
>;

/// Index of the first entry under the given path, or `-1`.
pub open spec fn find_path(
    t: Seq<(Seq<char>, Seq<(Seq<char>, Import)>)>,
    p: Seq<char>,
) -> int
    decreases t.len(),
{
    if t.len() == 0 {
        -1
    } else if t.first().0 == p {
        0
    } else if find_path(t.drop_first(), p) < 0 {
        -1
    } else {
        find_path(t.drop_first(), p) + 1
    }
}

/// Index of the first entry under the given name, or `-1`.
pub open spec fn find_name(inner: Seq<(Seq<char>, Import)>, n: Seq<char>) -> int
    decreases inner.len(),
{
    if inner.len() == 0 {
        -1
    } else if inner.first().0 == n {
        0
    } else if find_name(inner.drop_first(), n) < 0 {
        -1
    } else {
        find_name(inner.drop_first(), n) + 1
    }
}

/// Whether the key pair `(p, n)` is present.
pub open spec fn table_has(
    t: Seq<(Seq<char>, Seq<(Seq<char>, Import)>)>,
    p: Seq<char>,
    n: Seq<char>,
) -> bool {
    &&& find_path(t, p) >= 0
    &&& 0 <= find_path(t, p) < t.len()
    &&& find_name(t[find_path(t, p)].1, n) >= 0
}

/// First-write-wins insertion into the two-level table: a new path opens a
/// new group at the end; a new name under a known path goes to the end of
/// that group; an existing `(path, name)` pair leaves the table unchanged.
pub open spec fn spec_table_insert(
    t: Seq<(Seq<char>, Seq<(Seq<char>, Import)>)>,
    p: Seq<char>,
    n: Seq<char>,
    imp: Import,
) -> Seq<(Seq<char>, Seq<(Seq<char>, Import)>)> {
    let pi = find_path(t, p);
    if pi < 0 || pi >= t.len() {
        t.push((p, seq![(n, imp)]))
    } else if find_name(t[pi].1, n) >= 0 {
        t
    } else {
        t.update(pi, (t[pi].0, t[pi].1.push((n, imp))))
    }
}

/// Creates an empty import table. Relies on `IndexMap::new`.
#[verifier::external_body]
pub(crate) fn table_new() -> (r: IndexMap<String, IndexMap<String, Import>>)
    ensures
        table_view(&r) == Seq::<(Seq<char>, Seq<(Seq<char>, Import)>)>::empty(),
{
    IndexMap::new()
}

/// First-write-wins insertion. Relies on `IndexMap::entry` with
/// `Entry::or_default` and `Entry::or_insert`: a vacant key is appended at
/// the end of the map's order, and an occupied key keeps its value.
#[verifier::external_body]
pub(crate) fn table_insert_first_wins(
    m: &mut IndexMap<String, IndexMap<String, Import>>,
    path: &String,
    name: &String,
    imp: Import,
)
    ensures
        table_view(final(m)) == spec_table_insert(table_view(old(m)), path@, name@, imp),
{
    m.entry(path.clone()).or_default().entry(name.clone()).or_insert(imp);
}

/// Whether the table has no paths at all. Relies on `IndexMap::is_empty`.
#[verifier::external_body]
pub(crate) fn table_is_empty(m: &IndexMap<String, IndexMap<String, Import>>) -> (r: bool)
    ensures
        r == (table_view(m).len() == 0),
{
    m.is_empty()
}

/// Copies the table out as vectors, outer and inner insertion order kept.
/// Relies on `IndexMap::iter`, which yields entries in insertion order.
#[verifier::external_body]
pub(crate) fn table_entries(m: &IndexMap<String, IndexMap<String, Import>>) -> (r: Vec<
    (String, Vec<(String, Import)>),
>)
    ensures
        r@.len() == table_view(m).len(),
        forall|i: int|
            0 <= i < r@.len() ==> {
                &&& (#[trigger] r@[i]).0@ == table_view(m)[i].0
                &&& r@[i].1@.len() == table_view(m)[i].1.len()
                &&& forall|j: int|
                    0 <= j < r@[i].1@.len() ==> (#[trigger] r@[i].1@[j]).0@ == table_view(
                        m,
                    )[i].1[j].0 && r@[i].1@[j].1 == table_view(m)[i].1[j].1
            },
{
    m.iter().map(
        |(k, v)| (k.clone(), v.iter().map(|(k2, v2)| (k2.clone(), v2.clone())).collect()),
    ).collect()
}

} // verus!
