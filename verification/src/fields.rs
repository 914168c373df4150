use vstd::prelude::*;
use vstd::string::StringExecFns;

use crate::doc::Doc;
use crate::field::Field;
use crate::formatter::{
    at_start, block_region_text, ends_line, ind, lemma_block_region, lemma_ind_concat,
    lemma_ind_ends, lemma_ind_one, open_text, Formatter,
};
use crate::text::{lines_text, split_lines, split_lines_exec};
use crate::ty::{type_text, Type};
use crate::visibility::vis_text;

verus! {

/// The field list of a struct or an enum variant: absent, tuple-style, or
/// named.
pub enum Fields {
    /// No fields.
    Empty,
    /// A parenthesised tuple of types.
    Tuple(Vec<Type>),
    /// A braced list of named fields.
    Named(Vec<Field>),
}

/// A field's documentation lines: `/// ` before every line, even an empty
/// one.
pub open spec fn field_doc_lines_text(ls: Seq<Seq<char>>, i: int) -> Seq<char>
    decreases i,
{
    if 0 < i <= ls.len() {
        field_doc_lines_text(ls, i - 1) + "/// "@ + ls[i - 1] + "\n"@
    } else {
        Seq::empty()
    }
}

/// The rendered documentation of a field, empty when it has none.
pub open spec fn field_doc_text(d: Option<Doc>) -> Seq<char> {
    match d {
        Option::None => Seq::empty(),
        Option::Some(doc) => field_doc_lines_text(
            split_lines(doc.0@),
            split_lines(doc.0@).len() as int,
        ),
    }
}

/// One named field: documentation, annotations, visibility, `name: Type`
/// and the trailing comma, ending its line.
pub open spec fn named_field_text(f: Field) -> Seq<char> {
    field_doc_text(f.doc) + lines_text(
        f.annotations.deep_view(),
        f.annotations.deep_view().len() as int,
    ) + vis_text(f.vis) + f.name@ + ": "@ + type_text(f.ty) + ",\n"@
}

/// The first `i` named fields, rendered in order.
pub open spec fn named_fields_body(fs: Seq<Field>, i: int) -> Seq<char>
    decreases i,
{
    if 0 < i <= fs.len() {
        named_fields_body(fs, i - 1) + named_field_text(fs[i - 1])
    } else {
        Seq::empty()
    }
}

/// The first `i` tuple types, `, `-separated.
pub open spec fn types_list_text(ts: Seq<Type>, i: int) -> Seq<char>
    decreases i,
{
    if i <= 0 || i > ts.len() {
        Seq::empty()
    } else if i == 1 {
        type_text(ts[0])
    } else {
        types_list_text(ts, i - 1) + ", "@ + type_text(ts[i - 1])
    }
}

/// The rendered field list. `a` says whether the cursor sits at a line
/// start when the list begins.
pub open spec fn fields_text(f: Fields, a: bool) -> Seq<char> {
    match f {
        Fields::Empty => Seq::empty(),
        Fields::Tuple(ts) => "("@ + types_list_text(ts@, ts@.len() as int) + ")"@,
        Fields::Named(fs) => block_region_text(a, named_fields_body(fs@, fs@.len() as int)),
    }
}

/// A renderable field list: a tuple or named list holds at least one entry.
pub open spec fn fields_ok(f: Fields) -> bool {
    match f {
        Fields::Empty => true,
        Fields::Tuple(ts) => ts@.len() > 0,
        Fields::Named(fs) => fs@.len() > 0,
    }
}

/// A named field's text ends its line.
pub proof fn lemma_named_field_ends(f: Field)
    ensures
        named_field_text(f).len() > 0,
        named_field_text(f).last() == '\n',
{
    reveal_strlit(",\n");
    assert(",\n"@.len() == 2);
    assert(",\n"@.last() == '\n');
    assert(named_field_text(f).last() == ',' || named_field_text(f).last() == '\n');
    assert((field_doc_text(f.doc) + lines_text(
        f.annotations.deep_view(),
        f.annotations.deep_view().len() as int,
    ) + vis_text(f.vis) + f.name@ + ": "@ + type_text(f.ty) + ",\n"@).last() == ",\n"@.last());
}

/// A rendered named-field body is empty or ends in a newline.
pub proof fn lemma_named_fields_body_ends(fs: Seq<Field>, i: int)
    ensures
        ends_line(named_fields_body(fs, i), true),
    decreases i,
{
    if 0 < i <= fs.len() {
        lemma_named_fields_body_ends(fs, i - 1);
        lemma_named_field_ends(fs[i - 1]);
        assert((named_fields_body(fs, i - 1) + named_field_text(fs[i - 1])).last()
            == named_field_text(fs[i - 1]).last());
    }
}

/// Renders a field's documentation lines.
fn field_doc_to_text(d: &Doc) -> (r: String)
    ensures
        r@ == field_doc_text(Some(*d)),
{
    let lines = split_lines_exec(d.0.as_str());
    let mut out = String::new();
    let mut i: usize = 0;
    proof {
        assert(out@ =~= field_doc_lines_text(lines.deep_view(), 0));
    }
    while i < lines.len()
        invariant
            i <= lines.len(),
            lines.deep_view().len() == lines.len(),
            forall|j: int| 0 <= j < lines.len() ==> lines.deep_view()[j] == lines@[j]@,
            out@ == field_doc_lines_text(lines.deep_view(), i as int),
        decreases lines.len() - i,
    {
        out.append("/// ");
        out.append(lines[i].as_str());
        out.append("\n");
        proof {
            assert(out@ =~= field_doc_lines_text(lines.deep_view(), i as int + 1));
        }
        i = i + 1;
    }
    proof {
        assert(lines.deep_view().len() == split_lines(d.0@).len());
    }
    out
}

/// Renders one named field as text.
fn named_field_to_text(f: &Field) -> (r: String)
    ensures
        r@ == named_field_text(*f),
{
    let mut out: String;
    match &f.doc {
        Some(d) => {
            out = field_doc_to_text(d);
        },
        None => {
            out = String::new();
        },
    }
    let ghost base = out@;
    let mut i: usize = 0;
    proof {
        assert(out@ + lines_text(f.annotations.deep_view(), 0) =~= out@);
    }
    while i < f.annotations.len()
        invariant
            i <= f.annotations.len(),
            f.annotations.deep_view().len() == f.annotations@.len(),
            forall|j: int|
                0 <= j < f.annotations@.len() ==> f.annotations.deep_view()[j]
                    == f.annotations@[j]@,
            out@ == base + lines_text(f.annotations.deep_view(), i as int),
        decreases f.annotations.len() - i,
    {
        out.append(f.annotations[i].as_str());
        out.append("\n");
        proof {
            assert(out@ =~= base + lines_text(f.annotations.deep_view(), i as int + 1));
        }
        i = i + 1;
    }
    let v = f.vis.to_text();
    out.append(v.as_str());
    out.append(f.name.as_str());
    out.append(": ");
    let t = f.ty.to_text();
    out.append(t.as_str());
    out.append(",\n");
    proof {
        assert(out@ =~= named_field_text(*f));
    }
    out
}

impl Default for Fields {
    /// An empty field list.
    fn default() -> (r: Fields)
        ensures
            r is Empty,
    {
        Fields::Empty
    }
}

impl Fields {
    /// Creates an empty field list.
    pub fn new() -> (r: Fields)
        ensures
            r is Empty,
    {
        Fields::Empty
    }

    /// Pushes a named field. The list must not already be tuple-style.
    pub fn push_named(&mut self, field: Field) -> (r: &mut Fields)
        requires
            !(*old(self) is Tuple),
        ensures
            *old(self) is Empty ==> (*r matches Fields::Named(fs) && fs@ == seq![field]),
            *old(self) matches Fields::Named(pre) ==> (*r matches Fields::Named(fs) && fs@ == pre@.push(
                field,
            )),
            *final(self) == *final(r),
    {
        match self {
            Fields::Empty => {
                let mut fs: Vec<Field> = Vec::new();
                fs.push(field);
                proof {
                    assert(fs@ =~= seq![field]);
                }
                *self = Fields::Named(fs);
            },
            Fields::Named(fs) => {
                fs.push(field);
            },
            Fields::Tuple(_) => {
                proof {
                    assert(false);
                }
            },
        }
        self
    }

    /// Pushes a named field. The list must not already be tuple-style.
    pub fn with_named(self, field: Field) -> (r: Fields)
        requires
            !(self is Tuple),
        ensures
            self is Empty ==> (r matches Fields::Named(fs) && fs@ == seq![field]),
            self matches Fields::Named(pre) ==> (r matches Fields::Named(fs) && fs@ == pre@.push(
                field,
            )),
    {
        let mut s = self;
        s.push_named(field);
        s
    }

    /// Pushes a tuple type. The list must not already be named.
    pub fn push_tuple(&mut self, ty: Type) -> (r: &mut Fields)
        requires
            !(*old(self) is Named),
        ensures
            *old(self) is Empty ==> (*r matches Fields::Tuple(ts) && ts@ == seq![ty]),
            *old(self) matches Fields::Tuple(pre) ==> (*r matches Fields::Tuple(ts) && ts@ == pre@.push(
                ty,
            )),
            *final(self) == *final(r),
    {
        match self {
            Fields::Empty => {
                let mut ts: Vec<Type> = Vec::new();
                ts.push(ty);
                proof {
                    assert(ts@ =~= seq![ty]);
                }
                *self = Fields::Tuple(ts);
            },
            Fields::Tuple(ts) => {
                ts.push(ty);
            },
            Fields::Named(_) => {
                proof {
                    assert(false);
                }
            },
        }
        self
    }

    /// Pushes a tuple type. The list must not already be named.
    pub fn with_tuple(self, ty: Type) -> (r: Fields)
        requires
            !(self is Named),
        ensures
            self is Empty ==> (r matches Fields::Tuple(ts) && ts@ == seq![ty]),
            self matches Fields::Tuple(pre) ==> (r matches Fields::Tuple(ts) && ts@ == pre@.push(ty)),
    {
        let mut s = self;
        s.push_tuple(ty);
        s
    }

    /// Writes the field list: nothing, a tuple, or a named block.
    #[verifier::rlimit(100)]
    #[verifier::spinoff_prover]
    pub fn fmt(&self, fmt: &mut Formatter)
        requires
            old(fmt).wf(),
            fields_ok(*self),
        ensures
            final(fmt).wf(),
            final(fmt).depth() == old(fmt).depth(),
            final(fmt).text() == old(fmt).text() + ind(
                fields_text(*self, at_start(old(fmt).text())),
                at_start(old(fmt).text()),
                old(fmt).depth(),
            ),
    {
        let ghost orig = fmt.text();
        let ghost a0 = at_start(orig);
        let ghost n = fmt.depth();
        match self {
            Fields::Empty => {
                proof {
                    assert(ind(fields_text(*self, a0), a0, n) =~= Seq::<char>::empty());
                    assert(orig + Seq::<char>::empty() =~= orig);
                }
            },
            Fields::Tuple(ts) => {
                let mut out = String::from_str("(");
                let ghost tl = ts@;
                let mut i: usize = 0;
                proof {
                    assert(out@ + types_list_text(tl, 0) =~= out@);
                }
                while i < ts.len()
                    invariant
                        i <= ts@.len(),
                        tl == ts@,
                        out@ == "("@ + types_list_text(tl, i as int),
                    decreases ts@.len() - i,
                {
                    if i != 0 {
                        out.append(", ");
                    }
                    let t = ts[i].to_text();
                    out.append(t.as_str());
                    proof {
                        if i == 0 {
                            assert(out@ =~= "("@ + types_list_text(tl, 1));
                        } else {
                            assert(out@ =~= "("@ + types_list_text(tl, i as int + 1));
                        }
                    }
                    i = i + 1;
                }
                out.append(")");
                fmt.write_str(out.as_str());
                proof {
                    assert(out@ =~= fields_text(*self, a0));
                }
            },
            Fields::Named(fs) => {
                let ghost fl = fs@;
                fmt.open_block();
                let ghost t_open = fmt.text();
                proof {
                    lemma_ind_ends(open_text(a0), a0, n);
                    assert(open_text(a0).last() == '\n');
                    assert(t_open.last() == ind(open_text(a0), a0, n).last());
                    assert(named_fields_body(fl, 0) =~= Seq::<char>::empty());
                    assert(t_open + Seq::<char>::empty() =~= t_open);
                }
                let mut i: usize = 0;
                while i < fs.len()
                    invariant
                        i <= fl.len(),
                        fl == fs@,
                        fmt.wf(),
                        fmt.depth() == n + 1,
                        fmt.text() == t_open + ind(named_fields_body(fl, i as int), true, n + 1),
                        at_start(t_open),
                    decreases fl.len() - i,
                {
                    proof {
                        lemma_named_fields_body_ends(fl, i as int);
                        let done = ind(named_fields_body(fl, i as int), true, n + 1);
                        if named_fields_body(fl, i as int).len() == 0 {
                            assert(done =~= Seq::<char>::empty());
                            assert(fmt.text() =~= t_open);
                        } else {
                            lemma_ind_ends(named_fields_body(fl, i as int), true, n + 1);
                            assert(fmt.text().last() == done.last());
                        }
                        assert(at_start(fmt.text()));
                    }
                    let line = named_field_to_text(&fs[i]);
                    fmt.write_str(line.as_str());
                    proof {
                        lemma_ind_concat(
                            named_fields_body(fl, i as int),
                            named_field_text(fl[i as int]),
                            true,
                            n + 1,
                        );
                        assert(fmt.text() =~= t_open + ind(
                            named_fields_body(fl, i as int + 1),
                            true,
                            n + 1,
                        ));
                    }
                    i = i + 1;
                }
                let ghost body_full = named_fields_body(fl, fl.len() as int);
                proof {
                    lemma_named_fields_body_ends(fl, fl.len() as int);
                    if body_full.len() == 0 {
                        assert(ind(body_full, true, (n + 1) as nat) =~= Seq::<char>::empty());
                        assert(fmt.text() =~= t_open);
                    } else {
                        lemma_ind_ends(body_full, true, n + 1);
                        assert(fmt.text().last() == ind(body_full, true, (n + 1) as nat).last());
                    }
                    assert(at_start(fmt.text()));
                }
                fmt.close_block();
                proof {
                    assert(ind(seq!['}'], true, n).last() == '}') by {
                        lemma_ind_one('}', true, n);
                    }
                    assert(fmt.text().last() == '}');
                    assert(!at_start(fmt.text()));
                }
                fmt.write_str("\n");
                proof {
                    reveal_strlit("\n");
                    lemma_ind_one('\n', false, n);
                    assert("\n"@ =~= seq!['\n']);
                    lemma_block_region(a0, body_full, n);
                    assert(fmt.text() =~= orig + ind(block_region_text(a0, body_full), a0, n));
                }
            },
        }
    }
}

} // verus!
