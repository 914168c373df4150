use vstd::prelude::*;
use vstd::string::StrSliceExecFns;
use vstd::string::StringExecFns;

use crate::formatter::pop_char;

verus! {

/// Index of the first occurrence of `c` in `s`, or `-1` when absent.
pub open spec fn find_char(s: Seq<char>, c: char) -> int
    decreases s.len(),
{
    if s.len() == 0 {
        -1
    } else if s.first() == c {
        0
    } else if find_char(s.drop_first(), c) < 0 {
        -1
    } else {
        find_char(s.drop_first(), c) + 1
    }
}

/// What `find_char` finds is the first occurrence.
pub proof fn lemma_find_char(s: Seq<char>, c: char)
    ensures
        find_char(s, c) == -1 ==> forall|j: int| 0 <= j < s.len() ==> s[j] != c,
        find_char(s, c) >= 0 ==> find_char(s, c) < s.len() && s[find_char(s, c)] == c && forall|
            j: int,
        | 0 <= j < find_char(s, c) ==> s[j] != c,
    decreases s.len(),
{
    if s.len() > 0 {
        lemma_find_char(s.drop_first(), c);
        assert(forall|j: int| 1 <= j < s.len() ==> s[j] == s.drop_first()[j - 1]);
    }
}

/// A line as `str::lines` yields it: without a trailing carriage return.
pub open spec fn strip_cr(l: Seq<char>) -> Seq<char> {
    if l.len() > 0 && l.last() == '\r' {
        l.drop_last()
    } else {
        l
    }
}

/// The lines of `s`, split as `str::lines` splits them: at each newline,
/// with a final newline closing the last line rather than opening an empty
/// one, and with a carriage return before a newline dropped.
pub open spec fn split_lines(s: Seq<char>) -> Seq<Seq<char>>
    decreases s.len(),
{
    if s.len() == 0 {
        Seq::empty()
    } else if 0 <= find_char(s, '\n') < s.len() {
        seq![strip_cr(s.take(find_char(s, '\n')))] + split_lines(
            s.skip(find_char(s, '\n') + 1),
        )
    } else {
        seq![strip_cr(s)]
    }
}


/// Plain lines, each terminated with a newline.
pub open spec fn lines_text(ls: Seq<Seq<char>>, i: int) -> Seq<char>
    decreases i,
{
    if 0 < i <= ls.len() {
        lines_text(ls, i - 1) + ls[i - 1] + "\n"@
    } else {
        Seq::empty()
    }
}

/// `parts` joined with `sep` between consecutive parts.
pub open spec fn join_with(parts: Seq<Seq<char>>, sep: Seq<char>) -> Seq<char>
    decreases parts.len(),
{
    if parts.len() == 0 {
        Seq::empty()
    } else if parts.len() == 1 {
        parts[0]
    } else {
        join_with(parts.drop_last(), sep) + sep + parts.last()
    }
}

/// Finds the first newline at or after `from`.
fn find_newline(s: &str, from: usize, len: usize) -> (r: Option<usize>)
    requires
        from <= len,
        len == s@.len(),
    ensures
        ({
            let f = find_char(s@.skip(from as int), '\n');
            match r {
                Some(i) => from <= i < len && f == i - from,
                None => f == -1,
            }
        }),
{
    let ghost t = s@.skip(from as int);
    let mut i: usize = from;
    while i < len
        invariant
            from <= i <= len,
            len == s@.len(),
            t == s@.skip(from as int),
            forall|j: int| 0 <= j < i - from ==> t[j] != '\n',
        decreases len - i,
    {
        let c = s.get_char(i);
        assert(t[i - from] == s@[i as int]);
        if c == '\n' {
            proof {
                lemma_find_char(t, '\n');
                if find_char(t, '\n') < 0 {
                    assert(t[i - from] == '\n');
                    assert(false);
                }
                assert(find_char(t, '\n') == i - from) by {
                    let f = find_char(t, '\n');
                    if f < i - from {
                        assert(t[f] != '\n');
                        assert(false);
                    }
                    if f > i - from {
                        assert(t[i - from] != '\n');
                        assert(false);
                    }
                }
            }
            return Some(i);
        }
        i = i + 1;
    }
    proof {
        lemma_find_char(t, '\n');
        if find_char(t, '\n') >= 0 {
            assert(t[find_char(t, '\n')] == '\n');
            assert(false);
        }
    }
    None
}

/// Copies `s[from..to]` and strips one trailing carriage return.
fn line_of(s: &str, from: usize, to: usize) -> (r: String)
    requires
        from <= to <= s@.len(),
    ensures
        r@ == strip_cr(s@.subrange(from as int, to as int)),
{
    let piece = s.substring_char(from, to);
    let mut line = piece.to_owned();
    let ll = line.as_str().unicode_len();
    if ll > 0 {
        if line.as_str().get_char(ll - 1) == '\r' {
            pop_char(&mut line);
        }
    }
    line
}

/// Splits `s` into its lines, as `str::lines` does.
pub fn split_lines_exec(s: &str) -> (r: Vec<String>)
    ensures
        r.deep_view() == split_lines(s@),
{
    let len = s.unicode_len();
    let mut out: Vec<String> = Vec::new();
    let mut p: usize = 0;
    proof {
        assert(s@.skip(0) =~= s@);
    }
    while p < len
        invariant
            p <= len,
            len == s@.len(),
            split_lines(s@) == out.deep_view() + split_lines(s@.skip(p as int)),
        decreases len - p,
    {
        let ghost t = s@.skip(p as int);
        match find_newline(s, p, len) {
            Some(i) => {
                let line = line_of(s, p, i);
                proof {
                    assert(t.take(find_char(t, '\n')) =~= s@.subrange(p as int, i as int));
                    assert(t.skip(find_char(t, '\n') + 1) =~= s@.skip(i + 1));
                    assert(split_lines(t) == seq![strip_cr(
                        s@.subrange(p as int, i as int),
                    )] + split_lines(s@.skip(i + 1)));
                }
                out.push(line);
                proof {
                    assert(out.deep_view() =~= out.deep_view().drop_last().push(line@));
                    assert(out.deep_view().drop_last() + (seq![strip_cr(
                        s@.subrange(p as int, i as int),
                    )] + split_lines(s@.skip(i + 1))) =~= out.deep_view() + split_lines(
                        s@.skip(i + 1),
                    ));
                }
                p = i + 1;
            },
            None => {
                let line = line_of(s, p, len);
                proof {
                    assert(s@.subrange(p as int, len as int) =~= t);
                    assert(split_lines(t) == seq![strip_cr(t)]);
                }
                out.push(line);
                proof {
                    assert(s@.skip(len as int) =~= Seq::<char>::empty());
                    assert(split_lines(s@.skip(len as int)) =~= Seq::<Seq<char>>::empty());
                    assert(out.deep_view() =~= out.deep_view().drop_last().push(line@));
                    assert(out.deep_view().drop_last() + seq![strip_cr(t)] =~= out.deep_view());
                    assert(out.deep_view() + Seq::<Seq<char>>::empty() =~= out.deep_view());
                }
                p = len;
            },
        }
    }
    proof {
        assert(s@.skip(len as int) =~= Seq::<char>::empty());
        assert(split_lines(s@.skip(p as int)) =~= Seq::<Seq<char>>::empty());
        assert(out.deep_view() + Seq::<Seq<char>>::empty() =~= out.deep_view());
    }
    out
}

/// A comma-separated generic-argument list in angle brackets, empty when
/// there are no arguments.
pub open spec fn angle_text(gs: Seq<Seq<char>>) -> Seq<char> {
    if gs.len() == 0 {
        Seq::empty()
    } else {
        "<"@ + join_with(gs, ", "@) + ">"@
    }
}

/// Joins string parts with a separator.
pub fn join_strings(parts: &Vec<String>, sep: &str) -> (r: String)
    ensures
        r@ == join_with(parts.deep_view(), sep@),
{
    let mut out = String::new();
    let mut i: usize = 0;
    proof {
        assert(parts.deep_view().take(0) =~= Seq::<Seq<char>>::empty());
    }
    while i < parts.len()
        invariant
            i <= parts.len(),
            parts.deep_view().len() == parts.len(),
            forall|j: int| 0 <= j < parts.len() ==> parts.deep_view()[j] == parts@[j]@,
            out@ == join_with(parts.deep_view().take(i as int), sep@),
        decreases parts.len() - i,
    {
        if i != 0 {
            out.append(sep);
        }
        out.append(parts[i].as_str());
        proof {
            let pv = parts.deep_view();
            assert(pv.take(i as int + 1).drop_last() =~= pv.take(i as int));
            assert(pv.take(i as int + 1).last() == pv[i as int]);
            if i == 0 {
                assert(join_with(pv.take(1), sep@) == pv[0]);
                assert(out@ == pv[0]);
            }
        }
        i = i + 1;
    }
    proof {
        assert(parts.deep_view().take(parts.len() as int) =~= parts.deep_view());
    }
    out
}

/// Renders a generic-argument list in angle brackets.
pub fn angle_to_text(gs: &Vec<String>) -> (r: String)
    ensures
        r@ == angle_text(gs.deep_view()),
{
    if gs.is_empty() {
        let r = String::new();
        proof {
            assert(gs.deep_view().len() == 0);
        }
        r
    } else {
        let mut out = String::from_str("<");
        let joined = join_strings(gs, ", ");
        out.append(joined.as_str());
        out.append(">");
        proof {
            assert(out@ =~= angle_text(gs.deep_view()));
        }
        out
    }
}

} // verus!
