use vstd::prelude::*;
use vstd::string::StringExecFns;
use vstd::string::StrSliceExecFns;

verus! {

/// Number of spaces per nesting level.
pub open spec fn indent_width() -> nat {
    4
}

/// `n` spaces.
pub open spec fn spaces(n: nat) -> Seq<char> {
    Seq::new(n, |i: int| ' ')
}

/// True when the next character written would begin a new output line:
/// the buffer is empty or ends in a newline.
pub open spec fn at_start(s: Seq<char>) -> bool {
    s.len() == 0 || s.last() == '\n'
}

/// The text that lands in the buffer when `s` is written at nesting depth
/// `n`, starting at line-start state `a`: the first character of every line,
/// unless that character is itself a newline, is preceded by `4*n` spaces.
pub open spec fn ind(s: Seq<char>, a: bool, n: nat) -> Seq<char>
    decreases s.len(),
{
    if s.len() == 0 {
        Seq::empty()
    } else if s.first() == '\n' {
        seq!['\n'] + ind(s.drop_first(), true, n)
    } else if a {
        spaces(indent_width() * n) + seq![s.first()] + ind(s.drop_first(), false, n)
    } else {
        seq![s.first()] + ind(s.drop_first(), false, n)
    }
}

/// Line-start state after writing `s` starting from state `a`.
pub open spec fn ends_line(s: Seq<char>, a: bool) -> bool {
    if s.len() == 0 {
        a
    } else {
        s.last() == '\n'
    }
}

/// The text opening a block: a separating space first when the cursor sits
/// mid-line, so that `{` attaches to the preceding token.
pub open spec fn open_text(a: bool) -> Seq<char> {
    if a {
        seq!['{', '\n']
    } else {
        seq![' ', '{', '\n']
    }
}

/// The final document: the buffer with a single trailing newline removed.
pub open spec fn trimmed(s: Seq<char>) -> Seq<char> {
    if s.len() > 0 && s.last() == '\n' {
        s.drop_last()
    } else {
        s
    }
}

/// Writing one character.
pub proof fn lemma_ind_one(c: char, a: bool, n: nat)
    ensures
        ind(seq![c], a, n) == if c == '\n' {
            seq!['\n']
        } else if a {
            spaces(indent_width() * n).push(c)
        } else {
            seq![c]
        },
{
    let s = seq![c];
    assert(s.drop_first() =~= Seq::<char>::empty());
    assert(ind(s.drop_first(), true, n) =~= Seq::<char>::empty());
    assert(ind(s.drop_first(), false, n) =~= Seq::<char>::empty());
    if c == '\n' {
        assert(seq!['\n'] + Seq::<char>::empty() =~= seq!['\n']);
    } else if a {
        assert(spaces(indent_width() * n) + seq![c] + Seq::<char>::empty() =~= spaces(
            indent_width() * n,
        ).push(c));
    } else {
        assert(seq![c] + Seq::<char>::empty() =~= seq![c]);
    }
}

/// Writing `s1` and then `s2` is writing their concatenation.
pub proof fn lemma_ind_concat(s1: Seq<char>, s2: Seq<char>, a: bool, n: nat)
    ensures
        ind(s1 + s2, a, n) == ind(s1, a, n) + ind(s2, ends_line(s1, a), n),
    decreases s1.len(),
{
    if s1.len() == 0 {
        assert(s1 + s2 =~= s2);
        assert(Seq::<char>::empty() + ind(s2, a, n) =~= ind(s2, a, n));
    } else {
        let c = s1.first();
        let t1 = s1.drop_first();
        assert((s1 + s2).first() == c);
        assert((s1 + s2).drop_first() =~= t1 + s2);
        assert(ends_line(t1, if c == '\n' {
            true
        } else {
            false
        }) == ends_line(s1, a));
        if c == '\n' {
            lemma_ind_concat(t1, s2, true, n);
            assert(seq!['\n'] + (ind(t1, true, n) + ind(s2, ends_line(s1, a), n)) =~= (seq!['\n']
                + ind(t1, true, n)) + ind(s2, ends_line(s1, a), n));
        } else if a {
            lemma_ind_concat(t1, s2, false, n);
            assert(spaces(indent_width() * n) + seq![c] + (ind(t1, false, n) + ind(
                s2,
                ends_line(s1, a),
                n,
            )) =~= (spaces(indent_width() * n) + seq![c] + ind(t1, false, n)) + ind(
                s2,
                ends_line(s1, a),
                n,
            ));
        } else {
            lemma_ind_concat(t1, s2, false, n);
            assert(seq![c] + (ind(t1, false, n) + ind(s2, ends_line(s1, a), n)) =~= (seq![c] + ind(
                t1,
                false,
                n,
            )) + ind(s2, ends_line(s1, a), n));
        }
    }
}

/// At depth zero the text is written verbatim.
pub proof fn lemma_ind_zero(s: Seq<char>, a: bool)
    ensures
        ind(s, a, 0) == s,
    decreases s.len(),
{
    if s.len() == 0 {
        assert(ind(s, a, 0) =~= s);
    } else {
        let c = s.first();
        lemma_ind_zero(s.drop_first(), c == '\n' || !a && false);
        if c == '\n' {
            lemma_ind_zero(s.drop_first(), true);
            assert(seq!['\n'] + s.drop_first() =~= s);
        } else if a {
            lemma_ind_zero(s.drop_first(), false);
            assert(spaces(0) + seq![c] + s.drop_first() =~= s);
        } else {
            lemma_ind_zero(s.drop_first(), false);
            assert(seq![c] + s.drop_first() =~= s);
        }
    }
}

/// The written text ends at a line start exactly when the source does.
pub proof fn lemma_ind_ends(s: Seq<char>, a: bool, n: nat)
    ensures
        s.len() == 0 ==> ind(s, a, n) == Seq::<char>::empty(),
        s.len() > 0 ==> ind(s, a, n).len() > 0 && (ind(s, a, n).last() == '\n' <==> s.last()
            == '\n'),
    decreases s.len(),
{
    if s.len() > 0 {
        let c = s.first();
        let t = s.drop_first();
        lemma_ind_ends(t, c == '\n', n);
        lemma_ind_ends(t, false, n);
        if t.len() == 0 {
            assert(s.last() == c);
        } else {
            assert(s.last() == t.last());
        }
    }
}

/// Writing an all-space run at a line start: the indentation prefix comes
/// first, then the spaces, and the cursor is left mid-line.
proof fn lemma_ind_spaces(k: nat, n: nat)
    requires
        k > 0,
    ensures
        ind(spaces(k), true, n) == spaces(indent_width() * n) + spaces(k),
        ind(spaces(k), false, n) == spaces(k),
    decreases k,
{
    let s = spaces(k);
    assert(s.first() == ' ');
    if k == 1 {
        assert(s.drop_first() =~= Seq::<char>::empty());
        assert(ind(s.drop_first(), false, n) =~= Seq::<char>::empty());
        assert(spaces(indent_width() * n) + seq![' '] + Seq::<char>::empty() =~= spaces(
            indent_width() * n,
        ) + spaces(1));
        assert(seq![' '] + Seq::<char>::empty() =~= spaces(1));
    } else {
        assert(s.drop_first() =~= spaces((k - 1) as nat));
        lemma_ind_spaces((k - 1) as nat, n);
        assert(spaces(indent_width() * n) + seq![' '] + spaces((k - 1) as nat) =~= spaces(
            indent_width() * n,
        ) + spaces(k));
        assert(seq![' '] + spaces((k - 1) as nat) =~= spaces(k));
    }
}

/// Writing at depth `d` is writing the once-indented text at depth `d - 1`:
/// each additional nesting level prefixes four more spaces to every line that
/// has a character of its own.
pub proof fn lemma_ind_shift(s: Seq<char>, a: bool, d: nat)
    requires
        d >= 1,
    ensures
        ind(s, a, d) == ind(ind(s, a, 1), a, (d - 1) as nat),
    decreases s.len(),
{
    let m = (d - 1) as nat;
    if s.len() == 0 {
    } else {
        let c = s.first();
        let t = s.drop_first();
        if c == '\n' {
            lemma_ind_shift(t, true, d);
            lemma_ind_concat(seq!['\n'], ind(t, true, 1), a, m);
            lemma_ind_one('\n', a, m);
            assert(seq!['\n'] + ind(t, true, 1) =~= ind(s, a, 1));
        } else if a {
            lemma_ind_shift(t, false, d);
            // ind(s, a, 1) == spaces(4) + [c] + ind(t, false, 1)
            let tail1 = seq![c] + ind(t, false, 1);
            assert(ind(s, a, 1) =~= spaces(indent_width()) + tail1);
            lemma_ind_concat(spaces(indent_width()), tail1, true, m);
            lemma_ind_spaces(indent_width(), m);
            assert(ends_line(spaces(indent_width()), true) == false);
            lemma_ind_concat(seq![c], ind(t, false, 1), false, m);
            lemma_ind_one(c, false, m);
            assert(ind(tail1, false, m) =~= seq![c] + ind(ind(t, false, 1), false, m));
            assert(spaces(indent_width() * m) + spaces(indent_width()) =~= spaces(
                indent_width() * d,
            ));
            assert((spaces(indent_width() * m) + spaces(indent_width())) + (seq![c] + ind(
                ind(t, false, 1),
                false,
                m,
            )) =~= spaces(indent_width() * d) + seq![c] + ind(t, false, d));
        } else {
            lemma_ind_shift(t, false, d);
            lemma_ind_concat(seq![c], ind(t, false, 1), false, m);
            lemma_ind_one(c, false, m);
            assert(seq![c] + ind(t, false, 1) =~= ind(s, a, 1));
            assert(seq![c] + ind(ind(t, false, 1), false, m) =~= ind(s, a, d));
        }
    }
}

/// Line-ending texts concatenate to a line-ending text.
pub proof fn lemma_ends_concat(a: Seq<char>, b: Seq<char>)
    requires
        ends_line(a, true),
        ends_line(b, true),
    ensures
        ends_line(a + b, true),
{
    if b.len() == 0 {
        assert(a + b =~= a);
    } else {
        assert((a + b).last() == b.last());
    }
}

/// The flat text of a whole block region, relative to the depth at which
/// the block is opened: the opener, the body shifted one level in, the
/// closing brace and its line terminator.
pub open spec fn block_region_text(a: bool, body: Seq<char>) -> Seq<char> {
    open_text(a) + ind(body, true, 1) + seq!['}'] + seq!['\n']
}

/// Writing a block region at depth `n` is: the opener at `n`, the body at
/// `n + 1`, the closing brace back at `n`, and a bare newline.
pub proof fn lemma_block_region(a: bool, body: Seq<char>, n: nat)
    requires
        ends_line(body, true),
    ensures
        ind(block_region_text(a, body), a, n) == ind(open_text(a), a, n) + ind(body, true, n + 1)
            + ind(seq!['}'], true, n) + seq!['\n'],
{
    let p1 = open_text(a);
    let p2 = ind(body, true, 1);
    let p3 = seq!['}'];
    let p4 = seq!['\n'];
    assert(block_region_text(a, body) =~= p1 + (p2 + (p3 + p4)));
    lemma_ind_concat(p1, p2 + (p3 + p4), a, n);
    assert(ends_line(p1, a));
    lemma_ind_concat(p2, p3 + p4, true, n);
    if body.len() == 0 {
        assert(p2 =~= Seq::<char>::empty());
        assert(ends_line(p2, true));
    } else {
        lemma_ind_ends(body, true, 1);
        assert(ends_line(p2, true));
    }
    lemma_ind_concat(p3, p4, true, n);
    assert(ends_line(p3, true) == false);
    lemma_ind_one('\n', false, n);
    lemma_ind_shift(body, true, n + 1);
    assert(ind(p1, a, n) + (ind(p2, true, n) + (ind(p3, true, n) + p4)) =~= ind(p1, a, n) + ind(
        body,
        true,
        n + 1,
    ) + ind(p3, true, n) + p4);
}

/// As `lemma_block_region`, but for a body that may end mid-line: the
/// closing brace then attaches to the body's last line.
pub proof fn lemma_block_region_any(a: bool, body: Seq<char>, n: nat)
    ensures
        ind(block_region_text(a, body), a, n) == ind(open_text(a), a, n) + ind(body, true, n + 1)
            + ind(seq!['}'], ends_line(body, true), n) + seq!['\n'],
{
    let p1 = open_text(a);
    let p2 = ind(body, true, 1);
    let p3 = seq!['}'];
    let p4 = seq!['\n'];
    assert(block_region_text(a, body) =~= p1 + (p2 + (p3 + p4)));
    lemma_ind_concat(p1, p2 + (p3 + p4), a, n);
    assert(ends_line(p1, a));
    lemma_ind_concat(p2, p3 + p4, true, n);
    if body.len() == 0 {
        assert(p2 =~= Seq::<char>::empty());
        assert(ends_line(p2, true) == ends_line(body, true));
    } else {
        lemma_ind_ends(body, true, 1);
        assert(ends_line(p2, true) == ends_line(body, true));
    }
    lemma_ind_concat(p3, p4, ends_line(body, true), n);
    assert(ends_line(p3, ends_line(body, true)) == false);
    lemma_ind_one('\n', false, n);
    lemma_ind_shift(body, true, n + 1);
    assert(ind(p1, a, n) + (ind(p2, true, n) + (ind(p3, ends_line(body, true), n) + p4)) =~= ind(
        p1,
        a,
        n,
    ) + ind(body, true, n + 1) + ind(p3, ends_line(body, true), n) + p4);
}

/// Appends one character. Relies on `String::push`.
#[verifier::external_body]
pub(crate) fn push_char(s: &mut String, c: char)
    ensures
        final(s)@ == old(s)@.push(c),
{
    s.push(c);
}

/// Removes the last character, if any. Relies on `String::pop`.
#[verifier::external_body]
pub(crate) fn pop_char(s: &mut String) -> (r: Option<char>)
    ensures
        old(s)@.len() == 0 ==> final(s)@ == old(s)@ && r is None,
        old(s)@.len() > 0 ==> final(s)@ == old(s)@.drop_last() && r == Some(old(s)@.last()),
{
    s.pop()
}

/// Keeps the first `n` bytes. Relies on `String::truncate`; on an ASCII
/// string the first `n` bytes are the first `n` characters.
#[verifier::external_body]
fn truncate_ascii(s: &mut String, n: usize)
    requires
        vstd::utf8::is_ascii_chars(old(s)@),
        n <= old(s)@.len(),
    ensures
        final(s)@ == old(s)@.take(n as int),
{
    s.truncate(n);
}

/// The indentation-tracking text sink: a growable buffer, the current
/// nesting depth, and whether the cursor sits at the start of a line.
pub struct Formatter {
    out: String,
    prefix: String,
    at_line_start: bool,
    level: Ghost<nat>,
}

impl Formatter {
    /// The text accumulated so far.
    pub closed spec fn text(&self) -> Seq<char> {
        self.out@
    }

    /// The current nesting depth.
    pub closed spec fn depth(&self) -> nat {
        self.level@
    }

    /// The internal invariant: the cached line-start flag agrees with the
    /// buffer, and the cached prefix holds four spaces per nesting level.
    pub closed spec fn wf(&self) -> bool {
        &&& self.at_line_start == at_start(self.out@)
        &&& self.prefix@ == spaces(indent_width() * self.level@)
    }

    /// Creates an empty formatter at depth zero.
    pub fn new() -> (f: Formatter)
        ensures
            f.wf(),
            f.text() == Seq::<char>::empty(),
            f.depth() == 0,
    {
        let f = Formatter {
            out: String::new(),
            prefix: String::new(),
            at_line_start: true,
            level: Ghost(0),
        };
        proof {
            assert(f.prefix@ =~= spaces(0));
        }
        f
    }

    /// True when the next character written would begin a new line.
    pub fn is_start_of_line(&self) -> (r: bool)
        requires
            self.wf(),
        ensures
            r == at_start(self.text()),
    {
        self.at_line_start
    }

    /// Appends `s`, emitting the indentation prefix in front of the first
    /// character of every line, unless that character is itself a newline.
    pub fn write_str(&mut self, s: &str)
        requires
            old(self).wf(),
        ensures
            final(self).wf(),
            final(self).depth() == old(self).depth(),
            final(self).text() == old(self).text() + ind(
                s@,
                at_start(old(self).text()),
                old(self).depth(),
            ),
    {
        let ghost orig = self.out@;
        let ghost a0 = at_start(orig);
        let ghost n = self.level@;
        let l: usize = s.unicode_len();
        let mut i: usize = 0;
        proof {
            assert(s@.take(0) =~= Seq::<char>::empty());
            assert(orig + Seq::<char>::empty() =~= orig);
        }
        while i < l
            invariant
                i <= l,
                l == s@.len(),
                a0 == at_start(orig),
                self.wf(),
                self.level@ == n,
                self.prefix@ == spaces(indent_width() * n),
                self.out@ == orig + ind(s@.take(i as int), a0, n),
            decreases l - i,
        {
            let ghost done = s@.take(i as int);
            let ghost cur = self.out@;
            let c = s.get_char(i);
            proof {
                lemma_ind_ends(done, a0, n);
                if done.len() == 0 {
                    assert(ind(done, a0, n) =~= Seq::<char>::empty());
                    assert(cur =~= orig);
                    assert(cur == orig);
                    assert(at_start(cur) == a0);
                } else {
                    assert(ind(done, a0, n).len() > 0);
                    assert(cur.last() == ind(done, a0, n).last());
                    assert(at_start(cur) == ends_line(done, a0));
                }
            }
            if c == '\n' {
                push_char(&mut self.out, '\n');
                self.at_line_start = true;
            } else {
                if self.at_line_start {
                    self.out.append(self.prefix.as_str());
                }
                push_char(&mut self.out, c);
                self.at_line_start = false;
            }
            proof {
                let stepped = s@.take(i as int + 1);
                assert(stepped =~= done + seq![c]);
                lemma_ind_concat(done, seq![c], a0, n);
                lemma_ind_one(c, ends_line(done, a0), n);
                if c == '\n' {
                    assert(self.out@ =~= orig + ind(stepped, a0, n));
                } else if ends_line(done, a0) {
                    assert(cur + spaces(indent_width() * n) + seq![c] =~= orig + (ind(done, a0, n)
                        + spaces(indent_width() * n).push(c)));
                    assert(self.out@ =~= orig + ind(stepped, a0, n));
                } else {
                    assert(self.out@ =~= orig + ind(stepped, a0, n));
                }
                assert(self.out@.len() > 0 && self.out@.last() == if c == '\n' {
                    '\n'
                } else {
                    c
                });
            }
            i = i + 1;
        }
        proof {
            assert(s@.take(l as int) =~= s@);
        }
    }

    /// Opens a `{ ... }` block: attaches `{` to the current line (after a
    /// separating space when mid-line), ends the line, and goes one level
    /// deeper.
    pub fn open_block(&mut self)
        requires
            old(self).wf(),
        ensures
            final(self).wf(),
            final(self).depth() == old(self).depth() + 1,
            final(self).text() == old(self).text() + ind(
                open_text(at_start(old(self).text())),
                at_start(old(self).text()),
                old(self).depth(),
            ),
    {
        let ghost orig = self.out@;
        let ghost a0 = at_start(orig);
        let ghost n = self.level@;
        if !self.is_start_of_line() {
            self.write_str(" ");
            proof {
                reveal_strlit(" ");
                assert(" "@ =~= seq![' ']);
                lemma_ind_ends(" "@, false, n);
                assert(" "@.last() == ' ');
                assert(self.out@.last() == ind(" "@, false, n).last());
                assert(at_start(self.out@) == false);
            }
        }
        self.write_str("{\n");
        proof {
            reveal_strlit(" ");
            reveal_strlit("{\n");
            if !a0 {
                let t1 = orig + ind(" "@, false, n);
                lemma_ind_concat(" "@, "{\n"@, false, n);
                assert(" "@ + "{\n"@ =~= open_text(false));
                assert(ends_line(" "@, false) == false);
                assert(t1 + ind("{\n"@, false, n) =~= orig + (ind(" "@, false, n) + ind(
                    "{\n"@,
                    false,
                    n,
                )));
                assert(self.out@ == orig + ind(open_text(a0), a0, n));
            } else {
                assert("{\n"@ =~= open_text(true));
            }
        }
        self.prefix.append("    ");
        proof {
            reveal_strlit("    ");
            assert("    "@ =~= spaces(indent_width()));
            assert(spaces(indent_width() * n) + spaces(indent_width()) =~= spaces(
                indent_width() * (n + 1),
            ));
        }
        self.level = Ghost(self.level@ + 1);
    }

    /// Closes a block: returns one level up and writes the `}` at the outer
    /// depth. The caller appends its own line terminator.
    pub fn close_block(&mut self)
        requires
            old(self).wf(),
            old(self).depth() >= 1,
        ensures
            final(self).wf(),
            final(self).depth() == old(self).depth() - 1,
            final(self).text() == old(self).text() + ind(
                seq!['}'],
                at_start(old(self).text()),
                (old(self).depth() - 1) as nat,
            ),
    {
        let ghost n = self.level@;
        proof {
            assert(self.prefix@.len() == indent_width() * n);
            assert(forall|i: int|
                0 <= i < self.prefix@.len() ==> '\0' <= #[trigger] self.prefix@[i] <= '\u{7f}');
        }
        let pl: usize = self.prefix.as_str().unicode_len();
        let keep: usize = pl - 4;
        truncate_ascii(&mut self.prefix, keep);
        proof {
            assert(spaces(indent_width() * n).take(keep as int) =~= spaces(
                indent_width() * ((n - 1) as nat),
            ));
        }
        self.level = Ghost((self.level@ - 1) as nat);
        self.write_str("}");
        proof {
            reveal_strlit("}");
            assert("}"@ =~= seq!['}']);
        }
    }

    /// Consumes the formatter and returns the document text: the buffer
    /// with a single trailing newline, if any, removed.
    pub fn finish(self) -> (r: String)
        requires
            self.wf(),
        ensures
            r@ == trimmed(self.text()),
    {
        let Formatter { out, prefix: _, at_line_start, level: _ } = self;
        let mut out = out;
        if at_line_start && !out.as_str().is_empty() {
            pop_char(&mut out);
        }
        out
    }
}

} // verus!
