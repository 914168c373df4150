use vstd::prelude::*;
use vstd::string::StringExecFns;

use crate::formatter::{at_start, ends_line, ind, Formatter};
use crate::text::{split_lines, split_lines_exec};

verus! {

/// A documentation string, rendered as `///` comment lines.
pub struct Doc(pub String);

/// One rendered comment line: `///`, then a space and the line when the
/// line is not empty, then a newline.
pub open spec fn doc_line_text(l: Seq<char>) -> Seq<char> {
    "///"@ + (if l.len() == 0 {
        Seq::<char>::empty()
    } else {
        " "@ + l
    }) + "\n"@
}

/// The rendered comment lines, in order.
pub open spec fn doc_lines_text(ls: Seq<Seq<char>>) -> Seq<char>
    decreases ls.len(),
{
    if ls.len() == 0 {
        Seq::empty()
    } else {
        doc_lines_text(ls.drop_last()) + doc_line_text(ls.last())
    }
}

/// The full rendering of a documentation string.
pub open spec fn doc_text(s: Seq<char>) -> Seq<char> {
    doc_lines_text(split_lines(s))
}

/// A rendered documentation block is empty or ends in a newline.
pub proof fn lemma_doc_lines_ends(ls: Seq<Seq<char>>)
    ensures
        ends_line(doc_lines_text(ls), true),
    decreases ls.len(),
{
    if ls.len() > 0 {
        lemma_doc_lines_ends(ls.drop_last());
        reveal_strlit("\n");
        assert("\n"@.len() == 1 && "\n"@.last() == '\n');
        let lt = doc_line_text(ls.last());
        assert(lt.last() == '\n');
        assert((doc_lines_text(ls.drop_last()) + lt).last() == '\n');
    }
}

/// The full documentation rendering ends its line or is empty.
pub proof fn lemma_doc_text_ends(s: Seq<char>)
    ensures
        ends_line(doc_text(s), true),
{
    lemma_doc_lines_ends(split_lines(s));
}

impl Clone for Doc {
    fn clone(&self) -> (r: Doc)
        ensures
            r.0@ == self.0@,
    {
        Doc(self.0.clone())
    }
}

impl Doc {
    /// Creates a documentation string.
    pub fn new(doc: &str) -> (r: Doc)
        ensures
            r.0@ == doc@,
    {
        Doc(doc.to_owned())
    }

    /// Gets the inner text.
    pub fn as_inner(&self) -> (r: &String)
        ensures
            *r == self.0,
    {
        &self.0
    }

    /// Gets the inner text mutably.
    pub fn as_inner_mut(&mut self) -> (r: &mut String)
        ensures
            *r == old(self).0,
            final(self).0 == *final(r),
    {
        &mut self.0
    }

    /// The rendered comment block.
    pub fn to_text(&self) -> (r: String)
        ensures
            r@ == doc_text(self.0@),
    {
        let lines = split_lines_exec(self.0.as_str());
        let mut out = String::new();
        let mut i: usize = 0;
        proof {
            assert(lines.deep_view().take(0) =~= Seq::<Seq<char>>::empty());
        }
        while i < lines.len()
            invariant
                i <= lines.len(),
                lines.deep_view().len() == lines.len(),
                forall|j: int| 0 <= j < lines.len() ==> lines.deep_view()[j] == lines@[j]@,
                out@ == doc_lines_text(lines.deep_view().take(i as int)),
            decreases lines.len() - i,
        {
            out.append("///");
            if !lines[i].as_str().is_empty() {
                out.append(" ");
                out.append(lines[i].as_str());
            }
            out.append("\n");
            proof {
                let lv = lines.deep_view();
                assert(lv.take(i as int + 1).drop_last() =~= lv.take(i as int));
                assert(lv.take(i as int + 1).last() == lv[i as int]);
                if lines@[i as int]@.len() == 0 {
                    assert(out@ == doc_lines_text(lv.take(i as int)) + "///"@ + "\n"@);
                    assert(doc_lines_text(lv.take(i as int)) + "///"@ + "\n"@ =~= doc_lines_text(
                        lv.take(i as int),
                    ) + ("///"@ + Seq::<char>::empty() + "\n"@));
                } else {
                    assert(out@ == doc_lines_text(lv.take(i as int)) + "///"@ + " "@
                        + lines@[i as int]@ + "\n"@);
                    assert(doc_lines_text(lv.take(i as int)) + "///"@ + " "@ + lines@[i as int]@
                        + "\n"@ =~= doc_lines_text(lv.take(i as int)) + ("///"@ + (" "@
                        + lines@[i as int]@) + "\n"@));
                }
            }
            i = i + 1;
        }
        proof {
            assert(lines.deep_view().take(lines.len() as int) =~= lines.deep_view());
        }
        out
    }

    /// Writes the comment block through the formatter.
    pub fn fmt(&self, fmt: &mut Formatter)
        requires
            old(fmt).wf(),
        ensures
            final(fmt).wf(),
            final(fmt).depth() == old(fmt).depth(),
            final(fmt).text() == old(fmt).text() + ind(
                doc_text(self.0@),
                at_start(old(fmt).text()),
                old(fmt).depth(),
            ),
    {
        let t = self.to_text();
        fmt.write_str(t.as_str());
    }
}

} // verus!
