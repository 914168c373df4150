use vstd::prelude::*;
use vstd::string::StringExecFns;

use crate::formatter::{
    at_start, block_region_text, ends_line, ind, lemma_block_region, lemma_ind_concat,
    lemma_ind_ends, lemma_ind_one, open_text, Formatter,
};

verus! {

/// One element of a code body: a verbatim line, or a nested block.
pub enum Body {
    /// A single line, written verbatim and terminated.
    Text(String),
    /// A nested, indented `{ ... }` block.
    Block(Block),
}

/// A code block: the lines and nested blocks between one pair of braces.
pub struct Block {
    /// The block's contents, in order.
    pub body: Vec<Body>,
}

/// The rendered form of one body element, which always ends its line.
pub open spec fn body_item_text(b: Body) -> Seq<char>
    decreases b,
{
    match b {
        Body::Text(s) => s@ + seq!['\n'],
        Body::Block(bl) => block_text(bl, true),
    }
}

/// The first `i` body elements, rendered in order.
pub open spec fn body_list_text(items: Seq<Body>, i: int) -> Seq<char>
    decreases items, i,
{
    if 0 < i <= items.len() {
        body_list_text(items, i - 1) + body_item_text(items[i - 1])
    } else {
        Seq::empty()
    }
}

/// The rendered block: a brace-delimited region around its body, opened
/// with a separating space when the cursor sits mid-line (`a` is false).
pub open spec fn block_text(bl: Block, a: bool) -> Seq<char>
    decreases bl,
{
    block_region_text(a, body_list_text(bl.body@, bl.body@.len() as int))
}

/// A rendered body list is empty or ends in a newline.
pub proof fn lemma_body_list_ends(items: Seq<Body>, i: int)
    ensures
        ends_line(body_list_text(items, i), true),
    decreases i,
{
    if 0 < i <= items.len() {
        lemma_body_list_ends(items, i - 1);
        let pre = body_list_text(items, i - 1);
        let it = body_item_text(items[i - 1]);
        match items[i - 1] {
            Body::Text(s) => {
                assert(it.last() == '\n');
                assert((pre + it).last() == '\n');
            },
            Body::Block(bl) => {
                assert(it =~= open_text(true) + ind(
                    body_list_text(bl.body@, bl.body@.len() as int),
                    true,
                    1,
                ) + seq!['}'] + seq!['\n']);
                assert(it.last() == '\n');
                assert((pre + it).last() == '\n');
            },
        }
    }
}

impl Default for Block {
    /// An empty block.
    fn default() -> (r: Block)
        ensures
            r.body@.len() == 0,
    {
        Block::new()
    }
}

impl Body {
    /// Writes this body element, starting at a line start.
    pub fn fmt(&self, fmt: &mut Formatter)
        requires
            old(fmt).wf(),
            at_start(old(fmt).text()),
        ensures
            final(fmt).wf(),
            final(fmt).depth() == old(fmt).depth(),
            final(fmt).text() == old(fmt).text() + ind(
                body_item_text(*self),
                true,
                old(fmt).depth(),
            ),
        decreases *self,
    {
        match self {
            Body::Text(s) => {
                let mut line = s.clone();
                line.append("\n");
                fmt.write_str(line.as_str());
                proof {
                    reveal_strlit("\n");
                    assert(line@ =~= s@ + seq!['\n']);
                }
            },
            Body::Block(bl) => {
                bl.fmt(fmt);
            },
        }
    }
}

impl Block {
    /// Creates an empty code block.
    pub fn new() -> (r: Block)
        ensures
            r.body@.len() == 0,
    {
        Block { body: Vec::new() }
    }

    /// Gets the body of the block.
    pub fn body(&self) -> (r: &Vec<Body>)
        ensures
            *r == self.body,
    {
        &self.body
    }

    /// Sets the body of the block.
    pub fn set_body(&mut self, body: Vec<Body>) -> (r: &mut Block)
        ensures
            r.body == body,
            *final(self) == *final(r),
    {
        self.body = body;
        self
    }

    /// Sets the body of the block.
    pub fn with_body(self, body: Vec<Body>) -> (r: Block)
        ensures
            r.body == body,
    {
        let mut s = self;
        s.body = body;
        s
    }

    /// Gets the body of the block mutably.
    pub fn body_mut(&mut self) -> (r: &mut Vec<Body>)
        ensures
            *r == old(self).body,
            final(self).body == *final(r),
    {
        &mut self.body
    }

    /// Pushes a line onto the block.
    pub fn push_line(&mut self, line: &str) -> (r: &mut Block)
        ensures
            r.body@.len() == old(self).body@.len() + 1,
            r.body@.last() matches Body::Text(s) && s@ == line@,
            r.body@.drop_last() == old(self).body@,
            *final(self) == *final(r),
    {
        self.body.push(Body::Text(line.to_owned()));
        proof {
            assert(self.body@.drop_last() =~= old(self).body@);
        }
        self
    }

    /// Pushes a line onto the block.
    pub fn with_line(self, line: &str) -> (r: Block)
        ensures
            r.body@.len() == self.body@.len() + 1,
            r.body@.last() matches Body::Text(s) && s@ == line@,
            r.body@.drop_last() == self.body@,
    {
        let mut s = self;
        s.body.push(Body::Text(line.to_owned()));
        proof {
            assert(s.body@.drop_last() =~= self.body@);
        }
        s
    }

    /// Pushes a nested block onto this block.
    pub fn push_block(&mut self, block: Block) -> (r: &mut Block)
        ensures
            r.body@ == old(self).body@.push(Body::Block(block)),
            *final(self) == *final(r),
    {
        self.body.push(Body::Block(block));
        self
    }

    /// Pushes a nested block onto this block.
    pub fn with_block(self, block: Block) -> (r: Block)
        ensures
            r.body@ == self.body@.push(Body::Block(block)),
    {
        let mut s = self;
        s.body.push(Body::Block(block));
        s
    }

    /// Writes the block: a space when mid-line, the opening brace, the body
    /// one level deeper, and the closing brace on its own line.
    pub fn fmt(&self, fmt: &mut Formatter)
        requires
            old(fmt).wf(),
        ensures
            final(fmt).wf(),
            final(fmt).depth() == old(fmt).depth(),
            final(fmt).text() == old(fmt).text() + ind(
                block_text(*self, at_start(old(fmt).text())),
                at_start(old(fmt).text()),
                old(fmt).depth(),
            ),
        decreases *self,
    {
        fmt_body_block(&self.body, fmt);
    }
}

/// Writes a brace-delimited block holding the given body elements.
pub fn fmt_body_block(items: &Vec<Body>, fmt: &mut Formatter)
    requires
        old(fmt).wf(),
    ensures
        final(fmt).wf(),
        final(fmt).depth() == old(fmt).depth(),
        final(fmt).text() == old(fmt).text() + ind(
            block_region_text(
                at_start(old(fmt).text()),
                body_list_text(items@, items@.len() as int),
            ),
            at_start(old(fmt).text()),
            old(fmt).depth(),
        ),
    decreases items@,
{
    let ghost orig = fmt.text();
    let ghost a0 = at_start(orig);
    let ghost n = fmt.depth();
    let ghost il = items@;
    fmt.open_block();
    let ghost t_open = fmt.text();
    proof {
        lemma_ind_ends(open_text(a0), a0, n);
        assert(open_text(a0).last() == '\n');
        assert(t_open.last() == ind(open_text(a0), a0, n).last());
        assert(body_list_text(il, 0) =~= Seq::<char>::empty());
        assert(t_open + Seq::<char>::empty() =~= t_open);
    }
    let mut i: usize = 0;
    while i < items.len()
        invariant
            i <= il.len(),
            il == items@,
            fmt.wf(),
            fmt.depth() == n + 1,
            fmt.text() == t_open + ind(body_list_text(il, i as int), true, n + 1),
            at_start(t_open),
        decreases il.len() - i,
    {
        proof {
            lemma_body_list_ends(il, i as int);
            let done = ind(body_list_text(il, i as int), true, n + 1);
            if body_list_text(il, i as int).len() == 0 {
                assert(done =~= Seq::<char>::empty());
                assert(fmt.text() =~= t_open);
            } else {
                lemma_ind_ends(body_list_text(il, i as int), true, n + 1);
                assert(fmt.text().last() == done.last());
            }
            assert(at_start(fmt.text()));
        }
        items[i].fmt(fmt);
        proof {
            lemma_ind_concat(
                body_list_text(il, i as int),
                body_item_text(il[i as int]),
                true,
                n + 1,
            );
            assert(fmt.text() =~= t_open + ind(body_list_text(il, i as int + 1), true, n + 1));
        }
        i = i + 1;
    }
    let ghost body_full = body_list_text(il, il.len() as int);
    proof {
        lemma_body_list_ends(il, il.len() as int);
        if body_full.len() == 0 {
            assert(ind(body_full, true, (n + 1) as nat) =~= Seq::<char>::empty());
            assert(fmt.text() =~= t_open);
        } else {
            lemma_ind_ends(body_full, true, n + 1);
            assert(fmt.text().last() == ind(body_full, true, (n + 1) as nat).last());
        }
        assert(at_start(fmt.text()));
    }
    fmt.close_block();
    proof {
        assert(ind(seq!['}'], true, n).last() == '}') by {
            lemma_ind_one('}', true, n);
        }
        assert(fmt.text().last() == '}');
        assert(!at_start(fmt.text()));
    }
    fmt.write_str("\n");
    proof {
        reveal_strlit("\n");
        lemma_ind_one('\n', false, n);
        assert("\n"@ =~= seq!['\n']);
        lemma_block_region(a0, body_full, n);
        assert(fmt.text() =~= orig + ind(block_region_text(a0, body_full), a0, n));
    }
}

} // verus!
