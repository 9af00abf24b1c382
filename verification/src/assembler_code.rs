//! A block of generated assembly: a human-readable header plus an ordered
//! run of Hack commands. Blocks only keep the output reviewable; semantically
//! a sequence of blocks is the flat concatenation of their commands, and the
//! contracts speak of that flattening.

use crate::hack;
use vstd::prelude::*;

verus! {

/// One reviewable run of generated Hack commands with an optional header.
#[derive(Debug)]
pub struct AssemblerCodeBlock {
    comment: Option<String>,
    commands: Vec<hack::Command>,
}

impl View for AssemblerCodeBlock {
    type V = Seq<hack::CommandV>;

    closed spec fn view(&self) -> Seq<hack::CommandV> {
        hack::view_of_commands(self.commands@)
    }
}

impl AssemblerCodeBlock {
    /// A block holding commands under a header comment.
    pub fn new(comment: &str, commands: Vec<hack::Command>) -> (r: Self)
        ensures
            r@ == hack::view_of_commands(commands@),
    {
        Self { comment: Some(comment.to_owned()), commands }
    }

    /// A comment-only block introducing the blocks that follow it.
    pub fn new_header_comment(comment: &str) -> (r: Self)
        ensures
            r@ == Seq::<hack::CommandV>::empty(),
    {
        proof {
            assert(hack::view_of_commands(Seq::<hack::Command>::empty())
                =~= Seq::<hack::CommandV>::empty());
        }
        Self { comment: Some(comment.to_owned()), commands: Vec::new() }
    }

    /// The header comment, if the block carries one.
    pub fn comment(&self) -> Option<&String> {
        self.comment.as_ref()
    }

    /// Surrender the commands of the block.
    pub fn into_commands(self) -> (r: Vec<hack::Command>)
        ensures
            hack::view_of_commands(r@) == self@,
    {
        self.commands
    }
}

/// The flat concatenation of the command views of a run of blocks.
pub open spec fn view_of_blocks(blocks: Seq<AssemblerCodeBlock>) -> Seq<hack::CommandV>
    decreases blocks.len(),
{
    if blocks.len() == 0 {
        Seq::empty()
    } else {
        blocks[0]@ + view_of_blocks(blocks.drop_first())
    }
}

/// Flattening distributes over appending one block.
pub proof fn lemma_view_of_blocks_push(blocks: Seq<AssemblerCodeBlock>, b: AssemblerCodeBlock)
    ensures
        view_of_blocks(blocks.push(b)) == view_of_blocks(blocks) + b@,
    decreases blocks.len(),
{
    if blocks.len() == 0 {
        assert(blocks.push(b)[0] == b);
        assert(blocks.push(b).drop_first() =~= Seq::<AssemblerCodeBlock>::empty());
        assert(view_of_blocks(blocks.push(b)) == b@ + view_of_blocks(
            Seq::<AssemblerCodeBlock>::empty(),
        ));
        assert(view_of_blocks(blocks.push(b)) =~= view_of_blocks(blocks) + b@);
    } else {
        assert(blocks.push(b)[0] == blocks[0]);
        assert(blocks.push(b).drop_first() =~= blocks.drop_first().push(b));
        lemma_view_of_blocks_push(blocks.drop_first(), b);
        assert(view_of_blocks(blocks.push(b)) == blocks[0]@ + (view_of_blocks(blocks.drop_first())
            + b@));
        assert(view_of_blocks(blocks.push(b)) =~= view_of_blocks(blocks) + b@);
    }
}

/// Append the commands of every block, in order, onto `out`.
pub fn flatten_blocks(blocks: Vec<AssemblerCodeBlock>, out: &mut Vec<hack::Command>)
    ensures
        hack::view_of_commands(final(out)@) == hack::view_of_commands(old(out)@)
            + view_of_blocks(blocks@),
{
    let ghost all_blocks = blocks@;
    let ghost start = hack::view_of_commands(old(out)@);
    let mut blocks = blocks;
    let mut taken: usize = 0;
    let total: usize = blocks.len();
    proof {
        assert(all_blocks.len() == total);
        assert(all_blocks.subrange(0, 0) =~= Seq::<AssemblerCodeBlock>::empty());
        assert(hack::view_of_commands(out@) =~= start + view_of_blocks(
            all_blocks.subrange(0, 0),
        ));
    }
    while blocks.len() > 0
        invariant
            all_blocks.len() <= usize::MAX,
            taken + blocks@.len() == all_blocks.len(),
            blocks@ =~= all_blocks.subrange(taken as int, all_blocks.len() as int),
            hack::view_of_commands(out@) == start + view_of_blocks(
                all_blocks.subrange(0, taken as int),
            ),
        decreases blocks@.len(),
    {
        let b = blocks.remove(0);
        let ghost out_before = out@;
        let mut cs = b.into_commands();
        out.append(&mut cs);
        taken = taken + 1;
        proof {
            lemma_view_of_blocks_prefix_push(all_blocks, taken as int);
            assert(all_blocks.subrange(taken - 1, all_blocks.len() as int)[0] == b);
            assert(hack::view_of_commands(out@) =~= hack::view_of_commands(out_before) + b@);
            assert(hack::view_of_commands(out@) =~= start + view_of_blocks(
                all_blocks.subrange(0, taken as int),
            ));
        }
    }
    proof {
        assert(all_blocks.subrange(0, all_blocks.len() as int) =~= all_blocks);
    }
}

/// A prefix one longer flattens to the shorter prefix plus the next block.
proof fn lemma_view_of_blocks_prefix_push(blocks: Seq<AssemblerCodeBlock>, n: int)
    requires
        0 < n <= blocks.len(),
    ensures
        view_of_blocks(blocks.subrange(0, n)) == view_of_blocks(blocks.subrange(0, n - 1))
            + blocks[n - 1]@,
{
    assert(blocks.subrange(0, n) =~= blocks.subrange(0, n - 1).push(blocks[n - 1]));
    lemma_view_of_blocks_push(blocks.subrange(0, n - 1), blocks[n - 1]);
}

} // verus!
