//! Where the pieces of a concatenation lie in the whole.

use vstd::prelude::*;

verus! {

/// In the concatenation of `blocks`, the block at `index` lies right behind
/// the blocks before it, whole and unchanged, and the next block starts where
/// it ends.
pub proof fn lemma_flatten_block<A>(blocks: Seq<Seq<A>>, index: int)
    requires
        0 <= index < blocks.len(),
    ensures
        ({
            let start = blocks.subrange(0, index).flatten().len() as int;
            let block = blocks[index];
            &&& start + block.len() <= blocks.flatten().len()
            &&& blocks.flatten().subrange(start, start + block.len()) == block
            &&& blocks.subrange(0, index + 1).flatten().len() == start + block.len()
        }),
{
    let done = blocks.subrange(0, index);
    let upto = blocks.subrange(0, index + 1);
    let rest = blocks.subrange(index + 1, blocks.len() as int);
    let start = done.flatten().len() as int;
    let block = blocks[index];
    assert(upto =~= done.push(block));
    done.lemma_flatten_push(block);
    assert(blocks =~= upto + rest);
    vstd::seq_lib::lemma_flatten_concat(upto, rest);
    assert(blocks.flatten().subrange(start, start + block.len()) =~= block);
}

} // verus!
