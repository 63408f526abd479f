use vstd::prelude::*;

use crate::data::{BlockView, DataBlock, DataSchema, FieldView};
use crate::errors::ErrorCode;

verus! {

/// Total row count of a sequence of blocks: the logical result size that a
/// stream delivering those blocks represents.
pub open spec fn total_rows(blocks: Seq<BlockView>) -> int
    decreases blocks.len(),
{
    if blocks.len() <= 0 {
        0
    } else {
        blocks[0].num_rows() + total_rows(blocks.drop_first())
    }
}

/// An ordered, finite, pull-based sequence of `DataBlock`s, ending either in
/// normal completion or in a terminal failure. The consumer drives progress
/// by calling `next`; nothing is produced ahead of demand.
///
/// A stream is consumed at most once: blocks already pulled are gone from
/// `remaining`.
#[derive(Debug)]
pub struct DataBlockStream {
    pub schema: DataSchema,
    pub blocks: Vec<DataBlock>,
    pub pos: usize,
    pub terminal: Option<ErrorCode>,
}

impl DataBlockStream {
    /// The blocks not yet pulled by the consumer.
    pub open spec fn remaining(self) -> Seq<BlockView> {
        self.blocks.deep_view().skip(self.pos as int)
    }

    /// Stream invariant: the cursor is in range and every block satisfies
    /// the block invariant and carries the stream's schema.
    pub open spec fn well_formed(self) -> bool {
        &&& self.pos <= self.blocks@.len()
        &&& forall|i: int|
            0 <= i < self.blocks@.len() ==> (#[trigger] self.blocks@[i])@.well_formed()
                && self.blocks@[i]@.schema == self.schema@
    }

    /// A stream that delivers `blocks` in order and then completes.
    pub fn create(schema: DataSchema, blocks: Vec<DataBlock>) -> (stream: DataBlockStream)
        requires
            forall|i: int|
                0 <= i < blocks@.len() ==> (#[trigger] blocks@[i])@.well_formed()
                    && blocks@[i]@.schema == schema@,
        ensures
            stream.well_formed(),
            stream.schema@ == schema@,
            stream.remaining() =~= blocks.deep_view(),
            stream.terminal is None,
    {
        DataBlockStream { schema, blocks, pos: 0, terminal: None }
    }

    /// A stream that delivers `blocks` in order and then surfaces `error`:
    /// a mid-sequence failure after some valid-but-incomplete results.
    pub fn create_with_failure(schema: DataSchema, blocks: Vec<DataBlock>, error: ErrorCode) -> (stream:
        DataBlockStream)
        requires
            forall|i: int|
                0 <= i < blocks@.len() ==> (#[trigger] blocks@[i])@.well_formed()
                    && blocks@[i]@.schema == schema@,
        ensures
            stream.well_formed(),
            stream.schema@ == schema@,
            stream.remaining() =~= blocks.deep_view(),
            stream.terminal == Some(error),
    {
        DataBlockStream { schema, blocks, pos: 0, terminal: Some(error) }
    }

    /// Pull the next block. Yields `Ok(Some(_))` while blocks remain, then
    /// once exhausted either completes with `Ok(None)` or surfaces the
    /// terminal failure unchanged.
    pub fn next(&mut self) -> (item: Result<Option<DataBlock>, ErrorCode>)
        requires
            old(self).well_formed(),
        ensures
            final(self).well_formed(),
            final(self).schema@ == old(self).schema@,
            final(self).terminal == old(self).terminal,
            old(self).remaining().len() > 0 ==> {
                &&& item matches Ok(opt)
                &&& opt matches Some(block)
                &&& block@ == old(self).remaining()[0]
                &&& final(self).remaining() =~= old(self).remaining().drop_first()
            },
            old(self).remaining().len() == 0 ==> {
                &&& *final(self) == *old(self)
                &&& match old(self).terminal {
                    Some(e) => item == Err::<Option<DataBlock>, ErrorCode>(e),
                    None => item == Ok::<Option<DataBlock>, ErrorCode>(None::<DataBlock>),
                }
            },
    {
        if self.pos < self.blocks.len() {
            let block = self.blocks[self.pos].clone();
            proof {
                assert(block@ == self.blocks.deep_view()[self.pos as int]);
            }
            self.pos = self.pos + 1;
            Ok(Some(block))
        } else {
            match self.terminal {
                Some(e) => Err(e),
                None => Ok(None),
            }
        }
    }

    /// Drain the stream. On completion the collected blocks are, in order,
    /// exactly what remained to be pulled, and the sum of their row counts
    /// equals the logical result size of the stream. A terminal failure is
    /// surfaced unchanged and the blocks pulled before it are dropped:
    /// valid-but-incomplete results.
    pub fn try_collect(&mut self) -> (collected: Result<Vec<DataBlock>, ErrorCode>)
        requires
            old(self).well_formed(),
        ensures
            final(self).well_formed(),
            final(self).remaining().len() == 0,
            match collected {
                Ok(blocks) => {
                    &&& old(self).terminal is None
                    &&& blocks.deep_view() == old(self).remaining()
                    &&& total_rows(blocks.deep_view()) == total_rows(old(self).remaining())
                },
                Err(e) => old(self).terminal == Some(e),
            },
    {
        let mut collected: Vec<DataBlock> = Vec::new();
        loop
            invariant
                self.well_formed(),
                self.terminal == old(self).terminal,
                collected.deep_view() + self.remaining() =~= old(self).remaining(),
            decreases self.remaining().len(),
        {
            match self.next() {
                Ok(Some(block)) => {
                    collected.push(block);
                }
                Ok(None) => {
                    proof {
                        assert(collected.deep_view() =~= old(self).remaining());
                    }
                    return Ok(collected);
                }
                Err(e) => {
                    return Err(e);
                }
            }
        }
    }
}

} // verus!
