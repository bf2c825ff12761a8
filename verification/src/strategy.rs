use crate::batch::{array_in_region, block_ok, Batch, RawBlock};
use crate::error::Error;
use crate::mmap_iter::MmapChunkIter;
use vstd::prelude::*;

verus! {

/// A reader that was handed its batches already decoded — the shape a
/// streaming (non-mapping) decode takes once the byte-stream work, which this
/// layer cannot hold, has run. Forward-only and single-pass, like the mapped
/// reader.
pub struct StreamingBatches {
    pub batches: Vec<Batch>,
}

impl StreamingBatches {
    pub fn next_batch(&mut self) -> (r: Option<Batch>)
        ensures
            old(self).batches@.len() == 0 ==> r is None && final(self).batches@ == old(
                self,
            ).batches@,
            old(self).batches@.len() > 0 ==> (r matches Some(b) && {
                &&& b == old(self).batches@[0]
                &&& final(self).batches@ == old(self).batches@.skip(1)
            }),
    {
        if self.batches.len() == 0 {
            None
        } else {
            let b = self.batches.remove(0);
            proof {
                assert(self.batches@ =~= old(self).batches@.skip(1));
            }
            Some(b)
        }
    }
}

/// The one capability the materialization pipeline needs of any reader:
/// produce the next batch or the end of the sequence. Two concrete
/// strategies provide it — the memory-mapped reader and a streaming decode —
/// and which one runs is a runtime choice.
pub enum ReaderStrategy {
    MemoryMapped(MmapChunkIter),
    Streaming(StreamingBatches),
}

impl ReaderStrategy {
    /// Draws the next batch from whichever strategy is in force. The decode
    /// outcome is consumed only by the memory-mapped strategy, which is
    /// handed its blocks one at a time; a streaming reader's batches were
    /// decoded when its stream was read.
    pub fn next_record_batch(self, decoded: Option<RawBlock>) -> (r: (
        ReaderStrategy,
        Result<Option<Batch>, Error>,
    ))
        requires
            self matches ReaderStrategy::MemoryMapped(it) ==> it.wf(),
        ensures
            self matches ReaderStrategy::MemoryMapped(it0) ==> {
                &&& r.0 matches ReaderStrategy::MemoryMapped(it1)
                &&& it1.wf()
                &&& it1@ == it0@
                &&& it1.metadata == it0.metadata
                &&& it1.dictionaries == it0.dictionaries
                &&& it1.projection == it0.projection
                &&& it1.end == it0.end
                &&& (it0.done() ==> r.1 == Ok::<Option<Batch>, Error>(None) && it1 == it0)
                &&& (!it0.done() ==> {
                    let rows = it0.metadata.blocks@[it0.idx as int].row_count;
                    if decoded matches Some(raw) && block_ok(
                        raw,
                        it0.metadata.schema@,
                        rows as nat,
                        it0@.len(),
                        it0.dictionaries,
                    ) {
                        &&& r.1 matches Ok(ob)
                        &&& ob matches Some(b)
                        &&& it1.idx == it0.idx + 1
                        &&& !it1.failed
                        &&& b.row_count == rows
                        &&& it0.yields_batch(decoded->0, b)
                        &&& forall|j: int|
                            0 <= j < b.columns@.len() ==> array_in_region(
                                #[trigger] b.columns@[j],
                                it0@,
                            )
                    } else {
                        &&& r.1 == Err::<Option<Batch>, Error>(Error::FormatError)
                        &&& it1.failed
                        &&& it1.idx == it0.idx
                    }
                })
            },
            self matches ReaderStrategy::Streaming(s0) ==> {
                &&& r.0 matches ReaderStrategy::Streaming(s1)
                &&& (s0.batches@.len() == 0 ==> r.1 == Ok::<Option<Batch>, Error>(None)
                    && s1.batches@ == s0.batches@)
                &&& (s0.batches@.len() > 0 ==> r.1 == Ok::<Option<Batch>, Error>(
                    Some(s0.batches@[0]),
                ) && s1.batches@ == s0.batches@.skip(1))
            },
    {
        match self {
            ReaderStrategy::MemoryMapped(mut it) => {
                let out = it.next_record_batch(decoded);
                (ReaderStrategy::MemoryMapped(it), out)
            },
            ReaderStrategy::Streaming(mut s) => {
                let out = s.next_batch();
                (ReaderStrategy::Streaming(s), Ok(out))
            },
        }
    }
}

} // verus!
