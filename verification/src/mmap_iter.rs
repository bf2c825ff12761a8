use crate::batch::{
    array_assembled, array_in_region, array_like, assemble_batch, block_ok, check_block,
    project_batch, Batch, RawBlock,
};
use crate::dictionary::{dict_events_ok, resolve_dictionaries, table_matches, DictionaryTable,
    RawDictionary};
use crate::error::Error;
use crate::metadata::{
    lemma_total_rows_step, proj_in_range, projection_ok, total_rows, FileMetadata,
};
use crate::region::MappedRegion;
use vstd::prelude::*;

verus! {

/// The lazy, forward-only, single-pass sequence of decoded batches: one per
/// data block, in block order, with column projection applied per batch.
///
/// Decoding a block from the mapped bytes is the external decode primitive's
/// work; this iterator asks for the block at the cursor and is then handed
/// the decode outcome. Everything after the decode — validation against the
/// metadata, dictionary attachment, projection, cursor movement, fail-fast
/// termination — happens here.
pub struct MmapChunkIter {
    pub region: MappedRegion,
    pub metadata: FileMetadata,
    pub dictionaries: DictionaryTable,
    pub idx: usize,
    pub end: usize,
    pub projection: Option<Vec<usize>>,
    pub failed: bool,
    /// Total rows of the batches yielded so far.
    pub rows_yielded: Ghost<nat>,
}

impl MmapChunkIter {
    /// The iterator's invariant: the cursor stays in `[0, end]`, `end` is the
    /// block count, the projection names only schema columns, the dictionary
    /// storage lies within the mapped region, and the yielded-row total
    /// matches the blocks already consumed.
    pub open spec fn wf(self) -> bool {
        &&& self.end == self.metadata.blocks@.len()
        &&& self.idx <= self.end
        &&& projection_ok(&self.projection, self.metadata.schema@.len() as nat)
        &&& self.dictionaries.wf(self@.len())
        &&& self.rows_yielded@ == total_rows(self.metadata.blocks@.take(self.idx as int))
    }

    /// The mapped bytes this iterator reads.
    pub open spec fn view(self) -> Seq<u8> {
        self.region@
    }

    /// The sequence is exhausted or has failed: no further batch will come.
    pub open spec fn done(self) -> bool {
        self.failed || self.idx >= self.end
    }

    /// Builds the iterator over the mapped region: resolves every dictionary
    /// block eagerly — once, so that all batches share one decoded table —
    /// and validates the projection against the schema. A dictionary decode
    /// failure is a format error; a projection index outside the schema is
    /// the caller's error, reported at construction.
    pub fn new(
        region: MappedRegion,
        metadata: FileMetadata,
        dict_events: Vec<Option<RawDictionary>>,
        projection: Option<Vec<usize>>,
    ) -> (r: Result<Self, Error>)
        ensures
            r is Ok <==> dict_events_ok(
                metadata.dictionaries@,
                dict_events@,
                region@.len(),
            ) && projection_ok(&projection, metadata.schema@.len() as nat),
            r matches Ok(it) ==> {
                &&& it.wf()
                &&& it.idx == 0
                &&& !it.failed
                &&& it.end == metadata.blocks@.len()
                &&& it@ == region@
                &&& it.metadata == metadata
                &&& it.projection == projection
                &&& table_matches(it.dictionaries, metadata.dictionaries@, dict_events@)
                &&& it.rows_yielded@ == 0
            },
            r matches Err(e) ==> {
                ||| (e == Error::FormatError && !dict_events_ok(
                    metadata.dictionaries@,
                    dict_events@,
                    region@.len(),
                ))
                ||| (e == Error::ProjectionIndexOutOfRange && !projection_ok(
                    &projection,
                    metadata.schema@.len() as nat,
                ))
            },
    {
        let region_len = region.len();
        let dictionaries = match resolve_dictionaries(&metadata.dictionaries, dict_events, region_len) {
            Ok(t) => t,
            Err(e) => {
                return Err(e);
            },
        };
        if projection.is_some() {
            let p = projection.as_ref().unwrap();
            let mut i: usize = 0;
            while i < p.len()
                invariant
                    projection matches Some(pp) && pp@ == p@,
                    i <= p@.len(),
                    forall|j: int| 0 <= j < i ==> (#[trigger] p@[j]) < metadata.schema@.len(),
                decreases p@.len() - i,
            {
                if p[i] >= metadata.schema.len() {
                    proof {
                        assert(p@[i as int] >= metadata.schema@.len());
                    }
                    return Err(Error::ProjectionIndexOutOfRange);
                }
                i = i + 1;
            }
        }
        let end = metadata.blocks.len();
        proof {
            assert(metadata.blocks@.take(0) =~= Seq::<crate::metadata::BlockDesc>::empty());
        }
        Ok(MmapChunkIter {
            region,
            metadata,
            dictionaries,
            idx: 0,
            end,
            projection,
            failed: false,
            rows_yielded: Ghost(0),
        })
    }

    /// Which block must be decoded to serve the next draw: the block at the
    /// cursor, or nothing once the sequence is exhausted or has failed.
    pub fn next_block(&self) -> (r: Option<usize>)
        ensures
            r == if !self.failed && self.idx < self.end {
                Some(self.idx)
            } else {
                None::<usize>
            },
    {
        if !self.failed && self.idx < self.end {
            Some(self.idx)
        } else {
            None
        }
    }

    /// The batch yielded for the block at the cursor conforms to the
    /// projection: without one, every raw column in natural order; with one,
    /// exactly the projected columns, in projection order.
    pub open spec fn yields_batch(self, raw: RawBlock, b: Batch) -> bool {
        match self.projection {
            None => {
                &&& b.columns@.len() == raw.columns@.len()
                &&& forall|j: int|
                    0 <= j < raw.columns@.len() ==> array_assembled(
                        #[trigger] b.columns@[j],
                        raw.columns@[j],
                        self.region@,
                        self.dictionaries,
                    )
            },
            Some(p) => {
                &&& b.columns@.len() == p@.len()
                &&& forall|i: int|
                    0 <= i < p@.len() ==> array_assembled(
                        #[trigger] b.columns@[i],
                        raw.columns@[p@[i] as int],
                        self.region@,
                        self.dictionaries,
                    )
            },
        }
    }

    /// Draws the next batch, given the outcome of decoding the block at the
    /// cursor (`None` when the decode primitive failed). After the sequence
    /// is exhausted, or once any block has failed, no further batch is
    /// produced. A decode failure or a block inconsistent with the metadata
    /// surfaces as a format error and ends the sequence immediately; batches
    /// already yielded stay valid.
    pub fn next_record_batch(&mut self, decoded: Option<RawBlock>) -> (r: Result<
        Option<Batch>,
        Error,
    >)
        requires
            old(self).wf(),
        ensures
            final(self).wf(),
            final(self)@ == old(self)@,
            final(self).metadata == old(self).metadata,
            final(self).dictionaries == old(self).dictionaries,
            final(self).projection == old(self).projection,
            final(self).end == old(self).end,
            old(self).done() ==> r == Ok::<Option<Batch>, Error>(None) && *final(self) == *old(
                self,
            ),
            !old(self).done() ==> {
                let rows = old(self).metadata.blocks@[old(self).idx as int].row_count;
                if decoded matches Some(raw) && block_ok(
                    raw,
                    old(self).metadata.schema@,
                    rows as nat,
                    old(self)@.len(),
                    old(self).dictionaries,
                ) {
                    &&& r matches Ok(ob)
                    &&& ob matches Some(b)
                    &&& final(self).idx == old(self).idx + 1
                    &&& !final(self).failed
                    &&& final(self).rows_yielded@ == old(self).rows_yielded@ + rows
                    &&& b.row_count == rows
                    &&& old(self).yields_batch(decoded->0, b)
                    &&& forall|j: int|
                        0 <= j < b.columns@.len() ==> array_in_region(
                            #[trigger] b.columns@[j],
                            old(self)@,
                        )
                } else {
                    &&& r == Err::<Option<Batch>, Error>(Error::FormatError)
                    &&& final(self).failed
                    &&& final(self).idx == old(self).idx
                    &&& final(self).rows_yielded@ == old(self).rows_yielded@
                }
            },
    {
        if self.failed || self.idx >= self.end {
            return Ok(None);
        }
        let rows = self.metadata.blocks[self.idx].row_count;
        let region_len = self.region.len();
        match decoded {
            None => {
                self.failed = true;
                Err(Error::FormatError)
            },
            Some(raw) => {
                if !check_block(&raw, &self.metadata.schema, rows, region_len, &self.dictionaries) {
                    self.failed = true;
                    return Err(Error::FormatError);
                }
                let full = assemble_batch(
                    raw,
                    &self.region,
                    &self.dictionaries,
                    rows,
                    &self.metadata.schema,
                );
                let batch = if self.projection.is_some() {
                    let p = self.projection.as_ref().unwrap();
                    project_batch(&full, p)
                } else {
                    full
                };
                proof {
                    lemma_total_rows_step(self.metadata.blocks@, self.idx as int);
                }
                self.rows_yielded = Ghost((self.rows_yielded@ + rows) as nat);
                self.idx = self.idx + 1;
                Ok(Some(batch))
            },
        }
    }
}

/// Law: row completeness. Once a scan has consumed every block without
/// failure, the rows of the yielded batches sum to the file's declared total
/// row count.
pub proof fn lemma_row_completeness(it: MmapChunkIter)
    requires
        it.wf(),
        it.idx == it.end,
        !it.failed,
    ensures
        it.rows_yielded@ == total_rows(it.metadata.blocks@),
{
    assert(it.metadata.blocks@.take(it.idx as int) =~= it.metadata.blocks@);
}

/// Law: projection correctness. For a valid projection, the batch yielded for
/// a block has exactly as many columns as the projection, and its column `i`
/// equals column `projection[i]` of the unprojected batch an otherwise equal
/// reader yields for the same block.
pub proof fn lemma_projection_correctness(
    it: MmapChunkIter,
    itf: MmapChunkIter,
    p: Vec<usize>,
    raw: RawBlock,
    b: Batch,
    bf: Batch,
)
    requires
        it.projection == Some(p),
        itf.projection is None,
        itf.region@ == it.region@,
        itf.dictionaries == it.dictionaries,
        proj_in_range(p@, raw.columns@.len()),
        it.yields_batch(raw, b),
        itf.yields_batch(raw, bf),
    ensures
        b.columns@.len() == p@.len(),
        forall|i: int|
            0 <= i < p@.len() ==> array_like(#[trigger] b.columns@[i], bf.columns@[p@[i] as int]),
{
}

} // verus!
