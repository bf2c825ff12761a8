use crate::dictionary::{dict_events_ok, table_matches, RawDictionary};
use crate::error::Error;
use crate::metadata::{apply_projection, is_visible_schema, projection_ok, Field, FileMetadata};
use crate::mmap_iter::MmapChunkIter;
use crate::region::MappedRegion;
use vstd::prelude::*;

verus! {

/// Request for a synthesized row-count column, forwarded untouched to the
/// materialization pipeline.
pub struct RowCount {
    pub name: String,
    pub offset: u32,
}

/// What the source and the external decode primitive produced before the
/// orchestrator runs: no file handle at all, a mapping that the OS refused,
/// or the mapped bytes together with the header parse and the dictionary
/// block decodes.
pub enum MmapSource {
    NotFileBacked,
    MappingFailed,
    Mapped {
        bytes: Vec<u8>,
        header: Option<FileMetadata>,
        dictionaries: Vec<Option<RawDictionary>>,
    },
}

/// Everything the external materialization pipeline is handed: the lazy batch
/// sequence, the mandatory no-rechunk flag, the caller's row limit, predicate
/// and aggregation, the computed schema, and the optional row-count column.
pub struct Handoff<P, A> {
    pub reader: MmapChunkIter,
    /// Rechunking copies batches into one contiguous buffer, forcing eager
    /// decode of every block; it must never be requested for this reader.
    pub allow_rechunk: bool,
    pub n_rows: Option<usize>,
    pub predicate: Option<P>,
    pub aggregate: Option<A>,
    pub schema: Vec<Field>,
    pub row_count: Option<RowCount>,
}

/// The reader orchestrator: validates the source, computes the externally
/// visible schema, builds the batch iterator (which resolves dictionaries
/// eagerly), and bundles everything for the materialization pipeline.
pub struct IpcReader {
    pub projection: Option<Vec<usize>>,
    pub n_rows: Option<usize>,
    pub row_count: Option<RowCount>,
}

impl IpcReader {
    /// Orchestrates a memory-mapped scan. A source without a file handle
    /// fails before any mapping work; a failed mapping and a failed header or
    /// dictionary decode are fatal; a projection index outside the schema is
    /// the caller's error. On success the handoff carries the visible
    /// (projected) schema — available before any batch is pulled — the fresh
    /// iterator, and `allow_rechunk` pinned to `false`.
    pub fn finish_memmapped<P, A>(
        self,
        source: MmapSource,
        predicate: Option<P>,
        aggregate: Option<A>,
    ) -> (r: Result<Handoff<P, A>, Error>)
        ensures
            source is NotFileBacked ==> r == Err::<Handoff<P, A>, Error>(
                Error::SourceNotFileBacked,
            ),
            source is MappingFailed ==> r == Err::<Handoff<P, A>, Error>(Error::MappingFailure),
            source matches MmapSource::Mapped { bytes, header, dictionaries } ==> (match header {
                Some(md) => {
                    if !projection_ok(&self.projection, md.schema@.len() as nat) {
                        r == Err::<Handoff<P, A>, Error>(Error::ProjectionIndexOutOfRange)
                    } else if !dict_events_ok(md.dictionaries@, dictionaries@, bytes@.len()) {
                        r == Err::<Handoff<P, A>, Error>(Error::FormatError)
                    } else {
                        &&& r matches Ok(h)
                        &&& h.allow_rechunk == false
                        &&& is_visible_schema(md.schema@, &self.projection, h.schema@)
                        &&& h.reader.wf()
                        &&& h.reader.idx == 0
                        &&& !h.reader.failed
                        &&& h.reader.end == md.blocks@.len()
                        &&& h.reader@ == bytes@
                        &&& h.reader.metadata == md
                        &&& h.reader.projection == self.projection
                        &&& table_matches(h.reader.dictionaries, md.dictionaries@, dictionaries@)
                        &&& h.n_rows == self.n_rows
                        &&& h.predicate == predicate
                        &&& h.aggregate == aggregate
                        &&& h.row_count == self.row_count
                    }
                },
                None => r == Err::<Handoff<P, A>, Error>(Error::FormatError),
            }),
    {
        match source {
            MmapSource::NotFileBacked => Err(Error::SourceNotFileBacked),
            MmapSource::MappingFailed => Err(Error::MappingFailure),
            MmapSource::Mapped { bytes, header, dictionaries } => {
                let metadata = match header {
                    Some(md) => md,
                    None => {
                        return Err(Error::FormatError);
                    },
                };
                let schema = match apply_projection(&metadata.schema, &self.projection) {
                    Ok(s) => s,
                    Err(e) => {
                        return Err(e);
                    },
                };
                let region = MappedRegion::new(bytes);
                let reader = match MmapChunkIter::new(
                    region,
                    metadata,
                    dictionaries,
                    self.projection,
                ) {
                    Ok(it) => it,
                    Err(e) => {
                        return Err(e);
                    },
                };
                Ok(Handoff {
                    reader,
                    allow_rechunk: false,
                    n_rows: self.n_rows,
                    predicate,
                    aggregate,
                    schema,
                    row_count: self.row_count,
                })
            },
        }
    }
}

/// Law: schema determinism. The visible schema is a function of the file's
/// schema and the projection alone, so repeated orchestration invocations
/// over the same file, with the same projection, yield identical schemas.
pub proof fn lemma_schema_deterministic(
    schema: Seq<Field>,
    projection: &Option<Vec<usize>>,
    s1: Seq<Field>,
    s2: Seq<Field>,
)
    requires
        is_visible_schema(schema, projection, s1),
        is_visible_schema(schema, projection, s2),
    ensures
        s1.len() == s2.len(),
        forall|i: int| 0 <= i < s1.len() ==> crate::metadata::field_like(#[trigger] s1[i], s2[i]),
{
}

} // verus!
