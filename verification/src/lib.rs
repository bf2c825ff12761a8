//! Memory-mapped columnar file reading layer.
//!
//! Maps a columnar file into memory, parses its header once, and exposes a
//! lazy, forward-only sequence of decoded column batches whose backing
//! storage aliases the mapped bytes. Column projection is applied per batch
//! as an O(k) handle-clone, never a byte copy.

use vstd::prelude::*;

mod batch;
mod column;
mod dictionary;
mod error;
mod metadata;
mod mmap_iter;
mod nan;
mod reader;
mod region;
mod rolling;
mod series;
mod strategy;

pub use batch::{
    array_assembled, array_in_region, array_like, assemble_batch, attach_column, attached_model,
    block_ok, check_block, check_col, col_ok, dict_id_of, dict_keys_ok, dict_values_of,
    lemma_dictionary_sharing, project_batch, ArrayRef, Batch, RawBlock, RawColumn, RawColumnData,
};
pub use column::{copy_vec, ColumnData, ColumnModel};
pub use dictionary::{
    dict_events_ok, lookup_entries, resolve_dictionaries, table_matches, DictEntry,
    DictionaryTable, RawDictionary,
};
pub use error::Error;
pub use metadata::{
    apply_projection, field_like, is_visible_schema, lemma_total_rows_step, proj_in_range,
    projection_ok, total_rows, BlockDesc, DataType, DictionaryDesc, Field, FileMetadata,
};
pub use mmap_iter::{lemma_projection_correctness, lemma_row_completeness, MmapChunkIter};
pub use nan::{
    drop_nans, f32_bits_is_nan, f64_bits_is_nan, filtered32, filtered64, is_nan, is_nan_f32_bits,
    is_nan_f64_bits, is_not_nan, nan_mask, without_nans, NanFunction,
};
pub use reader::{lemma_schema_deterministic, Handoff, IpcReader, MmapSource, RowCount};
pub use region::{MappedRegion, StorageRange};
pub use rolling::{rolling_skew_plan, rolling_window_bounds, RollingPlan};
pub use series::Series;
pub use strategy::{ReaderStrategy, StreamingBatches};

verus! {

/// Accepts the evidence that a byte source can yield an underlying file
/// handle. Mapping requires a real file, not an arbitrary byte stream, so the
/// absence of a handle is a defined, immediate error.
pub fn require_file_backed<F>(handle: Option<F>) -> (r: Result<F, Error>)
    ensures
        r is Ok <==> handle is Some,
        r matches Err(e) ==> e == Error::SourceNotFileBacked,
        handle matches Some(f) ==> (r matches Ok(g) && g == f),
{
    match handle {
        Some(f) => Ok(f),
        None => Err(Error::SourceNotFileBacked),
    }
}

} // verus!
