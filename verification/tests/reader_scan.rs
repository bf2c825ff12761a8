use ipc_mmap::{
    require_file_backed, BlockDesc, ColumnData, DataType, DictionaryDesc, Error, Field,
    FileMetadata, IpcReader, MappedRegion, MmapChunkIter, MmapSource, RawBlock, RawColumn,
    RawColumnData, RawDictionary, ReaderStrategy, StorageRange, StreamingBatches,
};

fn field(name: &str, dtype: DataType) -> Field {
    Field::new(name.to_string(), dtype)
}

fn two_int_metadata() -> FileMetadata {
    FileMetadata {
        schema: vec![field("a", DataType::Int64), field("b", DataType::Int64)],
        blocks: vec![
            BlockDesc { offset: 64, length: 96, row_count: 3 },
            BlockDesc { offset: 160, length: 96, row_count: 3 },
        ],
        dictionaries: vec![],
    }
}

fn int_col(values: Vec<i64>, offset: usize) -> RawColumn {
    RawColumn {
        storage: StorageRange { offset, len: values.len() * 8 },
        data: RawColumnData::Int64(values),
    }
}

fn block_ab(a: Vec<i64>, b: Vec<i64>, offset: usize) -> RawBlock {
    let n = a.len();
    RawBlock { columns: vec![int_col(a, offset), int_col(b, offset + n * 8)] }
}

fn region_of(len: usize) -> MappedRegion {
    MappedRegion::new(vec![0u8; len])
}

#[test]
fn fail_fast_without_file_handle() {
    let reader = IpcReader { projection: None, n_rows: None, row_count: None };
    let r = reader.finish_memmapped::<(), ()>(MmapSource::NotFileBacked, None, None);
    assert!(matches!(r, Err(Error::SourceNotFileBacked)));

    assert_eq!(require_file_backed::<i32>(None), Err(Error::SourceNotFileBacked));
    assert_eq!(require_file_backed(Some(7)), Ok(7));
}

#[test]
fn mapping_failure_is_fatal() {
    let reader = IpcReader { projection: None, n_rows: None, row_count: None };
    let r = reader.finish_memmapped::<(), ()>(MmapSource::MappingFailed, None, None);
    assert!(matches!(r, Err(Error::MappingFailure)));
}

#[test]
fn header_failure_is_format_error() {
    let reader = IpcReader { projection: None, n_rows: None, row_count: None };
    let source = MmapSource::Mapped { bytes: vec![0u8; 16], header: None, dictionaries: vec![] };
    let r = reader.finish_memmapped::<(), ()>(source, None, None);
    assert!(matches!(r, Err(Error::FormatError)));
}

#[test]
fn projection_index_out_of_range() {
    let reader = IpcReader { projection: Some(vec![2]), n_rows: None, row_count: None };
    let source = MmapSource::Mapped {
        bytes: vec![0u8; 256],
        header: Some(two_int_metadata()),
        dictionaries: vec![],
    };
    let r = reader.finish_memmapped::<(), ()>(source, None, None);
    assert!(matches!(r, Err(Error::ProjectionIndexOutOfRange)));
}

#[test]
fn schema_determinism() {
    let mut schemas: Vec<Vec<(String, DataType)>> = Vec::new();
    for _ in 0..2 {
        let reader = IpcReader { projection: Some(vec![1, 0]), n_rows: None, row_count: None };
        let source = MmapSource::Mapped {
            bytes: vec![0u8; 256],
            header: Some(two_int_metadata()),
            dictionaries: vec![],
        };
        let h = reader.finish_memmapped::<(), ()>(source, None, None).unwrap();
        schemas.push(h.schema.iter().map(|f| (f.name.clone(), f.dtype)).collect());
    }
    assert_eq!(schemas[0], schemas[1]);
    assert_eq!(schemas[0][0].0, "b");
    assert_eq!(schemas[0][1].0, "a");
}

#[test]
fn end_to_end_projected_scan() {
    // schema {a: int, b: int}, two blocks of three rows, projection [1]:
    // a six-row single-column table "b" with values 1..=6
    let reader = IpcReader { projection: Some(vec![1]), n_rows: None, row_count: None };
    let source = MmapSource::Mapped {
        bytes: vec![0u8; 256],
        header: Some(two_int_metadata()),
        dictionaries: vec![],
    };
    let mut h = reader.finish_memmapped::<(), ()>(source, None, None).unwrap();
    assert!(!h.allow_rechunk);
    assert_eq!(h.schema.len(), 1);
    assert_eq!(h.schema[0].name, "b");
    assert_eq!(h.schema[0].dtype, DataType::Int64);

    let mut collected: Vec<i64> = Vec::new();
    let mut rows = 0;
    let blocks =
        [block_ab(vec![10, 20, 30], vec![1, 2, 3], 64), block_ab(vec![40, 50, 60], vec![4, 5, 6], 160)];
    for raw in blocks {
        let want = h.reader.next_block().unwrap();
        assert_eq!(h.reader.next_block(), Some(want));
        let batch = h.reader.next_record_batch(Some(raw)).unwrap().unwrap();
        assert_eq!(batch.columns.len(), 1);
        rows += batch.row_count;
        match &batch.columns[0].data {
            ColumnData::Int64(v) => collected.extend(v.iter().copied()),
            other => panic!("unexpected column {:?}", other),
        }
    }
    assert_eq!(h.reader.next_block(), None);
    assert!(h.reader.next_record_batch(None).unwrap().is_none());
    assert_eq!(rows, 6);
    assert_eq!(collected, vec![1, 2, 3, 4, 5, 6]);
}

#[test]
fn projection_matches_unprojected_batch() {
    let region = region_of(256);
    let mut it_proj =
        MmapChunkIter::new(region, two_int_metadata(), vec![], Some(vec![1, 0])).unwrap();
    let region = region_of(256);
    let mut it_full = MmapChunkIter::new(region, two_int_metadata(), vec![], None).unwrap();

    let raw = || block_ab(vec![10, 20, 30], vec![1, 2, 3], 64);
    let b_proj = it_proj.next_record_batch(Some(raw())).unwrap().unwrap();
    let b_full = it_full.next_record_batch(Some(raw())).unwrap().unwrap();

    assert_eq!(b_proj.columns.len(), 2);
    assert_eq!(b_full.columns.len(), 2);
    // column i of the projected batch equals column projection[i] of the
    // unprojected batch from the same block
    assert_eq!(b_proj.columns[0].data, b_full.columns[1].data);
    assert_eq!(b_proj.columns[0].storage, b_full.columns[1].storage);
    assert_eq!(b_proj.columns[1].data, b_full.columns[0].data);
    assert_eq!(b_proj.columns[1].storage, b_full.columns[0].storage);
}

#[test]
fn row_completeness_over_full_scan() {
    let region = region_of(256);
    let md = two_int_metadata();
    let declared: usize = md.blocks.iter().map(|b| b.row_count).sum();
    let mut it = MmapChunkIter::new(region, md, vec![], None).unwrap();
    let mut total = 0;
    let blocks =
        [block_ab(vec![10, 20, 30], vec![1, 2, 3], 64), block_ab(vec![40, 50, 60], vec![4, 5, 6], 160)];
    for raw in blocks {
        let batch = it.next_record_batch(Some(raw)).unwrap().unwrap();
        total += batch.row_count;
        for c in &batch.columns {
            assert_eq!(c.data.num_rows(), batch.row_count);
        }
    }
    assert_eq!(total, declared);
}

#[test]
fn arrays_alias_the_mapped_region() {
    let region = region_of(256);
    let mut it = MmapChunkIter::new(region, two_int_metadata(), vec![], None).unwrap();
    let batch = it.next_record_batch(Some(block_ab(vec![10, 20, 30], vec![1, 2, 3], 64)))
        .unwrap()
        .unwrap();
    for c in &batch.columns {
        // every array's storage range falls within the mapped region
        assert!(c.storage.offset + c.storage.len <= c.region.len());
        assert_eq!(c.region.len(), 256);
    }

    // a block whose claimed storage leaves the region is rejected
    let region = region_of(32);
    let mut it = MmapChunkIter::new(region, two_int_metadata(), vec![], None).unwrap();
    let r = it.next_record_batch(Some(block_ab(vec![10, 20, 30], vec![1, 2, 3], 64)));
    assert!(matches!(r, Err(Error::FormatError)));
}

#[test]
fn early_drop_is_safe() {
    let region = region_of(256);
    let mut it = MmapChunkIter::new(region, two_int_metadata(), vec![], None).unwrap();
    let batch = it.next_record_batch(Some(block_ab(vec![10, 20, 30], vec![1, 2, 3], 64)))
        .unwrap()
        .unwrap();
    assert_eq!(batch.row_count, 3);
    drop(it);
    // the yielded batch stays valid after the iterator is gone
    assert_eq!(batch.columns.len(), 2);

    // a fresh iterator over the same metadata starts at the first block again
    let region = region_of(256);
    let it2 = MmapChunkIter::new(region, two_int_metadata(), vec![], None).unwrap();
    assert_eq!(it2.next_block(), Some(0));
    assert_eq!(it2.end, 2);
}

fn dict_metadata() -> FileMetadata {
    FileMetadata {
        schema: vec![field("tag", DataType::Dictionary(7))],
        blocks: vec![
            BlockDesc { offset: 64, length: 32, row_count: 2 },
            BlockDesc { offset: 96, length: 32, row_count: 2 },
        ],
        dictionaries: vec![DictionaryDesc { id: 7, offset: 32, length: 32 }],
    }
}

fn dict_block(keys: Vec<usize>, offset: usize) -> RawBlock {
    RawBlock {
        columns: vec![RawColumn {
            storage: StorageRange { offset, len: 16 },
            data: RawColumnData::DictionaryKeys { dict_id: 7, keys },
        }],
    }
}

#[test]
fn batches_share_dictionary_contents() {
    let region = region_of(256);
    let events = vec![Some(RawDictionary {
        id: 7,
        values: vec![100, 200],
        storage: StorageRange { offset: 32, len: 32 },
    })];
    let mut it = MmapChunkIter::new(region, dict_metadata(), events, None).unwrap();
    let b1 = it.next_record_batch(Some(dict_block(vec![0, 1], 64))).unwrap().unwrap();
    let b2 = it.next_record_batch(Some(dict_block(vec![1, 1], 96))).unwrap().unwrap();
    let values_of = |c: &ColumnData| match c {
        ColumnData::Dictionary { values, keys, .. } => (values.clone(), keys.clone()),
        other => panic!("unexpected column {:?}", other),
    };
    let (v1, k1) = values_of(&b1.columns[0].data);
    let (v2, k2) = values_of(&b2.columns[0].data);
    // both batches observe identical dictionary contents
    assert_eq!(v1, v2);
    assert_eq!(v1, vec![100, 200]);
    assert_eq!(k1, vec![0, 1]);
    assert_eq!(k2, vec![1, 1]);
}

#[test]
fn missing_dictionary_fails_at_construction() {
    let region = region_of(256);
    let r = MmapChunkIter::new(region, dict_metadata(), vec![None], None);
    assert!(matches!(r, Err(Error::FormatError)));

    let region = region_of(256);
    let r = MmapChunkIter::new(region, dict_metadata(), vec![], None);
    assert!(matches!(r, Err(Error::FormatError)));
}

#[test]
fn corrupt_block_ends_the_scan() {
    let md = FileMetadata {
        schema: vec![field("a", DataType::Int64), field("b", DataType::Int64)],
        blocks: vec![
            BlockDesc { offset: 64, length: 96, row_count: 3 },
            BlockDesc { offset: 160, length: 96, row_count: 3 },
            BlockDesc { offset: 256, length: 96, row_count: 3 },
        ],
        dictionaries: vec![],
    };
    let region = region_of(512);
    let mut it = MmapChunkIter::new(region, md, vec![], None).unwrap();

    // block 0 is fine
    let b0 = it.next_record_batch(Some(block_ab(vec![10, 20, 30], vec![1, 2, 3], 64)));
    assert!(b0.unwrap().is_some());

    // block 1 fails to decode: the draw reports the corruption
    assert_eq!(it.next_block(), Some(1));
    let b1 = it.next_record_batch(None);
    assert!(matches!(b1, Err(Error::FormatError)));

    // the sequence has ended: block 2 is never requested
    assert_eq!(it.next_block(), None);
    assert!(it.next_record_batch(None).unwrap().is_none());
}

#[test]
fn inconsistent_block_is_rejected() {
    // wrong column count
    let region = region_of(256);
    let mut it = MmapChunkIter::new(region, two_int_metadata(), vec![], None).unwrap();
    let raw = RawBlock { columns: vec![int_col(vec![1, 2, 3], 64)] };
    assert!(matches!(it.next_record_batch(Some(raw)), Err(Error::FormatError)));

    // wrong row count
    let region = region_of(256);
    let mut it = MmapChunkIter::new(region, two_int_metadata(), vec![], None).unwrap();
    let raw = block_ab(vec![10, 20], vec![1, 2], 64);
    assert!(matches!(it.next_record_batch(Some(raw)), Err(Error::FormatError)));

    // wrong column type
    let region = region_of(256);
    let mut it = MmapChunkIter::new(region, two_int_metadata(), vec![], None).unwrap();
    let raw = RawBlock {
        columns: vec![
            int_col(vec![10, 20, 30], 64),
            RawColumn {
                storage: StorageRange { offset: 88, len: 3 },
                data: RawColumnData::Boolean(vec![true, false, true]),
            },
        ],
    };
    assert!(matches!(it.next_record_batch(Some(raw)), Err(Error::FormatError)));
}

#[test]
fn dictionary_keys_must_resolve() {
    // a key outside the decoded dictionary is corruption
    let region = region_of(256);
    let events = vec![Some(RawDictionary {
        id: 7,
        values: vec![100, 200],
        storage: StorageRange { offset: 32, len: 32 },
    })];
    let mut it = MmapChunkIter::new(region, dict_metadata(), events, None).unwrap();
    let r = it.next_record_batch(Some(dict_block(vec![0, 2], 64)));
    assert!(matches!(r, Err(Error::FormatError)));
}

fn first_ints(b: &ipc_mmap::Batch) -> Vec<i64> {
    match &b.columns[0].data {
        ColumnData::Int64(v) => v.clone(),
        other => panic!("unexpected column {:?}", other),
    }
}

#[test]
fn strategy_is_a_runtime_choice() {
    // the same pull-next-batch capability, served by either strategy
    let region = region_of(256);
    let it = MmapChunkIter::new(region, two_int_metadata(), vec![], None).unwrap();
    let mut mapped = ReaderStrategy::MemoryMapped(it);

    let (m2, r) = mapped.next_record_batch(Some(block_ab(vec![10, 20, 30], vec![1, 2, 3], 64)));
    let b0 = r.unwrap().unwrap();
    assert_eq!(first_ints(&b0), vec![10, 20, 30]);
    mapped = m2;
    let (_, r) = mapped.next_record_batch(Some(block_ab(vec![40, 50, 60], vec![4, 5, 6], 160)));
    let b1 = r.unwrap().unwrap();
    assert_eq!(first_ints(&b1), vec![40, 50, 60]);

    let mut streaming = ReaderStrategy::Streaming(StreamingBatches { batches: vec![b0, b1] });
    let (s2, r) = streaming.next_record_batch(None);
    assert_eq!(first_ints(&r.unwrap().unwrap()), vec![10, 20, 30]);
    streaming = s2;
    let (s3, r) = streaming.next_record_batch(None);
    assert_eq!(first_ints(&r.unwrap().unwrap()), vec![40, 50, 60]);
    let (_, r) = s3.next_record_batch(None);
    assert!(r.unwrap().is_none());
}
