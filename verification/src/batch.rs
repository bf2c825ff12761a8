use crate::column::{copy_vec, ColumnData, ColumnModel};
use crate::dictionary::DictionaryTable;
use crate::error::Error;
use crate::metadata::{DataType, Field};
use crate::region::{MappedRegion, StorageRange};
use vstd::prelude::*;

verus! {

/// One column of a data block as the external decode primitive hands it
/// over: the decoded plain values (for a dictionary column, only the keys)
/// and where in the mapped region the column's backing storage lies.
pub enum RawColumnData {
    Boolean(Vec<bool>),
    Int64(Vec<i64>),
    Float32Bits(Vec<u32>),
    Float64Bits(Vec<u64>),
    DictionaryKeys { dict_id: u64, keys: Vec<usize> },
}

impl RawColumnData {
    /// Number of rows the decoded column holds.
    pub open spec fn spec_len(&self) -> nat {
        match self {
            RawColumnData::Boolean(v) => v@.len(),
            RawColumnData::Int64(v) => v@.len(),
            RawColumnData::Float32Bits(v) => v@.len(),
            RawColumnData::Float64Bits(v) => v@.len(),
            RawColumnData::DictionaryKeys { keys, .. } => keys@.len(),
        }
    }

    /// Logical type the decoded column claims.
    pub open spec fn spec_dtype(&self) -> DataType {
        match self {
            RawColumnData::Boolean(_) => DataType::Boolean,
            RawColumnData::Int64(_) => DataType::Int64,
            RawColumnData::Float32Bits(_) => DataType::Float32,
            RawColumnData::Float64Bits(_) => DataType::Float64,
            RawColumnData::DictionaryKeys { dict_id, .. } => DataType::Dictionary(*dict_id),
        }
    }
}

impl RawColumnData {
    pub fn dtype(&self) -> (d: DataType)
        ensures
            d == self.spec_dtype(),
    {
        match self {
            RawColumnData::Boolean(_) => DataType::Boolean,
            RawColumnData::Int64(_) => DataType::Int64,
            RawColumnData::Float32Bits(_) => DataType::Float32,
            RawColumnData::Float64Bits(_) => DataType::Float64,
            RawColumnData::DictionaryKeys { dict_id, .. } => DataType::Dictionary(*dict_id),
        }
    }

    pub fn num_rows(&self) -> (n: usize)
        ensures
            n == self.spec_len(),
    {
        match self {
            RawColumnData::Boolean(v) => v.len(),
            RawColumnData::Int64(v) => v.len(),
            RawColumnData::Float32Bits(v) => v.len(),
            RawColumnData::Float64Bits(v) => v.len(),
            RawColumnData::DictionaryKeys { keys, .. } => keys.len(),
        }
    }

    /// Decides whether this column's dictionary keys, if any, resolve in the
    /// shared table.
    pub fn keys_resolve(&self, table: &DictionaryTable) -> (b: bool)
        ensures
            b == dict_keys_ok(*self, *table),
    {
        match self {
            RawColumnData::DictionaryKeys { dict_id, keys } => {
                match table.get(*dict_id) {
                    None => false,
                    Some(vals) => {
                        let mut k: usize = 0;
                        while k < keys.len()
                            invariant
                                k <= keys@.len(),
                                table.lookup(*dict_id) == Some::<Seq<i64>>(vals@),
                                dict_keys_ok(*self, *table) == (forall|t: int|
                                    0 <= t < keys@.len() ==> (#[trigger] keys@[t]) < vals@.len()),
                                forall|t: int| 0 <= t < k ==> (#[trigger] keys@[t]) < vals@.len(),
                            decreases keys@.len() - k,
                        {
                            if keys[k] >= vals.len() {
                                proof {
                                    assert(keys@[k as int] >= vals@.len());
                                }
                                return false;
                            }
                            k = k + 1;
                        }
                        true
                    },
                }
            },
            _ => true,
        }
    }
}

pub struct RawColumn {
    pub storage: StorageRange,
    pub data: RawColumnData,
}

/// One decoded data block, before validation and projection.
pub struct RawBlock {
    pub columns: Vec<RawColumn>,
}

/// A decoded column array. It holds its own reference-counted handle to the
/// mapped region; its backing storage is a view into that region, never a
/// private copy of the column bytes.
pub struct ArrayRef {
    pub region: MappedRegion,
    pub storage: StorageRange,
    pub data: ColumnData,
}

/// The array's handle refers to the given mapping and its storage lies
/// within it.
pub open spec fn array_in_region(a: ArrayRef, region: Seq<u8>) -> bool {
    a.region@ == region && a.storage.within(region.len())
}

/// Same storage and same decoded contents.
pub open spec fn array_like(a: ArrayRef, b: ArrayRef) -> bool {
    a.region@ == b.region@ && a.storage == b.storage && a.data@ == b.data@
}

impl ArrayRef {
    /// A new handle to the same array. The region handle is shared by
    /// reference count, never by copying mapped bytes; the decoded values,
    /// which here model what the aliased storage denotes, are copied.
    pub fn share(&self) -> (r: ArrayRef)
        ensures
            array_like(r, *self),
    {
        ArrayRef { region: self.region.share(), storage: self.storage, data: self.data.duplicate() }
    }
}

/// An ordered collection of column arrays of equal length, conforming to the
/// (possibly projected) schema.
pub struct Batch {
    pub columns: Vec<ArrayRef>,
    pub row_count: usize,
}

/// A raw column is acceptable for field `f` of a block of `rows` rows: the
/// type matches the schema, the length matches the block descriptor, the
/// storage lies within the region, and dictionary keys resolve in the shared
/// table.
pub open spec fn col_ok(
    c: RawColumn,
    f: Field,
    rows: nat,
    region_len: nat,
    table: DictionaryTable,
) -> bool {
    &&& c.data.spec_dtype() == f.dtype
    &&& c.data.spec_len() == rows
    &&& c.storage.within(region_len)
    &&& dict_keys_ok(c.data, table)
}

/// For a dictionary column, the id resolves in the shared table and every
/// stored key indexes into the resolved contents; any other column is
/// unconstrained here.
pub open spec fn dict_keys_ok(d: RawColumnData, table: DictionaryTable) -> bool {
    match d {
        RawColumnData::DictionaryKeys { dict_id, keys } => {
            &&& table.lookup(dict_id) matches Some(vals)
            &&& forall|k: int| 0 <= k < keys@.len() ==> (#[trigger] keys@[k]) < vals.len()
        },
        _ => true,
    }
}

/// A decoded block is acceptable for the file: one column per schema field,
/// each acceptable for its field.
pub open spec fn block_ok(
    raw: RawBlock,
    schema: Seq<Field>,
    rows: nat,
    region_len: nat,
    table: DictionaryTable,
) -> bool {
    &&& raw.columns@.len() == schema.len()
    &&& forall|j: int|
        0 <= j < schema.len() ==> col_ok(#[trigger] raw.columns@[j], schema[j], rows, region_len, table)
}

/// The decoded contents of a raw column once its dictionary, if any, is
/// attached from the shared table.
pub open spec fn attached_model(d: RawColumnData, table: DictionaryTable) -> ColumnModel {
    match d {
        RawColumnData::Boolean(v) => ColumnModel::Boolean(v@),
        RawColumnData::Int64(v) => ColumnModel::Int64(v@),
        RawColumnData::Float32Bits(v) => ColumnModel::Float32Bits(v@),
        RawColumnData::Float64Bits(v) => ColumnModel::Float64Bits(v@),
        RawColumnData::DictionaryKeys { dict_id, keys } => ColumnModel::Dictionary {
            dict_id,
            keys: keys@,
            values: match table.lookup(dict_id) {
                Some(vals) => vals,
                None => Seq::empty(),
            },
        },
    }
}

/// Attaches the shared dictionary contents to one raw column, turning it into
/// an array that aliases the mapped region.
pub fn attach_column(c: RawColumn, region: &MappedRegion, table: &DictionaryTable) -> (r: Result<
    ArrayRef,
    Error,
>)
    ensures
        r matches Ok(a) ==> {
            &&& a.storage == c.storage
            &&& a.region@ == region@
            &&& a.data@ == attached_model(c.data, *table)
        },
        r is Err ==> (match c.data {
            RawColumnData::DictionaryKeys { dict_id, .. } => (*table).lookup(dict_id) is None,
            _ => false,
        }),
        r matches Err(e) ==> e == Error::FormatError,
{
    let data = match c.data {
        RawColumnData::Boolean(v) => ColumnData::Boolean(v),
        RawColumnData::Int64(v) => ColumnData::Int64(v),
        RawColumnData::Float32Bits(v) => ColumnData::Float32Bits(v),
        RawColumnData::Float64Bits(v) => ColumnData::Float64Bits(v),
        RawColumnData::DictionaryKeys { dict_id, keys } => {
            match table.get(dict_id) {
                Some(vals) => ColumnData::Dictionary {
                    dict_id,
                    keys,
                    values: copy_vec(vals),
                },
                None => {
                    return Err(Error::FormatError);
                },
            }
        },
    };
    Ok(ArrayRef { region: region.share(), storage: c.storage, data })
}

/// Decides whether one raw column is acceptable for its schema field.
pub fn check_col(c: &RawColumn, f: &Field, rows: usize, region_len: usize, table: &DictionaryTable)
    -> (b: bool)
    ensures
        b == col_ok(*c, *f, rows as nat, region_len as nat, *table),
{
    if c.data.dtype() != f.dtype {
        return false;
    }
    if c.data.num_rows() != rows {
        return false;
    }
    if c.storage.len > region_len || c.storage.offset > region_len - c.storage.len {
        return false;
    }
    c.data.keys_resolve(table)
}

/// Decides whether a decoded block is acceptable: one column per schema
/// field, each acceptable for its field.
pub fn check_block(
    raw: &RawBlock,
    schema: &Vec<Field>,
    rows: usize,
    region_len: usize,
    table: &DictionaryTable,
) -> (b: bool)
    ensures
        b == block_ok(*raw, schema@, rows as nat, region_len as nat, *table),
{
    if raw.columns.len() != schema.len() {
        return false;
    }
    let mut j: usize = 0;
    while j < schema.len()
        invariant
            j <= schema@.len(),
            raw.columns@.len() == schema@.len(),
            forall|t: int|
                0 <= t < j ==> col_ok(
                    #[trigger] raw.columns@[t],
                    schema@[t],
                    rows as nat,
                    region_len as nat,
                    *table,
                ),
        decreases schema@.len() - j,
    {
        if !check_col(&raw.columns[j], &schema[j], rows, region_len, table) {
            return false;
        }
        j = j + 1;
    }
    true
}

/// An array carries exactly the contents and storage of one raw column,
/// aliased into the given region, with its dictionary attached from the
/// shared table.
pub open spec fn array_assembled(
    a: ArrayRef,
    c: RawColumn,
    region: Seq<u8>,
    table: DictionaryTable,
) -> bool {
    &&& a.region@ == region
    &&& a.storage == c.storage
    &&& a.data@ == attached_model(c.data, table)
}

/// Assembles the full (unprojected) batch for one block: every column of the
/// raw block becomes an array aliasing the region.
pub fn assemble_batch(
    raw: RawBlock,
    region: &MappedRegion,
    table: &DictionaryTable,
    rows: usize,
    schema: &Vec<Field>,
) -> (r: Batch)
    requires
        block_ok(raw, schema@, rows as nat, region@.len(), *table),
    ensures
        r.columns@.len() == raw.columns@.len(),
        forall|j: int|
            0 <= j < raw.columns@.len() ==> array_assembled(
                #[trigger] r.columns@[j],
                raw.columns@[j],
                region@,
                *table,
            ),
        r.row_count == rows,
{
    let ghost raw0 = raw;
    let mut rest = raw.columns;
    let total = rest.len();
    let mut cols: Vec<ArrayRef> = Vec::new();
    let mut j: usize = 0;
    while j < total
        invariant
            total == raw0.columns@.len(),
            j == cols@.len(),
            j <= total,
            rest@ == raw0.columns@.skip(j as int),
            block_ok(raw0, schema@, rows as nat, region@.len(), *table),
            forall|t: int|
                0 <= t < j ==> array_assembled(
                    #[trigger] cols@[t],
                    raw0.columns@[t],
                    region@,
                    *table,
                ),
        decreases total - j,
    {
        proof {
            assert(rest@[0] == raw0.columns@[j as int]);
            assert(col_ok(
                raw0.columns@[j as int],
                schema@[j as int],
                rows as nat,
                region@.len(),
                *table,
            ));
        }
        let c = rest.remove(0);
        match attach_column(c, region, table) {
            Ok(a) => {
                cols.push(a);
            },
            Err(_) => {
                // a dictionary id that check_block resolved cannot be missing
                proof {
                    assert(false);
                }
            },
        }
        proof {
            assert(rest@ =~= raw0.columns@.skip(j as int + 1));
        }
        j = j + 1;
    }
    Batch { columns: cols, row_count: rows }
}

/// The dictionary contents a column observes, if it is dictionary-encoded.
pub open spec fn dict_values_of(m: ColumnModel) -> Option<Seq<i64>> {
    match m {
        ColumnModel::Dictionary { values, .. } => Some(values),
        _ => None,
    }
}

/// The dictionary id a raw column references, if it is dictionary-encoded.
pub open spec fn dict_id_of(d: RawColumnData) -> Option<u64> {
    match d {
        RawColumnData::DictionaryKeys { dict_id, .. } => Some(dict_id),
        _ => None,
    }
}

/// Law: dictionary sharing. Any two arrays — from any two batches — whose
/// raw columns reference the same dictionary id, assembled against the same
/// shared table, observe identical dictionary contents.
pub proof fn lemma_dictionary_sharing(
    a: ArrayRef,
    b: ArrayRef,
    ca: RawColumn,
    cb: RawColumn,
    ra: Seq<u8>,
    rb: Seq<u8>,
    table: DictionaryTable,
    id: u64,
)
    requires
        array_assembled(a, ca, ra, table),
        array_assembled(b, cb, rb, table),
        dict_id_of(ca.data) == Some(id),
        dict_id_of(cb.data) == Some(id),
    ensures
        dict_values_of(a.data@) is Some,
        dict_values_of(a.data@) == dict_values_of(b.data@),
{
}

/// Builds the projected batch from the arrays at the projected indices, in
/// projection order. In the mapped deployment this is a handle clone per
/// projected column, never a copy of column bytes; in this model each array's
/// decoded values, standing in for what its storage aliases, are copied along
/// with the shared region handle.
pub fn project_batch(batch: &Batch, proj: &Vec<usize>) -> (r: Batch)
    requires
        forall|i: int| 0 <= i < proj@.len() ==> (#[trigger] proj@[i]) < batch.columns@.len(),
    ensures
        r.columns@.len() == proj@.len(),
        forall|i: int|
            0 <= i < proj@.len() ==> array_like(
                #[trigger] r.columns@[i],
                batch.columns@[proj@[i] as int],
            ),
        r.row_count == batch.row_count,
{
    let mut cols: Vec<ArrayRef> = Vec::new();
    let mut i: usize = 0;
    while i < proj.len()
        invariant
            i <= proj@.len(),
            cols@.len() == i,
            forall|j: int| 0 <= j < proj@.len() ==> (#[trigger] proj@[j]) < batch.columns@.len(),
            forall|j: int|
                0 <= j < i ==> array_like(#[trigger] cols@[j], batch.columns@[proj@[j] as int]),
        decreases proj@.len() - i,
    {
        cols.push(batch.columns[proj[i]].share());
        i = i + 1;
    }
    Batch { columns: cols, row_count: batch.row_count }
}

} // verus!
