use crate::metadata::DataType;
use vstd::prelude::*;

verus! {

/// Decoded column contents as the downstream pipeline observes them. Float
/// columns are carried as raw IEEE 754 bit patterns: this layer never
/// computes with floating point, it only moves and tests the stored bits.
#[derive(Debug, PartialEq)]
pub enum ColumnData {
    Boolean(Vec<bool>),
    Int64(Vec<i64>),
    Float32Bits(Vec<u32>),
    Float64Bits(Vec<u64>),
    /// A dictionary-encoded column: keys index into the shared lookup table
    /// with the given id, whose decoded contents ride along.
    Dictionary { dict_id: u64, keys: Vec<usize>, values: Vec<i64> },
}

/// Mathematical model of decoded column contents.
pub enum ColumnModel {
    Boolean(Seq<bool>),
    Int64(Seq<i64>),
    Float32Bits(Seq<u32>),
    Float64Bits(Seq<u64>),
    Dictionary { dict_id: u64, keys: Seq<usize>, values: Seq<i64> },
}

impl ColumnModel {
    /// Number of rows the column holds.
    pub open spec fn len(self) -> nat {
        match self {
            ColumnModel::Boolean(v) => v.len(),
            ColumnModel::Int64(v) => v.len(),
            ColumnModel::Float32Bits(v) => v.len(),
            ColumnModel::Float64Bits(v) => v.len(),
            ColumnModel::Dictionary { keys, .. } => keys.len(),
        }
    }

    /// Logical type of the column.
    pub open spec fn dtype(self) -> DataType {
        match self {
            ColumnModel::Boolean(_) => DataType::Boolean,
            ColumnModel::Int64(_) => DataType::Int64,
            ColumnModel::Float32Bits(_) => DataType::Float32,
            ColumnModel::Float64Bits(_) => DataType::Float64,
            ColumnModel::Dictionary { dict_id, .. } => DataType::Dictionary(dict_id),
        }
    }
}

impl View for ColumnData {
    type V = ColumnModel;

    open spec fn view(&self) -> ColumnModel {
        match self {
            ColumnData::Boolean(v) => ColumnModel::Boolean(v@),
            ColumnData::Int64(v) => ColumnModel::Int64(v@),
            ColumnData::Float32Bits(v) => ColumnModel::Float32Bits(v@),
            ColumnData::Float64Bits(v) => ColumnModel::Float64Bits(v@),
            ColumnData::Dictionary { dict_id, keys, values } => ColumnModel::Dictionary {
                dict_id: *dict_id,
                keys: keys@,
                values: values@,
            },
        }
    }
}

/// Copies a vector of plain values element by element.
pub fn copy_vec<T: Copy>(v: &Vec<T>) -> (r: Vec<T>)
    ensures
        r@ == v@,
{
    let mut out: Vec<T> = Vec::new();
    let mut i: usize = 0;
    while i < v.len()
        invariant
            i <= v@.len(),
            out@ == v@.take(i as int),
        decreases v@.len() - i,
    {
        out.push(v[i]);
        i = i + 1;
    }
    proof {
        assert(v@.take(v@.len() as int) =~= v@);
    }
    out
}

impl ColumnData {
    pub fn num_rows(&self) -> (n: usize)
        ensures
            n == self@.len(),
    {
        match self {
            ColumnData::Boolean(v) => v.len(),
            ColumnData::Int64(v) => v.len(),
            ColumnData::Float32Bits(v) => v.len(),
            ColumnData::Float64Bits(v) => v.len(),
            ColumnData::Dictionary { keys, .. } => keys.len(),
        }
    }

    pub fn dtype(&self) -> (d: DataType)
        ensures
            d == self@.dtype(),
    {
        match self {
            ColumnData::Boolean(_) => DataType::Boolean,
            ColumnData::Int64(_) => DataType::Int64,
            ColumnData::Float32Bits(_) => DataType::Float32,
            ColumnData::Float64Bits(_) => DataType::Float64,
            ColumnData::Dictionary { dict_id, .. } => DataType::Dictionary(*dict_id),
        }
    }

    /// A fresh column with the same contents.
    pub fn duplicate(&self) -> (r: ColumnData)
        ensures
            r@ == self@,
    {
        match self {
            ColumnData::Boolean(v) => ColumnData::Boolean(copy_vec(v)),
            ColumnData::Int64(v) => ColumnData::Int64(copy_vec(v)),
            ColumnData::Float32Bits(v) => ColumnData::Float32Bits(copy_vec(v)),
            ColumnData::Float64Bits(v) => ColumnData::Float64Bits(copy_vec(v)),
            ColumnData::Dictionary { dict_id, keys, values } => ColumnData::Dictionary {
                dict_id: *dict_id,
                keys: copy_vec(keys),
                values: copy_vec(values),
            },
        }
    }
}

} // verus!
