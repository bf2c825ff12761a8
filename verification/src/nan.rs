use crate::column::{ColumnData, ColumnModel};
use crate::error::Error;
use crate::metadata::{field_like, DataType, Field};
use crate::series::Series;
use vstd::prelude::*;

verus! {

/// A stored 64-bit pattern is a NaN: exponent all ones, mantissa nonzero.
pub open spec fn f64_bits_is_nan(b: u64) -> bool {
    (b >> 52) & 0x7ff == 0x7ff && (b & 0xf_ffff_ffff_ffff) != 0
}

/// A stored 32-bit pattern is a NaN: exponent all ones, mantissa nonzero.
pub open spec fn f32_bits_is_nan(b: u32) -> bool {
    (b >> 23) & 0xff == 0xff && (b & 0x7f_ffff) != 0
}

pub fn is_nan_f64_bits(b: u64) -> (r: bool)
    ensures
        r == f64_bits_is_nan(b),
{
    (b >> 52) & 0x7ff == 0x7ff && (b & 0xf_ffff_ffff_ffff) != 0
}

pub fn is_nan_f32_bits(b: u32) -> (r: bool)
    ensures
        r == f32_bits_is_nan(b),
{
    (b >> 23) & 0xff == 0xff && (b & 0x7f_ffff) != 0
}

/// The NaN test applied elementwise to a float column; no other column type
/// supports it.
pub open spec fn nan_mask(d: ColumnModel) -> Option<Seq<bool>> {
    match d {
        ColumnModel::Float32Bits(v) => Some(Seq::new(v.len(), |i: int| f32_bits_is_nan(v[i]))),
        ColumnModel::Float64Bits(v) => Some(Seq::new(v.len(), |i: int| f64_bits_is_nan(v[i]))),
        _ => None,
    }
}

/// A float column with its NaN values filtered out; any other column is kept
/// unchanged.
pub open spec fn without_nans(d: ColumnModel) -> ColumnModel {
    match d {
        ColumnModel::Float32Bits(v) => ColumnModel::Float32Bits(filtered32(v)),
        ColumnModel::Float64Bits(v) => ColumnModel::Float64Bits(filtered64(v)),
        other => other,
    }
}

pub open spec fn filtered64(v: Seq<u64>) -> Seq<u64> {
    v.filter(|b: u64| !f64_bits_is_nan(b))
}

pub open spec fn filtered32(v: Seq<u32>) -> Seq<u32> {
    v.filter(|b: u32| !f32_bits_is_nan(b))
}

proof fn lemma_filtered64_step(v: Seq<u64>, i: int)
    requires
        0 <= i < v.len(),
    ensures
        filtered64(v.take(i + 1)) == if !f64_bits_is_nan(v[i]) {
            filtered64(v.take(i)).push(v[i])
        } else {
            filtered64(v.take(i))
        },
{
    reveal(Seq::filter);
    assert(v.take(i + 1).drop_last() =~= v.take(i));
    assert(v.take(i + 1).last() == v[i]);
}

proof fn lemma_filtered32_step(v: Seq<u32>, i: int)
    requires
        0 <= i < v.len(),
    ensures
        filtered32(v.take(i + 1)) == if !f32_bits_is_nan(v[i]) {
            filtered32(v.take(i)).push(v[i])
        } else {
            filtered32(v.take(i))
        },
{
    reveal(Seq::filter);
    assert(v.take(i + 1).drop_last() =~= v.take(i));
    assert(v.take(i + 1).last() == v[i]);
}

fn nan_mask64(v: &Vec<u64>, negate: bool) -> (r: Vec<bool>)
    ensures
        r@.len() == v@.len(),
        forall|i: int| 0 <= i < v@.len() ==> r@[i] == (f64_bits_is_nan(#[trigger] v@[i]) != negate),
{
    let mut out: Vec<bool> = Vec::new();
    let mut i: usize = 0;
    while i < v.len()
        invariant
            i <= v@.len(),
            out@.len() == i,
            forall|j: int|
                0 <= j < i ==> out@[j] == (f64_bits_is_nan(#[trigger] v@[j]) != negate),
        decreases v@.len() - i,
    {
        out.push(is_nan_f64_bits(v[i]) != negate);
        i = i + 1;
    }
    out
}

fn nan_mask32(v: &Vec<u32>, negate: bool) -> (r: Vec<bool>)
    ensures
        r@.len() == v@.len(),
        forall|i: int| 0 <= i < v@.len() ==> r@[i] == (f32_bits_is_nan(#[trigger] v@[i]) != negate),
{
    let mut out: Vec<bool> = Vec::new();
    let mut i: usize = 0;
    while i < v.len()
        invariant
            i <= v@.len(),
            out@.len() == i,
            forall|j: int|
                0 <= j < i ==> out@[j] == (f32_bits_is_nan(#[trigger] v@[j]) != negate),
        decreases v@.len() - i,
    {
        out.push(is_nan_f32_bits(v[i]) != negate);
        i = i + 1;
    }
    out
}

fn filter_not_nan64(v: Vec<u64>) -> (r: Vec<u64>)
    ensures
        r@ == filtered64(v@),
{
    let mut out: Vec<u64> = Vec::new();
    let mut i: usize = 0;
    proof {
        reveal(Seq::filter);
        assert(v@.take(0) =~= Seq::<u64>::empty());
    }
    while i < v.len()
        invariant
            i <= v@.len(),
            out@ == filtered64(v@.take(i as int)),
        decreases v@.len() - i,
    {
        proof {
            lemma_filtered64_step(v@, i as int);
        }
        if !is_nan_f64_bits(v[i]) {
            out.push(v[i]);
        }
        i = i + 1;
    }
    proof {
        assert(v@.take(v@.len() as int) =~= v@);
    }
    out
}

fn filter_not_nan32(v: Vec<u32>) -> (r: Vec<u32>)
    ensures
        r@ == filtered32(v@),
{
    let mut out: Vec<u32> = Vec::new();
    let mut i: usize = 0;
    proof {
        reveal(Seq::filter);
        assert(v@.take(0) =~= Seq::<u32>::empty());
    }
    while i < v.len()
        invariant
            i <= v@.len(),
            out@ == filtered32(v@.take(i as int)),
        decreases v@.len() - i,
    {
        proof {
            lemma_filtered32_step(v@, i as int);
        }
        if !is_nan_f32_bits(v[i]) {
            out.push(v[i]);
        }
        i = i + 1;
    }
    proof {
        assert(v@.take(v@.len() as int) =~= v@);
    }
    out
}

impl ColumnData {
    /// The elementwise NaN test of a float column (negated when `negate`
    /// holds); no other column type supports it.
    fn try_nan_mask(&self, negate: bool) -> (r: Option<Vec<bool>>)
        ensures
            r is Some <==> nan_mask(self@) is Some,
            r matches Some(m) ==> {
                &&& nan_mask(self@) matches Some(mask)
                &&& m@.len() == mask.len()
                &&& forall|i: int| 0 <= i < mask.len() ==> m@[i] == (mask[i] != negate)
            },
    {
        match self {
            ColumnData::Float64Bits(v) => Some(nan_mask64(v, negate)),
            ColumnData::Float32Bits(v) => Some(nan_mask32(v, negate)),
            _ => None,
        }
    }

    /// This column with its NaN values dropped; a non-float column is kept
    /// unchanged.
    fn drop_nan_values(self) -> (r: ColumnData)
        ensures
            r@ == without_nans(self@),
    {
        match self {
            ColumnData::Float64Bits(v) => ColumnData::Float64Bits(filter_not_nan64(v)),
            ColumnData::Float32Bits(v) => ColumnData::Float32Bits(filter_not_nan32(v)),
            other => other,
        }
    }
}

/// The elementwise is-NaN test: a boolean series under the same name, true
/// exactly where the stored float bits are a NaN. Defined for float columns
/// only.
pub fn is_nan(s: &Series) -> (r: Result<Series, Error>)
    ensures
        r is Ok <==> nan_mask(s.data@) is Some,
        r matches Ok(out) ==> {
            &&& out.name@ == s.name@
            &&& nan_mask(s.data@) matches Some(mask)
            &&& out.data@ == ColumnModel::Boolean(mask)
        },
        r matches Err(e) ==> e == Error::ComputeError,
{
    match s.data.try_nan_mask(false) {
        Some(m) => {
            proof {
                let mask = nan_mask(s.data@)->0;
                assert(m@ =~= mask);
            }
            Ok(Series { name: s.name.clone(), data: ColumnData::Boolean(m) })
        },
        None => Err(Error::ComputeError),
    }
}

/// The elementwise is-not-NaN test, the negation of `is_nan`.
pub fn is_not_nan(s: &Series) -> (r: Result<Series, Error>)
    ensures
        r is Ok <==> nan_mask(s.data@) is Some,
        r matches Ok(out) ==> {
            &&& out.name@ == s.name@
            &&& nan_mask(s.data@) matches Some(mask)
            &&& out.data@ == ColumnModel::Boolean(Seq::new(mask.len(), |i: int| !mask[i]))
        },
        r matches Err(e) ==> e == Error::ComputeError,
{
    match s.data.try_nan_mask(true) {
        Some(m) => {
            proof {
                let mask = nan_mask(s.data@)->0;
                assert(m@ =~= Seq::new(mask.len(), |i: int| !mask[i]));
            }
            Ok(Series { name: s.name.clone(), data: ColumnData::Boolean(m) })
        },
        None => Err(Error::ComputeError),
    }
}

/// Drops the NaN rows of a float series; a series of any other type passes
/// through unchanged. Never fails.
pub fn drop_nans(s: Series) -> (r: Result<Series, Error>)
    ensures
        r matches Ok(out),
        r matches Ok(out) ==> out.name@ == s.name@ && out.data@ == without_nans(s.data@),
{
    let Series { name, data } = s;
    Ok(Series { name, data: data.drop_nan_values() })
}

/// The elementwise NaN transforms, as the expression engine dispatches them.
#[derive(Clone, PartialEq, Debug, Eq, Hash, Structural)]
pub enum NanFunction {
    IsNan,
    IsNotNan,
    DropNans,
}

impl NanFunction {
    /// The schema field of this transform's output: the boolean tests keep
    /// the input's name with a boolean type; dropping NaNs keeps name and
    /// type.
    pub fn get_field(&self, fields: &Vec<Field>) -> (r: Result<Field, Error>)
        requires
            fields@.len() >= 1,
        ensures
            r matches Ok(f),
            r matches Ok(f) ==> {
                &&& f.name@ == fields@[0].name@
                &&& f.dtype == (match self {
                    NanFunction::IsNan => DataType::Boolean,
                    NanFunction::IsNotNan => DataType::Boolean,
                    NanFunction::DropNans => fields@[0].dtype,
                })
            },
    {
        match self {
            NanFunction::IsNan => Ok(Field::new(fields[0].name.clone(), DataType::Boolean)),
            NanFunction::IsNotNan => Ok(Field::new(fields[0].name.clone(), DataType::Boolean)),
            NanFunction::DropNans => {
                let f = fields[0].duplicate();
                proof {
                    assert(field_like(f, fields@[0]));
                }
                Ok(f)
            },
        }
    }

    /// Applies this transform to one series: the dispatch the expression
    /// engine performs when the function is materialized.
    pub fn apply(&self, s: Series) -> (r: Result<Series, Error>)
        ensures
            match self {
                NanFunction::IsNan | NanFunction::IsNotNan => {
                    &&& (r is Ok <==> nan_mask(s.data@) is Some)
                    &&& (r matches Err(e) ==> e == Error::ComputeError)
                },
                NanFunction::DropNans => r is Ok,
            },
            r matches Ok(out) ==> out.name@ == s.name@,
            (self is IsNan && r is Ok) ==> (r matches Ok(out) && {
                &&& nan_mask(s.data@) matches Some(mask)
                &&& out.data@ == ColumnModel::Boolean(mask)
            }),
            (self is IsNotNan && r is Ok) ==> (r matches Ok(out) && {
                &&& nan_mask(s.data@) matches Some(mask)
                &&& out.data@ == ColumnModel::Boolean(Seq::new(mask.len(), |i: int| !mask[i]))
            }),
            (self is DropNans && r is Ok) ==> (r matches Ok(out) && out.data@ == without_nans(
                s.data@,
            )),
    {
        match self {
            NanFunction::IsNan => is_nan(&s),
            NanFunction::IsNotNan => is_not_nan(&s),
            NanFunction::DropNans => drop_nans(s),
        }
    }
}

} // verus!
