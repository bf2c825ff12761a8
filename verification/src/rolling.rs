use crate::metadata::DataType;
use vstd::prelude::*;

verus! {

/// How a rolling-skewness request over a column type is carried out: on the
/// column's own float width, after a cast of a numeric column to 64-bit
/// float, or not at all. The floating-point windowed moment itself is the
/// numeric engine's work; this is the dispatch decision.
#[derive(Clone, Copy, Debug, PartialEq, Eq, Structural)]
pub enum RollingPlan {
    UseFloat64,
    UseFloat32,
    CastToFloat64,
    Unsupported,
}

/// Dispatch of a rolling-skewness request: float columns are processed at
/// their own width, other numeric columns are first cast to 64-bit float, and
/// non-numeric columns are rejected.
pub fn rolling_skew_plan(dtype: DataType) -> (r: RollingPlan)
    ensures
        r == (match dtype {
            DataType::Float64 => RollingPlan::UseFloat64,
            DataType::Float32 => RollingPlan::UseFloat32,
            DataType::Int64 => RollingPlan::CastToFloat64,
            _ => RollingPlan::Unsupported,
        }),
{
    match dtype {
        DataType::Float64 => RollingPlan::UseFloat64,
        DataType::Float32 => RollingPlan::UseFloat32,
        DataType::Int64 => RollingPlan::CastToFloat64,
        _ => RollingPlan::Unsupported,
    }
}

/// The element range each rolling window covers: position `i` aggregates the
/// window `[i + 1 - window_size, i + 1)`, and positions with fewer than
/// `window_size` preceding elements yield no value.
pub fn rolling_window_bounds(len: usize, window_size: usize) -> (r: Vec<Option<(usize, usize)>>)
    requires
        window_size >= 1,
    ensures
        r@.len() == len,
        forall|i: int|
            0 <= i < len ==> r@[i] == (if i + 1 < window_size {
                None::<(usize, usize)>
            } else {
                Some(((i + 1 - window_size) as usize, (i + 1) as usize))
            }),
{
    let mut out: Vec<Option<(usize, usize)>> = Vec::new();
    let mut i: usize = 0;
    while i < len
        invariant
            i <= len,
            window_size >= 1,
            out@.len() == i,
            forall|j: int|
                0 <= j < i ==> out@[j] == (if j + 1 < window_size {
                    None::<(usize, usize)>
                } else {
                    Some(((j + 1 - window_size) as usize, (j + 1) as usize))
                }),
        decreases len - i,
    {
        if i + 1 < window_size {
            out.push(None);
        } else {
            out.push(Some((i + 1 - window_size, i + 1)));
        }
        i = i + 1;
    }
    out
}

} // verus!
