use crate::column::ColumnData;
use crate::metadata::DataType;
use vstd::prelude::*;

verus! {

/// A named column of decoded values, as the downstream transforms see it.
pub struct Series {
    pub name: String,
    pub data: ColumnData,
}

impl Series {
    pub fn new(name: String, data: ColumnData) -> (r: Series)
        ensures
            r.name@ == name@,
            r.data == data,
    {
        Series { name, data }
    }

    pub fn dtype(&self) -> (d: DataType)
        ensures
            d == self.data@.dtype(),
    {
        self.data.dtype()
    }

    pub fn len(&self) -> (n: usize)
        ensures
            n == self.data@.len(),
    {
        self.data.num_rows()
    }
}

} // verus!
