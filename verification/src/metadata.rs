use crate::error::Error;
use vstd::prelude::*;

verus! {

/// Logical type of a column.
#[derive(Clone, Copy, Debug, PartialEq, Eq, Structural)]
pub enum DataType {
    Boolean,
    Int64,
    Float32,
    Float64,
    /// A dictionary-encoded column; the payload is the id of the lookup
    /// table that the stored keys index into.
    Dictionary(u64),
}

/// A named column of the schema.
#[derive(Clone, Debug)]
pub struct Field {
    pub name: String,
    pub dtype: DataType,
}

/// Two fields carry the same name and type.
pub open spec fn field_like(a: Field, b: Field) -> bool {
    a.name@ == b.name@ && a.dtype == b.dtype
}

impl Field {
    pub fn new(name: String, dtype: DataType) -> (r: Field)
        ensures
            r.name@ == name@,
            r.dtype == dtype,
    {
        Field { name, dtype }
    }

    /// A fresh field with the same name and type.
    pub fn duplicate(&self) -> (r: Field)
        ensures
            field_like(r, *self),
    {
        Field { name: self.name.clone(), dtype: self.dtype }
    }
}

/// Where one self-contained unit of row data lies in the file.
#[derive(Clone, Copy, Debug, PartialEq, Eq, Structural)]
pub struct BlockDesc {
    pub offset: usize,
    pub length: usize,
    pub row_count: usize,
}

/// Where one dictionary block lies in the file, and which id it defines.
#[derive(Clone, Copy, Debug, PartialEq, Eq, Structural)]
pub struct DictionaryDesc {
    pub id: u64,
    pub offset: usize,
    pub length: usize,
}

/// The description of the file that the header parse yields: schema plus the
/// ordered lists of data blocks and dictionary blocks. Immutable after
/// parsing.
pub struct FileMetadata {
    pub schema: Vec<Field>,
    pub blocks: Vec<BlockDesc>,
    pub dictionaries: Vec<DictionaryDesc>,
}

/// The file's declared total row count: the sum of the row counts of its
/// blocks.
pub open spec fn total_rows(blocks: Seq<BlockDesc>) -> nat
    decreases blocks.len(),
{
    if blocks.len() == 0 {
        0
    } else {
        (total_rows(blocks.drop_last()) + blocks.last().row_count) as nat
    }
}

/// Extending a prefix of the block list by one block adds exactly that
/// block's row count to the running total.
pub proof fn lemma_total_rows_step(blocks: Seq<BlockDesc>, i: int)
    requires
        0 <= i < blocks.len(),
    ensures
        total_rows(blocks.take(i + 1)) == total_rows(blocks.take(i)) + blocks[i].row_count,
{
    assert(blocks.take(i + 1).drop_last() =~= blocks.take(i));
    assert(blocks.take(i + 1).last() == blocks[i]);
}

/// Every index of the projection names a column of a schema of `n` fields.
pub open spec fn proj_in_range(proj: Seq<usize>, n: nat) -> bool {
    forall|i: int| 0 <= i < proj.len() ==> (#[trigger] proj[i]) < n
}

/// The projection, if any, is valid for a schema of `n` fields.
pub open spec fn projection_ok(projection: &Option<Vec<usize>>, n: nat) -> bool {
    match projection {
        Some(p) => proj_in_range(p@, n),
        None => true,
    }
}

/// `out` is the externally visible schema: the raw schema with the
/// projection applied, in projection order, or the full schema in natural
/// order when no projection is given.
pub open spec fn is_visible_schema(
    schema: Seq<Field>,
    projection: &Option<Vec<usize>>,
    out: Seq<Field>,
) -> bool {
    match projection {
        Some(p) => out.len() == p@.len() && (forall|i: int|
            0 <= i < p@.len() ==> field_like(#[trigger] out[i], schema[p@[i] as int])),
        None => out.len() == schema.len() && (forall|i: int|
            0 <= i < schema.len() ==> field_like(#[trigger] out[i], schema[i])),
    }
}

/// Applies the projection to the raw schema. When a projection is present the
/// result holds exactly the projected columns, in projection order; an index
/// outside the schema is the caller's error, reported as such. When no
/// projection is given, the full schema is kept in natural order.
pub fn apply_projection(schema: &Vec<Field>, projection: &Option<Vec<usize>>) -> (r: Result<
    Vec<Field>,
    Error,
>)
    ensures
        r is Ok <==> projection_ok(projection, schema@.len() as nat),
        r matches Ok(out) ==> is_visible_schema(schema@, projection, out@),
        r matches Err(e) ==> e == Error::ProjectionIndexOutOfRange,
{
    if projection.is_some() {
        let p: &Vec<usize> = projection.as_ref().unwrap();
        let mut out: Vec<Field> = Vec::new();
        let mut i: usize = 0;
        while i < p.len()
            invariant
                projection matches Some(pp) && pp@ == p@,
                i <= p@.len(),
                out@.len() == i,
                forall|j: int| 0 <= j < i ==> (#[trigger] p@[j]) < schema@.len(),
                forall|j: int| 0 <= j < i ==> field_like(#[trigger] out@[j], schema@[p@[j] as int]),
            decreases p@.len() - i,
        {
            let idx = p[i];
            if idx >= schema.len() {
                proof {
                    assert(p@[i as int] >= schema@.len());
                    assert(!proj_in_range(p@, schema@.len() as nat));
                }
                return Err(Error::ProjectionIndexOutOfRange);
            }
            out.push(schema[idx].duplicate());
            i = i + 1;
        }
        Ok(out)
    } else {
        let mut out: Vec<Field> = Vec::new();
        let mut i: usize = 0;
        while i < schema.len()
            invariant
                i <= schema@.len(),
                out@.len() == i,
                forall|j: int| 0 <= j < i ==> field_like(#[trigger] out@[j], schema@[j]),
            decreases schema@.len() - i,
        {
            out.push(schema[i].duplicate());
            i = i + 1;
        }
        proof {
            assert(projection is None);
        }
        Ok(out)
    }
}

} // verus!
