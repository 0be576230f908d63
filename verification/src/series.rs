use vstd::prelude::*;

verus! {

/// A named sub-column of a composite column.
#[derive(Debug)]
pub struct Field {
    pub name: String,
    pub data: Series,
}

/// A column: an ordered sequence of slots, each a typed value or missing.
///
/// Floating-point slots hold the IEEE 754 bit pattern of the value (`u32`
/// for 32-bit floats, `u64` for 64-bit floats), so the engine's own logic
/// stays on plain integers; only the scalar codecs interpret the bits.
/// A `Struct` column bundles equal-length named sub-columns sharing row
/// alignment; its sub-columns are themselves plain (non-composite) columns.
#[derive(Debug)]
pub enum Series {
    Utf8(Vec<Option<String>>),
    Binary(Vec<Option<Vec<u8>>>),
    UInt32(Vec<Option<u32>>),
    UInt64(Vec<Option<u64>>),
    Int8(Vec<Option<i8>>),
    Int16(Vec<Option<i16>>),
    Int32(Vec<Option<i32>>),
    Int64(Vec<Option<i64>>),
    Float32(Vec<Option<u32>>),
    Float64(Vec<Option<u64>>),
    Struct(Vec<Field>),
}

/// The kind of a column, for schema declarations: what a planning layer
/// sees of a column without evaluating any row.
#[derive(Debug)]
pub enum DataType {
    Utf8,
    Binary,
    UInt32,
    UInt64,
    Int8,
    Int16,
    Int32,
    Int64,
    Float32,
    Float64,
    Struct(Vec<SchemaField>),
}

/// A named column kind in a schema.
#[derive(Debug)]
pub struct SchemaField {
    pub name: String,
    pub kind: DataType,
}

impl Series {
    /// Length of a plain (non-composite) column; 0 on a composite.
    pub open spec fn spec_plain_len(&self) -> nat {
        match self {
            Series::Utf8(v) => v@.len(),
            Series::Binary(v) => v@.len(),
            Series::UInt32(v) => v@.len(),
            Series::UInt64(v) => v@.len(),
            Series::Int8(v) => v@.len(),
            Series::Int16(v) => v@.len(),
            Series::Int32(v) => v@.len(),
            Series::Int64(v) => v@.len(),
            Series::Float32(v) => v@.len(),
            Series::Float64(v) => v@.len(),
            Series::Struct(_) => 0,
        }
    }

    /// Number of rows.
    pub open spec fn spec_len(&self) -> nat {
        match self {
            Series::Struct(fields) => if fields@.len() == 0 {
                0
            } else {
                fields@[0].data.spec_plain_len()
            },
            _ => self.spec_plain_len(),
        }
    }

    /// A composite column bundles plain sub-columns of one shared length.
    pub open spec fn well_formed(&self) -> bool {
        match self {
            Series::Struct(fields) => forall|i: int|
                0 <= i < fields@.len() ==> !(#[trigger] fields@[i].data is Struct)
                    && fields@[i].data.spec_plain_len() == self.spec_len(),
            _ => true,
        }
    }

    fn plain_len(&self) -> (n: usize)
        ensures
            n == self.spec_plain_len(),
    {
        match self {
            Series::Utf8(v) => v.len(),
            Series::Binary(v) => v.len(),
            Series::UInt32(v) => v.len(),
            Series::UInt64(v) => v.len(),
            Series::Int8(v) => v.len(),
            Series::Int16(v) => v.len(),
            Series::Int32(v) => v.len(),
            Series::Int64(v) => v.len(),
            Series::Float32(v) => v.len(),
            Series::Float64(v) => v.len(),
            Series::Struct(_) => 0,
        }
    }

    /// Number of rows.
    pub fn len(&self) -> (n: usize)
        ensures
            n == self.spec_len(),
    {
        match self {
            Series::Struct(fields) => if fields.len() == 0 {
                0
            } else {
                fields[0].data.plain_len()
            },
            _ => self.plain_len(),
        }
    }
}

} // verus!
