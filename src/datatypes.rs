//! The column and type vocabulary shared by every other module.
use vstd::prelude::*;

verus! {

/// Resolution of a time-based type.
#[derive(Clone, Copy, Debug, PartialEq, Eq, Structural)]
pub enum TimeUnit {
    Second,
    Millisecond,
    Microsecond,
    Nanosecond,
}

/// The closed enumeration of primitive and logical value types.
#[derive(Clone, Copy, Debug, PartialEq, Eq, Structural)]
pub enum DataType {
    Null,
    Boolean,
    Int8,
    Int16,
    Int32,
    Int64,
    UInt8,
    UInt16,
    UInt32,
    UInt64,
    Float16,
    Float32,
    Float64,
    Timestamp(TimeUnit),
    Date32,
    Date64,
    Time32(TimeUnit),
    Time64(TimeUnit),
    Duration(TimeUnit),
    Binary,
    LargeBinary,
    Utf8,
    LargeUtf8,
}

/// Whether a column holds one value of its type per row, or an array of them.
#[derive(Clone, Copy, Debug, PartialEq, Eq, Structural)]
pub enum ColumnType {
    Scalar(DataType),
    Array(DataType),
}

impl From<DataType> for ColumnType {
    /// A bare data type describes a scalar column.
    fn from(t: DataType) -> (r: ColumnType)
        ensures
            r == ColumnType::Scalar(t),
    {
        ColumnType::Scalar(t)
    }
}

impl vstd::std_specs::convert::FromSpecImpl<DataType> for ColumnType {
    open spec fn obeys_from_spec() -> bool {
        true
    }

    open spec fn from_spec(t: DataType) -> ColumnType {
        ColumnType::Scalar(t)
    }
}

/// A named, typed column.
#[derive(Debug, PartialEq, Eq)]
pub struct Column {
    pub name: String,
    pub column_type: ColumnType,
}

/// What a column is, mathematically: its name and its type.
pub struct ColumnView {
    pub name: Seq<char>,
    pub column_type: ColumnType,
}

impl View for Column {
    type V = ColumnView;

    open spec fn view(&self) -> ColumnView {
        ColumnView { name: self.name@, column_type: self.column_type }
    }
}

impl Clone for Column {
    fn clone(&self) -> (r: Column)
        ensures
            r == *self,
    {
        Column { name: self.name.clone(), column_type: self.column_type }
    }
}

impl Column {
    pub fn new(name: String, column_type: ColumnType) -> (r: Column)
        ensures
            r.name == name,
            r.column_type == column_type,
    {
        Column { name, column_type }
    }
}

/// The views of a sequence of columns, in order.
pub open spec fn columns_view(cs: Seq<Column>) -> Seq<ColumnView> {
    cs.map_values(|c: Column| c@)
}

} // verus!
