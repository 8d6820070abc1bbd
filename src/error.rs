//! Errors of the operation builder and of the data sources.
use vstd::prelude::*;

verus! {

/// The scalar operations that the builder knows.
#[derive(Clone, Copy, Debug, PartialEq, Eq, Structural)]
pub enum OperationKind {
    Add,
    Subtract,
    Cast,
}

/// Backends that are declared but not built.
#[derive(Clone, Copy, Debug, PartialEq, Eq, Structural)]
pub enum Backend {
    Json,
    MySql,
    MsSql,
}

/// The query constraints a source may be asked to apply itself.
#[derive(Clone, Copy, Debug, PartialEq, Eq, Structural)]
pub enum Pushdown {
    Projection,
    Filter,
    Sort,
    Limit,
}

#[derive(Debug, PartialEq, Eq)]
pub enum DataFrameError {
    /// The operation got another number of inputs than it takes.
    Arity { operation: OperationKind, expected: usize, found: usize },
    /// An array-valued column where only scalar columns are supported.
    Shape { operation: OperationKind },
    /// A required argument, such as a cast's target type, was not given.
    MissingArgument { operation: OperationKind },
    /// A requested output type that the operation cannot produce.
    TargetTypeConflict { operation: OperationKind, requested: crate::datatypes::DataType },
    /// A backend that is declared but not implemented.
    UnimplementedBackend(Backend),
    /// A pushdown that the source does not perform itself.
    UnsupportedPushdown(Pushdown),
    /// A projection names a column that the source does not have.
    UnknownColumn(String),
    /// A column position beyond the end of the schema.
    ColumnIndexOutOfRange(usize),
    /// A delimited-file source with neither a given schema nor inference.
    MissingSchema,
    /// A backend column type that has no counterpart among the data types.
    UnsupportedDataType(String),
    /// Opening or reading a file or a database failed.
    Io(String),
}

} // verus!
