//! Logical-plan construction core of a tabular data engine: a typed column
//! model, scalar operations that build a node sequence of an operation graph
//! (inserting casts where operand types differ), and the schema-resolution
//! and pushdown rules of the data sources.
pub mod datasource;
pub mod datatypes;
pub mod error;
pub mod operation;
pub mod source;

pub use datasource::{
    BooleanFilter, CsvDataSource, CsvSourceOptions, DataSource, SortCriteria, rows_to_take,
};
pub use datatypes::{Column, ColumnType, DataType, TimeUnit};
pub use error::DataFrameError;
pub use operation::{
    AddOperation, CastOperation, Expression, Operation, ScalarExpression, ScalarOperation,
    SubtractOperation,
};
pub use source::{
    CsvReadOptions, DataSourceEval, DataSourceType, Dataset, Field, Reader, SchemaLookup,
    SqlDatabase, SqlReadOptions,
};
