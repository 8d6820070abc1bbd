//! Source descriptors and schema resolution: which backend a source is read
//! from, and how a backend's field list becomes a `Dataset`.
use vstd::prelude::*;
use vstd::string::*;

use crate::datatypes::{columns_view, Column, ColumnType, ColumnView, DataType};
use crate::error::{Backend, DataFrameError};

verus! {

/// The default field separator of a delimited file.
pub const COMMA: u8 = 44;

/// The database dialects a table source can name.
#[derive(Clone, Copy, Debug, PartialEq, Eq, Structural)]
pub enum SqlDatabase {
    Postgres,
    MsSql,
    MySql,
}

#[derive(Debug, PartialEq, Eq)]
pub struct SqlReadOptions {
    pub db: SqlDatabase,
    pub connection_string: String,
}

/// Options of a delimited-file source.
#[derive(Debug, PartialEq, Eq)]
pub struct CsvReadOptions {
    pub has_headers: bool,
    pub delimiter: Option<u8>,
    /// How many records to read when inferring the schema; all when absent.
    pub max_records: Option<usize>,
    pub batch_size: usize,
    /// Indices of the columns to read; all when absent.
    pub projection: Option<Vec<usize>>,
}

impl CsvReadOptions {
    pub open spec fn spec_delimiter(&self) -> u8 {
        match self.delimiter {
            Some(d) => d,
            None => COMMA,
        }
    }

    /// The field separator: the one given, else a comma.
    pub fn delimiter_byte(&self) -> (r: u8)
        ensures
            r == self.spec_delimiter(),
    {
        match self.delimiter {
            Some(d) => d,
            None => COMMA,
        }
    }
}

/// The backend a source is read from, with its configuration.
#[derive(Debug, PartialEq, Eq)]
pub enum DataSourceType {
    Csv(String, CsvReadOptions),
    Json(String),
    Parquet(String),
    Arrow(String),
    Sql(String, SqlReadOptions),
}

/// The externally visible schema of a source.
#[derive(Debug, PartialEq, Eq)]
pub struct Dataset {
    pub name: String,
    pub columns: Vec<Column>,
}

pub struct DatasetView {
    pub name: Seq<char>,
    pub columns: Seq<ColumnView>,
}

impl View for Dataset {
    type V = DatasetView;

    open spec fn view(&self) -> DatasetView {
        DatasetView { name: self.name@, columns: columns_view(self.columns@) }
    }
}

/// One field of a backend's schema: its name, its value type, and whether
/// each row holds a list of such values.
#[derive(Debug, PartialEq, Eq)]
pub struct Field {
    pub name: String,
    pub data_type: DataType,
    pub is_list: bool,
}

/// The column that a backend field becomes.
pub open spec fn column_of_field(f: Field) -> ColumnView {
    ColumnView {
        name: f.name@,
        column_type: if f.is_list {
            ColumnType::Array(f.data_type)
        } else {
            ColumnType::Scalar(f.data_type)
        },
    }
}

/// Field `i` of the backend schema becomes column `i`.
pub open spec fn columns_of_fields(fs: Seq<Field>) -> Seq<ColumnView> {
    fs.map_values(|f: Field| column_of_field(f))
}

/// The columns of a backend schema, in its order.
pub fn columns_from_fields(fields: &Vec<Field>) -> (r: Vec<Column>)
    ensures
        columns_view(r@) == columns_of_fields(fields@),
{
    let mut out: Vec<Column> = Vec::new();
    let mut i: usize = 0;
    while i < fields.len()
        invariant
            i <= fields.len(),
            columns_view(out@) =~= columns_of_fields(fields@.subrange(0, i as int)),
        decreases fields.len() - i,
    {
        let f = &fields[i];
        let column_type = if f.is_list {
            ColumnType::Array(f.data_type)
        } else {
            ColumnType::Scalar(f.data_type)
        };
        let c = Column { name: f.name.clone(), column_type };
        let ghost prev = out@;
        out.push(c);
        assert(columns_view(out@) =~= columns_view(prev).push(c@));
        assert(columns_of_fields(fields@.subrange(0, i + 1)) =~= columns_of_fields(
            fields@.subrange(0, i as int),
        ).push(column_of_field(fields@[i as int])));
        i = i + 1;
    }
    assert(fields@.subrange(0, i as int) =~= fields@);
    out
}

/// How a backend's schema is read, without reading its rows.
#[derive(Clone, Copy, Debug, PartialEq, Eq, Structural)]
pub enum SchemaLookup {
    /// Infer from the header and a bounded sample of a delimited file.
    CsvHeader,
    /// Read the metadata embedded in a columnar file.
    ParquetMetadata,
    /// Read the schema at the head of an IPC file.
    IpcSchema,
    /// Query the catalog of a PostgreSQL database for the table.
    PostgresCatalog,
}

/// Resolves a source to its dataset.
pub trait DataSourceEval {
    /// How the schema is read, or why it cannot be.
    spec fn spec_lookup(&self) -> Result<SchemaLookup, DataFrameError>;

    spec fn spec_dataset_name(&self) -> Seq<char>;

    fn schema_lookup(&self) -> (r: Result<SchemaLookup, DataFrameError>)
        ensures
            r == self.spec_lookup(),
    ;

    /// The dataset whose columns are `fields`, the schema that the lookup
    /// found, field for field and in order.
    fn get_dataset(&self, fields: Vec<Field>) -> (r: Result<Dataset, DataFrameError>)
        ensures
            match r {
                Ok(d) => self.spec_lookup() is Ok && d@ == (DatasetView {
                    name: self.spec_dataset_name(),
                    columns: columns_of_fields(fields@),
                }),
                Err(e) => self.spec_lookup() == Err::<SchemaLookup, DataFrameError>(e),
            },
    ;
}

/// A source to be resolved.
#[derive(Debug, PartialEq, Eq)]
pub struct Reader {
    pub source: DataSourceType,
}

impl DataSourceEval for Reader {
    open spec fn spec_lookup(&self) -> Result<SchemaLookup, DataFrameError> {
        match self.source {
            DataSourceType::Csv(_, _) => Ok(SchemaLookup::CsvHeader),
            DataSourceType::Json(_) => Err(DataFrameError::UnimplementedBackend(Backend::Json)),
            DataSourceType::Parquet(_) => Ok(SchemaLookup::ParquetMetadata),
            DataSourceType::Arrow(_) => Ok(SchemaLookup::IpcSchema),
            DataSourceType::Sql(_, options) => match options.db {
                SqlDatabase::Postgres => Ok(SchemaLookup::PostgresCatalog),
                SqlDatabase::MsSql => Err(DataFrameError::UnimplementedBackend(Backend::MsSql)),
                SqlDatabase::MySql => Err(DataFrameError::UnimplementedBackend(Backend::MySql)),
            },
        }
    }

    open spec fn spec_dataset_name(&self) -> Seq<char> {
        match self.source {
            DataSourceType::Csv(_, _) => "csv_source"@,
            DataSourceType::Parquet(_) => "parquet_file_source"@,
            DataSourceType::Arrow(_) => "ipc_file_source"@,
            DataSourceType::Sql(table, _) => table@,
            DataSourceType::Json(_) => Seq::empty(),
        }
    }

    fn schema_lookup(&self) -> (r: Result<SchemaLookup, DataFrameError>) {
        match &self.source {
            DataSourceType::Csv(_, _) => Ok(SchemaLookup::CsvHeader),
            DataSourceType::Json(_) => Err(DataFrameError::UnimplementedBackend(Backend::Json)),
            DataSourceType::Parquet(_) => Ok(SchemaLookup::ParquetMetadata),
            DataSourceType::Arrow(_) => Ok(SchemaLookup::IpcSchema),
            DataSourceType::Sql(_, options) => match options.db {
                SqlDatabase::Postgres => Ok(SchemaLookup::PostgresCatalog),
                SqlDatabase::MsSql => Err(DataFrameError::UnimplementedBackend(Backend::MsSql)),
                SqlDatabase::MySql => Err(DataFrameError::UnimplementedBackend(Backend::MySql)),
            },
        }
    }

    fn get_dataset(&self, fields: Vec<Field>) -> (r: Result<Dataset, DataFrameError>) {
        let name = match &self.source {
            DataSourceType::Csv(_, _) => String::from_str("csv_source"),
            DataSourceType::Parquet(_) => String::from_str("parquet_file_source"),
            DataSourceType::Arrow(_) => String::from_str("ipc_file_source"),
            DataSourceType::Sql(table, _) => match self.schema_lookup() {
                Ok(_) => table.clone(),
                Err(e) => {
                    return Err(e);
                },
            },
            DataSourceType::Json(_) => {
                return Err(DataFrameError::UnimplementedBackend(Backend::Json));
            },
        };
        Ok(Dataset { name, columns: columns_from_fields(&fields) })
    }
}

/// Declared but unbuilt backends fail with an error that names them, never
/// with an empty dataset.
pub proof fn law_unbuilt_backends_fail(reader: Reader)
    ensures
        reader.source is Json ==> reader.spec_lookup() == Err::<SchemaLookup, DataFrameError>(
            DataFrameError::UnimplementedBackend(Backend::Json),
        ),
        reader.source matches DataSourceType::Sql(_, o) && o.db == SqlDatabase::MySql
            ==> reader.spec_lookup() == Err::<SchemaLookup, DataFrameError>(
            DataFrameError::UnimplementedBackend(Backend::MySql),
        ),
        reader.source matches DataSourceType::Sql(_, o) && o.db == SqlDatabase::MsSql
            ==> reader.spec_lookup() == Err::<SchemaLookup, DataFrameError>(
            DataFrameError::UnimplementedBackend(Backend::MsSql),
        ),
{
}

} // verus!
