use dataframe::error::{Backend, Pushdown};
use dataframe::{
    BooleanFilter, Column, ColumnType, CsvDataSource, CsvReadOptions, CsvSourceOptions,
    DataFrameError, DataSource, DataSourceEval, DataSourceType, DataType, Field, Reader,
    SchemaLookup, SortCriteria, SqlDatabase, SqlReadOptions,
};

fn csv_options() -> CsvReadOptions {
    CsvReadOptions {
        has_headers: true,
        delimiter: None,
        max_records: Some(100),
        batch_size: 1024,
        projection: None,
    }
}

fn field(name: &str, t: DataType) -> Field {
    Field { name: name.to_owned(), data_type: t, is_list: false }
}

fn scalar(name: &str, t: DataType) -> Column {
    Column { name: name.to_owned(), column_type: ColumnType::Scalar(t) }
}

fn sql(db: SqlDatabase) -> Reader {
    Reader {
        source: DataSourceType::Sql(
            "people".to_owned(),
            SqlReadOptions { db, connection_string: "postgres://localhost/db".to_owned() },
        ),
    }
}

fn people() -> Vec<Column> {
    vec![scalar("id", DataType::Int64), scalar("name", DataType::Utf8), scalar("age", DataType::UInt8)]
}

fn source_options() -> CsvSourceOptions {
    CsvSourceOptions {
        infer_schema: true,
        read_schema: None,
        has_header: true,
        delimiter: None,
        max_records: Some(100),
        batch_size: 1024,
        projection: None,
    }
}

fn csv_source() -> CsvDataSource {
    CsvDataSource::new("people.csv".to_owned(), source_options(), Some(people())).unwrap()
}

#[test]
fn csv_dataset_keeps_field_order_and_names() {
    let reader = Reader { source: DataSourceType::Csv("people.csv".to_owned(), csv_options()) };
    assert_eq!(reader.schema_lookup(), Ok(SchemaLookup::CsvHeader));
    let d = reader
        .get_dataset(vec![field("id", DataType::Int64), field("name", DataType::Utf8)])
        .unwrap();
    assert_eq!(d.name, "csv_source");
    assert_eq!(d.columns, vec![scalar("id", DataType::Int64), scalar("name", DataType::Utf8)]);
}

#[test]
fn list_fields_become_array_columns() {
    let reader = Reader { source: DataSourceType::Parquet("t.parquet".to_owned()) };
    let d = reader
        .get_dataset(vec![Field { name: "tags".to_owned(), data_type: DataType::Utf8, is_list: true }])
        .unwrap();
    assert_eq!(d.name, "parquet_file_source");
    assert_eq!(
        d.columns,
        vec![Column { name: "tags".to_owned(), column_type: ColumnType::Array(DataType::Utf8) }]
    );
}

#[test]
fn ipc_and_postgres_dataset_names() {
    let ipc = Reader { source: DataSourceType::Arrow("t.arrow".to_owned()) };
    assert_eq!(ipc.schema_lookup(), Ok(SchemaLookup::IpcSchema));
    assert_eq!(ipc.get_dataset(vec![]).unwrap().name, "ipc_file_source");
    let pg = sql(SqlDatabase::Postgres);
    assert_eq!(pg.schema_lookup(), Ok(SchemaLookup::PostgresCatalog));
    assert_eq!(pg.get_dataset(vec![field("id", DataType::Int32)]).unwrap().name, "people");
}

#[test]
fn unbuilt_backends_fail_explicitly() {
    let json = Reader { source: DataSourceType::Json("t.json".to_owned()) };
    assert_eq!(json.schema_lookup(), Err(DataFrameError::UnimplementedBackend(Backend::Json)));
    assert_eq!(
        json.get_dataset(vec![]),
        Err(DataFrameError::UnimplementedBackend(Backend::Json))
    );
    assert_eq!(
        sql(SqlDatabase::MySql).get_dataset(vec![]),
        Err(DataFrameError::UnimplementedBackend(Backend::MySql))
    );
    assert_eq!(
        sql(SqlDatabase::MsSql).schema_lookup(),
        Err(DataFrameError::UnimplementedBackend(Backend::MsSql))
    );
}

#[test]
fn default_delimiter_is_comma() {
    assert_eq!(csv_options().delimiter_byte(), b',');
    let mut o = csv_options();
    o.delimiter = Some(b'|');
    assert_eq!(o.delimiter_byte(), b'|');
}

#[test]
fn csv_capabilities() {
    let s = csv_source();
    assert_eq!(s.format(), "csv");
    assert!(s.supports_projection());
    assert!(!s.supports_filtering());
    assert!(!s.supports_sorting());
    assert!(s.supports_limit());
}

#[test]
fn csv_refuses_filter_and_sort() {
    let mut s = csv_source();
    assert_eq!(
        s.filter(BooleanFilter { column: "active".to_owned() }),
        Err(DataFrameError::UnsupportedPushdown(Pushdown::Filter))
    );
    assert_eq!(
        s.sort(vec![SortCriteria { column: "id".to_owned(), descending: false, nulls_first: true }]),
        Err(DataFrameError::UnsupportedPushdown(Pushdown::Sort))
    );
    assert_eq!(s.schema().len(), 3);
}

#[test]
fn csv_projection_and_limit() {
    let mut s = csv_source();
    assert_eq!(s.limit(10), Ok(()));
    assert_eq!(s.row_limit(), Some(10));
    assert_eq!(s.project(vec!["name".to_owned(), "id".to_owned()]), Ok(()));
    assert_eq!(s.schema(), vec![scalar("name", DataType::Utf8), scalar("id", DataType::Int64)]);
    assert_eq!(s.projection(), &vec!["name".to_owned(), "id".to_owned()]);
    let d = s.get_dataset().unwrap();
    assert_eq!(d.name, "csv_source");
    assert_eq!(d.columns.len(), 2);
    assert_eq!(s.row_limit(), Some(10));
}

#[test]
fn csv_projection_of_unknown_column() {
    let mut s = csv_source();
    assert_eq!(
        s.project(vec!["id".to_owned(), "email".to_owned()]),
        Err(DataFrameError::UnknownColumn("email".to_owned()))
    );
    assert_eq!(s.schema().len(), 3);
}

#[test]
fn csv_explicit_schema_wins() {
    let mut o = source_options();
    o.infer_schema = false;
    o.read_schema = Some(vec![scalar("k", DataType::Utf8)]);
    o.delimiter = Some(b';');
    let s = CsvDataSource::new("p.csv".to_owned(), o, Some(vec![scalar("id", DataType::Int64)]))
        .unwrap();
    assert_eq!(s.schema(), vec![scalar("k", DataType::Utf8)]);
    assert_eq!(s.file_path(), "p.csv");
    assert_eq!(s.options().delimiter, Some(b';'));
}

#[test]
fn csv_column_positions_restrict_the_schema() {
    let mut o = source_options();
    o.read_schema = Some(people());
    o.projection = Some(vec![2, 0]);
    let s = CsvDataSource::new("p.csv".to_owned(), o, None).unwrap();
    assert_eq!(s.schema(), vec![scalar("age", DataType::UInt8), scalar("id", DataType::Int64)]);
    let mut o = source_options();
    o.projection = Some(vec![0, 3]);
    assert!(matches!(
        CsvDataSource::new("p.csv".to_owned(), o, Some(people())),
        Err(DataFrameError::ColumnIndexOutOfRange(3))
    ));
}

#[test]
fn csv_without_schema_or_inference() {
    let mut o = source_options();
    o.infer_schema = false;
    assert!(matches!(
        CsvDataSource::new("p.csv".to_owned(), o, Some(people())),
        Err(DataFrameError::MissingSchema)
    ));
    assert!(matches!(
        CsvDataSource::new("p.csv".to_owned(), source_options(), None),
        Err(DataFrameError::MissingSchema)
    ));
}

#[test]
fn csv_source_descriptor() {
    let mut o = source_options();
    o.projection = Some(vec![1]);
    let s = CsvDataSource::new("people.csv".to_owned(), o, Some(people())).unwrap();
    assert_eq!(
        s.source(),
        DataSourceType::Csv(
            "people.csv".to_owned(),
            CsvReadOptions {
                has_headers: true,
                delimiter: None,
                max_records: Some(100),
                batch_size: 1024,
                projection: Some(vec![1]),
            }
        )
    );
    assert!(s.projection().is_empty());
}

#[test]
fn rows_to_take_under_limit() {
    assert_eq!(dataframe::rows_to_take(None, 5, 7), 7);
    assert_eq!(dataframe::rows_to_take(Some(10), 0, 7), 7);
    assert_eq!(dataframe::rows_to_take(Some(10), 7, 7), 3);
    assert_eq!(dataframe::rows_to_take(Some(10), 10, 7), 0);
}
