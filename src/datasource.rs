//! Data sources and their pushdown capabilities: what a backend applies
//! itself (projection, filtering, sorting, row limits), and the query state
//! it keeps for the batches it will produce.
use vstd::prelude::*;
use vstd::string::*;

use crate::datatypes::{columns_view, Column, ColumnView};
use crate::error::{DataFrameError, Pushdown};
use crate::source::{CsvReadOptions, DataSourceType, Dataset, DatasetView};

verus! {

/// Keep the rows in which this boolean column is true.
#[derive(Debug, PartialEq, Eq)]
pub struct BooleanFilter {
    pub column: String,
}

/// Order rows by one column.
#[derive(Debug, PartialEq, Eq)]
pub struct SortCriteria {
    pub column: String,
    pub descending: bool,
    pub nulls_first: bool,
}

/// The first column of `schema`, from index `j` on, named `name`.
pub open spec fn find_from(schema: Seq<ColumnView>, name: Seq<char>, j: int) -> Option<ColumnView>
    decreases schema.len() - j,
{
    if j < 0 || j >= schema.len() {
        None
    } else if schema[j].name == name {
        Some(schema[j])
    } else {
        find_from(schema, name, j + 1)
    }
}

/// The columns of `schema` named by `names`, in the order of `names`; none
/// where a name matches no column.
pub open spec fn select_columns(schema: Seq<ColumnView>, names: Seq<Seq<char>>) -> Option<
    Seq<ColumnView>,
>
    decreases names.len(),
{
    if names.len() == 0 {
        Some(Seq::empty())
    } else {
        match (select_columns(schema, names.drop_last()), find_from(schema, names.last(), 0)) {
            (Some(s), Some(c)) => Some(s.push(c)),
            _ => None,
        }
    }
}

pub open spec fn names_view(names: Seq<String>) -> Seq<Seq<char>> {
    names.map_values(|s: String| s@)
}

/// A copy of a column list.
pub fn copy_columns(cs: &Vec<Column>) -> (r: Vec<Column>)
    ensures
        columns_view(r@) == columns_view(cs@),
{
    let mut out: Vec<Column> = Vec::new();
    let mut i: usize = 0;
    while i < cs.len()
        invariant
            i <= cs.len(),
            columns_view(out@) =~= columns_view(cs@.subrange(0, i as int)),
        decreases cs.len() - i,
    {
        let c = cs[i].clone();
        let ghost prev = out@;
        out.push(c);
        assert(columns_view(out@) =~= columns_view(prev).push(c@));
        assert(columns_view(cs@.subrange(0, i + 1)) =~= columns_view(cs@.subrange(0, i as int)).push(
            cs@[i as int]@,
        ));
        i = i + 1;
    }
    assert(cs@.subrange(0, i as int) =~= cs@);
    out
}

/// The first column of `schema` named `name`.
pub fn find_column(schema: &Vec<Column>, name: &String) -> (r: Option<Column>)
    ensures
        match r {
            Some(c) => find_from(columns_view(schema@), name@, 0) == Some(c@),
            None => find_from(columns_view(schema@), name@, 0) is None,
        },
{
    let ghost sv = columns_view(schema@);
    let mut j: usize = 0;
    while j < schema.len()
        invariant
            j <= schema.len(),
            sv == columns_view(schema@),
            find_from(sv, name@, 0) == find_from(sv, name@, j as int),
        decreases schema.len() - j,
    {
        assert(sv[j as int] == schema@[j as int]@);
        if schema[j].name == *name {
            return Some(schema[j].clone());
        }
        j = j + 1;
    }
    None
}

/// The columns of `schema` named by `names`, in that order, or the first
/// name that matches no column.
pub fn select_by_name(schema: &Vec<Column>, names: &Vec<String>) -> (r: Result<
    Vec<Column>,
    DataFrameError,
>)
    ensures
        match r {
            Ok(cs) => select_columns(columns_view(schema@), names_view(names@)) == Some(
                columns_view(cs@),
            ),
            Err(e) => select_columns(columns_view(schema@), names_view(names@)) is None
                && e is UnknownColumn,
        },
{
    let ghost sv = columns_view(schema@);
    let mut out: Vec<Column> = Vec::new();
    let mut i: usize = 0;
    while i < names.len()
        invariant
            i <= names.len(),
            sv == columns_view(schema@),
            select_columns(sv, names_view(names@.subrange(0, i as int))) == Some(
                columns_view(out@),
            ),
        decreases names.len() - i,
    {
        let ghost prefix = names_view(names@.subrange(0, i + 1));
        assert(prefix.drop_last() =~= names_view(names@.subrange(0, i as int)));
        assert(prefix.last() == names@[i as int]@);
        match find_column(schema, &names[i]) {
            Some(c) => {
                let ghost prev = out@;
                out.push(c);
                assert(columns_view(out@) =~= columns_view(prev).push(c@));
            },
            None => {
                proof {
                    lemma_select_missing_extends(sv, names_view(names@), i as int + 1);
                    assert(names_view(names@).subrange(0, i + 1) =~= prefix);
                }
                return Err(DataFrameError::UnknownColumn(names[i].clone()));
            },
        }
        i = i + 1;
    }
    assert(names@.subrange(0, i as int) =~= names@);
    Ok(out)
}

/// A prefix of the names that selects nothing makes the whole selection fail.
proof fn lemma_select_missing_extends(schema: Seq<ColumnView>, names: Seq<Seq<char>>, k: int)
    requires
        0 <= k <= names.len(),
        select_columns(schema, names.subrange(0, k)) is None,
    ensures
        select_columns(schema, names) is None,
    decreases names.len() - k,
{
    if k < names.len() {
        assert(names.subrange(0, k + 1).drop_last() =~= names.subrange(0, k));
        lemma_select_missing_extends(schema, names, k + 1);
    } else {
        assert(names.subrange(0, k) =~= names);
    }
}

/// How many rows of a batch of `available` rows to hand out, when
/// `produced` rows were handed out before under the row limit `limit`.
pub fn rows_to_take(limit: Option<usize>, produced: usize, available: usize) -> (r: usize)
    ensures
        r == match limit {
            None => available,
            Some(l) => if produced >= l {
                0
            } else if available <= l - produced {
                available
            } else {
                (l - produced) as usize
            },
        },
        r <= available,
{
    match limit {
        None => available,
        Some(l) => if produced >= l {
            0
        } else if available <= l - produced {
            available
        } else {
            l - produced
        },
    }
}

/// The columns of `schema` at the positions `indices`, in that order; none
/// where an index is out of range.
pub open spec fn select_indices(schema: Seq<ColumnView>, indices: Seq<usize>) -> Option<
    Seq<ColumnView>,
> {
    if forall|k: int| 0 <= k < indices.len() ==> indices[k] < schema.len() {
        Some(Seq::new(indices.len(), |k: int| schema[indices[k] as int]))
    } else {
        None
    }
}

/// The columns of `schema` at the positions `indices`, in that order, or the
/// first index that is out of range.
pub fn select_by_index(schema: &Vec<Column>, indices: &Vec<usize>) -> (r: Result<
    Vec<Column>,
    DataFrameError,
>)
    ensures
        match r {
            Ok(cs) => select_indices(columns_view(schema@), indices@) == Some(columns_view(cs@)),
            Err(e) => select_indices(columns_view(schema@), indices@) is None && (
            e matches DataFrameError::ColumnIndexOutOfRange(j) && indices@.contains(j) && j
                >= schema@.len()),
        },
{
    let ghost sv = columns_view(schema@);
    let mut out: Vec<Column> = Vec::new();
    let mut k: usize = 0;
    while k < indices.len()
        invariant
            k <= indices.len(),
            sv == columns_view(schema@),
            forall|m: int| 0 <= m < k ==> indices@[m] < schema@.len(),
            columns_view(out@) =~= Seq::new(k as nat, |m: int| sv[indices@[m] as int]),
        decreases indices.len() - k,
    {
        let j = indices[k];
        if j >= schema.len() {
            assert(indices@[k as int] == j);
            return Err(DataFrameError::ColumnIndexOutOfRange(j));
        }
        let c = schema[j].clone();
        let ghost prev = out@;
        out.push(c);
        assert(columns_view(out@) =~= columns_view(prev).push(c@));
        k = k + 1;
    }
    Ok(out)
}

/// A copy of a list of column positions.
pub fn copy_indices(v: &Vec<usize>) -> (r: Vec<usize>)
    ensures
        r@ == v@,
{
    let mut out: Vec<usize> = Vec::new();
    let mut i: usize = 0;
    while i < v.len()
        invariant
            i <= v.len(),
            out@ =~= v@.subrange(0, i as int),
        decreases v.len() - i,
    {
        out.push(v[i]);
        i = i + 1;
    }
    assert(v@.subrange(0, i as int) =~= v@);
    out
}

/// A backend that produces batches of rows, and may apply some query
/// constraints itself. Where it does not, it refuses them, and the caller
/// applies them to the batches. By default a backend applies none: each
/// capability flag answers false unless the backend overrides it, and a flag
/// that answers true is true of what the backend does.
pub trait DataSource: Sized {
    spec fn spec_format(&self) -> Seq<char>;

    spec fn spec_supports(&self, p: Pushdown) -> bool;

    /// Whether `s` is the configuration that the source was built from.
    spec fn built_from(&self, s: DataSourceType) -> bool;

    /// The schema as read from the backend.
    spec fn spec_read_schema(&self) -> Seq<ColumnView>;

    /// The schema of the batches, after projection.
    spec fn spec_schema(&self) -> Seq<ColumnView>;

    /// The column names of the last projection that was accepted; empty
    /// where none was.
    spec fn spec_projection(&self) -> Seq<Seq<char>>;

    spec fn spec_limit(&self) -> Option<usize>;

    spec fn spec_dataset_name(&self) -> Seq<char>;

    fn get_dataset(&self) -> (r: Result<Dataset, DataFrameError>)
        ensures
            r matches Ok(d) && d@ == (DatasetView {
                name: self.spec_dataset_name(),
                columns: self.spec_schema(),
            }),
    ;

    /// The configuration the source was built from.
    fn source(&self) -> (r: DataSourceType)
        ensures
            self.built_from(r),
    ;

    /// A short tag of the backend.
    fn format(&self) -> (r: &'static str)
        ensures
            r@ == self.spec_format(),
    ;

    fn schema(&self) -> (r: Vec<Column>)
        ensures
            columns_view(r@) == self.spec_schema(),
    ;

    fn supports_projection(&self) -> (r: bool)
        ensures
            r ==> self.spec_supports(Pushdown::Projection),
    {
        false
    }

    fn supports_filtering(&self) -> (r: bool)
        ensures
            r ==> self.spec_supports(Pushdown::Filter),
    {
        false
    }

    fn supports_sorting(&self) -> (r: bool)
        ensures
            r ==> self.spec_supports(Pushdown::Sort),
    {
        false
    }

    fn supports_limit(&self) -> (r: bool)
        ensures
            r ==> self.spec_supports(Pushdown::Limit),
    {
        false
    }

    /// Produce at most `limit` rows.
    fn limit(&mut self, limit: usize) -> (r: Result<(), DataFrameError>)
        ensures
            old(self).spec_supports(Pushdown::Limit) ==> r is Ok && final(self).spec_limit()
                == Some(limit) && final(self).spec_schema() == old(self).spec_schema()
                && final(self).spec_projection() == old(self).spec_projection(),
            !old(self).spec_supports(Pushdown::Limit) ==> r == Err::<(), DataFrameError>(
                DataFrameError::UnsupportedPushdown(Pushdown::Limit),
            ) && *final(self) == *old(self),
            forall|p: Pushdown| final(self).spec_supports(p) == old(self).spec_supports(p),
            final(self).spec_read_schema() == old(self).spec_read_schema(),
    ;

    fn filter(&mut self, filter: BooleanFilter) -> (r: Result<(), DataFrameError>)
        ensures
            !old(self).spec_supports(Pushdown::Filter) ==> r == Err::<(), DataFrameError>(
                DataFrameError::UnsupportedPushdown(Pushdown::Filter),
            ) && *final(self) == *old(self),
            forall|p: Pushdown| final(self).spec_supports(p) == old(self).spec_supports(p),
    ;

    /// Produce only the named columns, in the order given.
    fn project(&mut self, columns: Vec<String>) -> (r: Result<(), DataFrameError>)
        ensures
            !old(self).spec_supports(Pushdown::Projection) ==> r == Err::<(), DataFrameError>(
                DataFrameError::UnsupportedPushdown(Pushdown::Projection),
            ) && *final(self) == *old(self),
            old(self).spec_supports(Pushdown::Projection) ==> match select_columns(
                old(self).spec_read_schema(),
                names_view(columns@),
            ) {
                Some(s) => r is Ok && final(self).spec_schema() == s && final(self).spec_projection()
                    == names_view(columns@) && final(self).spec_limit() == old(self).spec_limit(),
                None => r matches Err(e) && e is UnknownColumn && *final(self) == *old(self),
            },
            forall|p: Pushdown| final(self).spec_supports(p) == old(self).spec_supports(p),
            final(self).spec_read_schema() == old(self).spec_read_schema(),
    ;

    fn sort(&mut self, criteria: Vec<SortCriteria>) -> (r: Result<(), DataFrameError>)
        ensures
            !old(self).spec_supports(Pushdown::Sort) ==> r == Err::<(), DataFrameError>(
                DataFrameError::UnsupportedPushdown(Pushdown::Sort),
            ) && *final(self) == *old(self),
            forall|p: Pushdown| final(self).spec_supports(p) == old(self).spec_supports(p),
    ;
}

/// Options of a delimited-file source.
pub struct CsvSourceOptions {
    /// Whether to infer the schema from the file where none is given.
    pub infer_schema: bool,
    /// A schema given by the user, used in place of the inferred one.
    pub read_schema: Option<Vec<Column>>,
    pub has_header: bool,
    pub delimiter: Option<u8>,
    /// How many records to read when inferring the schema; all when absent.
    pub max_records: Option<usize>,
    pub batch_size: usize,
    /// Positions of the columns to read; all when absent.
    pub projection: Option<Vec<usize>>,
}

/// The view of the options that a delimited-file source descriptor holds.
pub open spec fn csv_options_match(o: CsvSourceOptions, r: CsvReadOptions) -> bool {
    &&& r.has_headers == o.has_header
    &&& r.delimiter == o.delimiter
    &&& r.max_records == o.max_records
    &&& r.batch_size == o.batch_size
    &&& match (o.projection, r.projection) {
        (None, None) => true,
        (Some(a), Some(b)) => a@ == b@,
        _ => false,
    }
}

/// The schema that a delimited-file source reads before any restriction to
/// column positions: the one given, else the inferred one where inference is
/// asked for.
pub open spec fn csv_base_schema(o: CsvSourceOptions, inferred: Option<Vec<Column>>) -> Option<
    Seq<ColumnView>,
> {
    match o.read_schema {
        Some(s) => Some(columns_view(s@)),
        None => if o.infer_schema && inferred is Some {
            Some(columns_view(inferred->0@))
        } else {
            None
        },
    }
}

/// A delimited-file source. It skips columns and stops after a row limit
/// itself; filtering and sorting are left to the caller.
pub struct CsvDataSource {
    path: String,
    options: CsvSourceOptions,
    projection: Vec<String>,
    limit: Option<usize>,
    read_schema: Vec<Column>,
    projected_schema: Vec<Column>,
}

impl CsvDataSource {
    /// A source over the file at `path`. Its schema is the one given in
    /// `options`, else `inferred` where the options ask for inference,
    /// restricted to the column positions of the options; all those columns
    /// are produced at first.
    pub fn new(path: String, options: CsvSourceOptions, inferred: Option<Vec<Column>>) -> (r:
        Result<CsvDataSource, DataFrameError>)
        ensures
            match csv_base_schema(options, inferred) {
                None => r == Err::<CsvDataSource, DataFrameError>(DataFrameError::MissingSchema),
                Some(base) => match options.projection {
                    None => r matches Ok(src) && src.fresh(path, options, base),
                    Some(idx) => match select_indices(base, idx@) {
                        Some(sel) => r matches Ok(src) && src.fresh(path, options, sel),
                        None => r matches Err(DataFrameError::ColumnIndexOutOfRange(j))
                            && idx@.contains(j) && j >= base.len(),
                    },
                },
            },
    {
        let base = match &options.read_schema {
            Some(s) => copy_columns(s),
            None => {
                if !options.infer_schema {
                    return Err(DataFrameError::MissingSchema);
                }
                match inferred {
                    Some(s) => s,
                    None => {
                        return Err(DataFrameError::MissingSchema);
                    },
                }
            },
        };
        let read_schema = match &options.projection {
            None => base,
            Some(idx) => match select_by_index(&base, idx) {
                Ok(s) => s,
                Err(e) => {
                    return Err(e);
                },
            },
        };
        let projected_schema = copy_columns(&read_schema);
        Ok(
            CsvDataSource {
                path,
                options,
                projection: Vec::new(),
                limit: None,
                read_schema,
                projected_schema,
            },
        )
    }

    /// Built over `path` with `options`, reading `schema`, with no projection
    /// by name and no row limit yet.
    pub open spec fn fresh(&self, path: String, options: CsvSourceOptions, schema: Seq<ColumnView>) -> bool {
        &&& self.spec_read_schema() == schema
        &&& self.spec_schema() == schema
        &&& self.spec_limit() is None
        &&& self.spec_projection().len() == 0
        &&& self.path() == path
        &&& self.spec_options() == options
    }

    pub closed spec fn path(&self) -> String {
        self.path
    }

    pub closed spec fn spec_options(&self) -> CsvSourceOptions {
        self.options
    }

    pub fn file_path(&self) -> (r: &String)
        ensures
            *r == self.path(),
    {
        &self.path
    }

    pub fn options(&self) -> (r: &CsvSourceOptions)
        ensures
            *r == self.spec_options(),
    {
        &self.options
    }

    /// The names of the columns of the last projection that was accepted;
    /// empty where none was.
    pub fn projection(&self) -> (r: &Vec<String>)
        ensures
            names_view(r@) == self.spec_projection(),
    {
        &self.projection
    }

    pub fn row_limit(&self) -> (r: Option<usize>)
        ensures
            r == self.spec_limit(),
    {
        self.limit
    }
}

impl DataSource for CsvDataSource {
    open spec fn spec_format(&self) -> Seq<char> {
        "csv"@
    }

    open spec fn spec_supports(&self, p: Pushdown) -> bool {
        p == Pushdown::Projection || p == Pushdown::Limit
    }

    open spec fn built_from(&self, s: DataSourceType) -> bool {
        s matches DataSourceType::Csv(p, o) && p == self.path() && csv_options_match(
            self.spec_options(),
            o,
        )
    }

    closed spec fn spec_read_schema(&self) -> Seq<ColumnView> {
        columns_view(self.read_schema@)
    }

    closed spec fn spec_schema(&self) -> Seq<ColumnView> {
        columns_view(self.projected_schema@)
    }

    closed spec fn spec_projection(&self) -> Seq<Seq<char>> {
        names_view(self.projection@)
    }

    closed spec fn spec_limit(&self) -> Option<usize> {
        self.limit
    }

    open spec fn spec_dataset_name(&self) -> Seq<char> {
        "csv_source"@
    }

    fn get_dataset(&self) -> (r: Result<Dataset, DataFrameError>) {
        Ok(Dataset { name: String::from_str("csv_source"), columns: copy_columns(&self.projected_schema) })
    }

    fn source(&self) -> (r: DataSourceType) {
        let projection = match &self.options.projection {
            Some(v) => Some(copy_indices(v)),
            None => None,
        };
        DataSourceType::Csv(
            self.path.clone(),
            CsvReadOptions {
                has_headers: self.options.has_header,
                delimiter: self.options.delimiter,
                max_records: self.options.max_records,
                batch_size: self.options.batch_size,
                projection,
            },
        )
    }

    fn format(&self) -> (r: &'static str) {
        "csv"
    }

    fn schema(&self) -> (r: Vec<Column>) {
        copy_columns(&self.projected_schema)
    }

    fn supports_projection(&self) -> (r: bool)
        ensures
            r == self.spec_supports(Pushdown::Projection),
    {
        true
    }

    fn supports_filtering(&self) -> (r: bool)
        ensures
            r == self.spec_supports(Pushdown::Filter),
    {
        false
    }

    fn supports_sorting(&self) -> (r: bool)
        ensures
            r == self.spec_supports(Pushdown::Sort),
    {
        false
    }

    fn supports_limit(&self) -> (r: bool)
        ensures
            r == self.spec_supports(Pushdown::Limit),
    {
        true
    }

    fn limit(&mut self, limit: usize) -> (r: Result<(), DataFrameError>) {
        self.limit = Some(limit);
        Ok(())
    }

    fn filter(&mut self, filter: BooleanFilter) -> (r: Result<(), DataFrameError>) {
        Err(DataFrameError::UnsupportedPushdown(Pushdown::Filter))
    }

    fn project(&mut self, columns: Vec<String>) -> (r: Result<(), DataFrameError>) {
        match select_by_name(&self.read_schema, &columns) {
            Ok(selected) => {
                self.projected_schema = selected;
                self.projection = columns;
                Ok(())
            },
            Err(e) => Err(e),
        }
    }

    fn sort(&mut self, criteria: Vec<SortCriteria>) -> (r: Result<(), DataFrameError>) {
        Err(DataFrameError::UnsupportedPushdown(Pushdown::Sort))
    }
}

/// A delimited-file source pushes down projection and row limits, and neither
/// filtering nor sorting. (By the contract of `DataSource::filter`, a source
/// that does not filter refuses a predicate and keeps its state.)
pub proof fn law_csv_refuses_filtering(s: CsvDataSource)
    ensures
        !s.spec_supports(Pushdown::Filter),
        s.spec_supports(Pushdown::Projection) && s.spec_supports(Pushdown::Limit),
        !s.spec_supports(Pushdown::Sort),
{
}

} // verus!
