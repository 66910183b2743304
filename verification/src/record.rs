use vstd::prelude::*;

verus! {

/// One column value as fetched from the data store, before decoding.
///
/// The loader only ever sees the three column types of the benchmarked
/// query (eight-byte integers, four-byte integers, text); a value of any
/// other column type is carried as [`RawValue::Other`] and rejected by the
/// schema check.
#[derive(Clone, Debug)]
pub enum RawValue {
    /// An eight-byte integer column value.
    Int8(i64),
    /// A four-byte integer column value.
    Int4(i32),
    /// A text column value.
    Text(String),
    /// A value of a column type outside the expected schema.
    Other,
}

/// The mathematical model of a [`RawValue`].
pub enum ValueModel {
    Int8(int),
    Int4(int),
    Text(Seq<char>),
    Other,
}

impl View for RawValue {
    type V = ValueModel;

    open spec fn view(&self) -> ValueModel {
        match self {
            RawValue::Int8(v) => ValueModel::Int8(*v as int),
            RawValue::Int4(v) => ValueModel::Int4(*v as int),
            RawValue::Text(s) => ValueModel::Text(s@),
            RawValue::Other => ValueModel::Other,
        }
    }
}

/// One fetched column: its name as reported by the data store, and its value.
#[derive(Clone, Debug)]
pub struct RawColumn {
    pub name: String,
    pub value: RawValue,
}

/// The mathematical model of a [`RawColumn`].
#[verifier::ext_equal]
pub struct ColumnModel {
    pub name: Seq<char>,
    pub value: ValueModel,
}

impl View for RawColumn {
    type V = ColumnModel;

    open spec fn view(&self) -> ColumnModel {
        ColumnModel { name: self.name@, value: self.value@ }
    }
}

/// One undecoded row: the named columns of one fetched result row.
#[derive(Clone, Debug)]
pub struct RawRow {
    pub columns: Vec<RawColumn>,
}

impl View for RawRow {
    type V = Seq<ColumnModel>;

    open spec fn view(&self) -> Seq<ColumnModel> {
        self.columns@.map_values(|c: RawColumn| c@)
    }
}

/// One decoded row of the benchmarked query.
///
/// Immutable once constructed; only the integer identifier takes part in
/// the aggregation phase, the remaining fields are stored and exposed
/// without further interpretation.
#[derive(Clone, Debug)]
pub struct Record {
    pub id: i64,
    pub identifier: String,
    pub name: String,
    pub author: String,
    pub release_year: i32,
}

/// The mathematical model of a [`Record`].
#[verifier::ext_equal]
pub struct RecordModel {
    pub id: int,
    pub identifier: Seq<char>,
    pub name: Seq<char>,
    pub author: Seq<char>,
    pub release_year: int,
}

impl View for Record {
    type V = RecordModel;

    open spec fn view(&self) -> RecordModel {
        RecordModel {
            id: self.id as int,
            identifier: self.identifier@,
            name: self.name@,
            author: self.author@,
            release_year: self.release_year as int,
        }
    }
}

/// The expected shape of a fetched row: exactly the five columns of the
/// read statement, by name, in order, each with its expected column type.
pub open spec fn row_matches_schema(row: Seq<ColumnModel>) -> bool {
    &&& row.len() == 5
    &&& row[0].name == "id"@ && row[0].value is Int8
    &&& row[1].name == "identifier"@ && row[1].value is Text
    &&& row[2].name == "name"@ && row[2].value is Text
    &&& row[3].name == "author"@ && row[3].value is Text
    &&& row[4].name == "release_year"@ && row[4].value is Int4
}

/// The record a schema-conforming row decodes to.
pub open spec fn decoded_row(row: Seq<ColumnModel>) -> RecordModel
    recommends
        row_matches_schema(row),
{
    RecordModel {
        id: row[0].value->Int8_0,
        identifier: row[1].value->Text_0,
        name: row[2].value->Text_0,
        author: row[3].value->Text_0,
        release_year: row[4].value->Int4_0,
    }
}

/// Whether a column name equals an expected name.
fn name_is(name: &String, want: &str) -> (r: bool)
    ensures
        r == (name@ == want@),
{
    let w: String = want.to_owned();
    *name == w
}

/// Decodes one fetched row against the expected schema.
///
/// Succeeds exactly on rows that match the schema, and then returns the
/// record read off the row's five columns; any other row is rejected as a
/// decode failure.
pub fn decode_row(row: &RawRow) -> (r: Result<Record, crate::errors::LoadError>)
    ensures
        match r {
            Ok(rec) => row_matches_schema(row@) && rec@ == decoded_row(row@),
            Err(e) => !row_matches_schema(row@) && e == crate::errors::LoadError::DecodeError,
        },
{
    if row.columns.len() != 5 {
        return Err(crate::errors::LoadError::DecodeError);
    }
    let c0 = &row.columns[0];
    let c1 = &row.columns[1];
    let c2 = &row.columns[2];
    let c3 = &row.columns[3];
    let c4 = &row.columns[4];
    if !name_is(&c0.name, "id") || !name_is(&c1.name, "identifier") || !name_is(&c2.name, "name")
        || !name_is(&c3.name, "author") || !name_is(&c4.name, "release_year") {
        return Err(crate::errors::LoadError::DecodeError);
    }
    let id: i64 = match &c0.value {
        RawValue::Int8(v) => *v,
        _ => { return Err(crate::errors::LoadError::DecodeError); },
    };
    let identifier: String = match &c1.value {
        RawValue::Text(s) => s.clone(),
        _ => { return Err(crate::errors::LoadError::DecodeError); },
    };
    let name: String = match &c2.value {
        RawValue::Text(s) => s.clone(),
        _ => { return Err(crate::errors::LoadError::DecodeError); },
    };
    let author: String = match &c3.value {
        RawValue::Text(s) => s.clone(),
        _ => { return Err(crate::errors::LoadError::DecodeError); },
    };
    let release_year: i32 = match &c4.value {
        RawValue::Int4(v) => *v,
        _ => { return Err(crate::errors::LoadError::DecodeError); },
    };
    let rec = Record { id, identifier, name, author, release_year };
    proof {
        assert(rec@ =~= decoded_row(row@));
    }
    Ok(rec)
}

} // verus!
