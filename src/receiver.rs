//! Who sends an email and who receives it, one address or a table of them.
use polars::error::PolarsError;
use polars::frame::DataFrame;
use polars::series::Series;
use vstd::prelude::*;

verus! {

#[verifier::external_type_specification]
#[verifier::external_body]
pub struct ExDataFrame(DataFrame);

#[verifier::external_type_specification]
#[verifier::external_body]
pub struct ExPolarsError(PolarsError);

#[verifier::external_type_specification]
#[verifier::external_body]
pub struct ExSeries(Series);

/// The text columns of a data frame, by name: each cell as text, or `None`
/// where it is null.
pub uninterp spec fn frame_text_columns(df: DataFrame) -> Map<Seq<char>, Seq<Option<Seq<char>>>>;

/// The number of rows of a data frame.
pub uninterp spec fn frame_rows(df: DataFrame) -> nat;

/// The characters of an optional string slice.
pub open spec fn opt_str_view(o: Option<&str>) -> Option<Seq<char>> {
    match o {
        Some(s) => Some(s@),
        None => None,
    }
}

/// Relies on polars' `DataFrame::height`: the number of rows, which every
/// column has.
#[verifier::external_body]
fn frame_height(df: &DataFrame) -> (r: usize)
    ensures
        r == frame_rows(*df),
        forall|c: Seq<char>| #[trigger]
            frame_text_columns(*df).contains_key(c) ==> frame_text_columns(*df)[c].len() == r,
{
    df.height()
}

/// Relies on polars' `DataFrame::column` and `Series::utf8`: the cells of
/// the named column, which fails where there is no column of that name or
/// where it does not hold text.
#[verifier::external_body]
fn frame_column<'a>(df: &'a DataFrame, name: &str) -> (r: Result<Vec<Option<&'a str>>, PolarsError>)
    ensures
        match r {
            Ok(cells) => frame_text_columns(*df).contains_key(name@) && cells@.len()
                == frame_text_columns(*df)[name@].len() && forall|k: int|
                0 <= k < cells@.len() ==> opt_str_view(#[trigger] cells@[k])
                    == frame_text_columns(*df)[name@][k],
            Err(_) => !frame_text_columns(*df).contains_key(name@),
        },
{
    Ok(df.column(name)?.utf8()?.into_iter().collect())
}

/// Email address of the sender.
#[derive(Debug, Copy, Clone, PartialEq, Eq)]
pub struct Sender<'a>(pub &'a str);

/// Email address of one receiver.
#[derive(Debug, Copy, Clone, PartialEq, Eq)]
pub struct Receiver<'a>(pub &'a str);

impl<'a> Sender<'a> {
    /// The address.
    pub fn as_str(&self) -> (r: &'a str)
        ensures
            r@ == self.0@,
    {
        self.0
    }
}

impl<'a> Receiver<'a> {
    /// The address.
    pub fn as_str(&self) -> (r: &'a str)
        ensures
            r@ == self.0@,
    {
        self.0
    }
}

/// A lookup in the receiver table that found nothing.
#[derive(Debug, Clone, PartialEq, Eq)]
pub enum ReceiverError {
    /// The table has no text column of this name.
    MissingColumn(String),
    /// The cell of this column in this row is null or out of the table.
    MissingValue { column: String, row: usize },
}

/// Receivers and personalization values, one row per receiver; the
/// addresses are in the column `column_name`.
#[derive(Debug)]
pub struct BulkReceiver {
    pub column_name: String,
    pub df_receiver: DataFrame,
}

impl BulkReceiver {
    /// The text columns of the table, by name.
    pub open spec fn columns(&self) -> Map<Seq<char>, Seq<Option<Seq<char>>>> {
        frame_text_columns(self.df_receiver)
    }

    pub fn new(column_name: String, df_receiver: DataFrame) -> (r: BulkReceiver)
        ensures
            r.column_name@ == column_name@,
            r.df_receiver == df_receiver,
    {
        BulkReceiver { column_name, df_receiver }
    }

    /// The number of rows.
    pub fn height(&self) -> (r: usize)
        ensures
            r == frame_rows(self.df_receiver),
            forall|c: Seq<char>| #[trigger]
                self.columns().contains_key(c) ==> self.columns()[c].len() == r,
    {
        frame_height(&self.df_receiver)
    }

    /// The cells of a column, in row order.
    pub fn column<'a>(&'a self, column_name: &str) -> (r: Result<Vec<Option<&'a str>>, ReceiverError>)
        ensures
            match r {
                Ok(cells) => self.columns().contains_key(column_name@) && cells@.len()
                    == self.columns()[column_name@].len() && forall|k: int|
                    0 <= k < cells@.len() ==> opt_str_view(#[trigger] cells@[k])
                        == self.columns()[column_name@][k],
                Err(e) => !self.columns().contains_key(column_name@) && (e matches ReceiverError::MissingColumn(c) && c@ == column_name@),
            },
    {
        match frame_column(&self.df_receiver, column_name) {
            Ok(cells) => Ok(cells),
            Err(_) => Err(ReceiverError::MissingColumn(String::from_str(column_name))),
        }
    }

    /// The receiver addresses, in row order, null cells included.
    pub fn receiver_column<'a>(&'a self) -> (r: Result<Vec<Option<&'a str>>, ReceiverError>)
        ensures
            match r {
                Ok(cells) => self.columns().contains_key(self.column_name@) && cells@.len()
                    == self.columns()[self.column_name@].len() && forall|k: int|
                    0 <= k < cells@.len() ==> opt_str_view(#[trigger] cells@[k])
                        == self.columns()[self.column_name@][k],
                Err(e) => !self.columns().contains_key(self.column_name@) && (e matches ReceiverError::MissingColumn(c) && c@ == self.column_name@),
            },
    {
        self.column(self.column_name.as_str())
    }

    /// The value of a column in a row.
    pub fn row<'a>(&'a self, index: usize, column_name: &str) -> (r: Result<&'a str, ReceiverError>)
        ensures
            match r {
                Ok(v) => self.columns().contains_key(column_name@) && index
                    < self.columns()[column_name@].len() && self.columns()[column_name@][index as int]
                    == Some(v@),
                Err(ReceiverError::MissingColumn(c)) => c@ == column_name@
                    && !self.columns().contains_key(column_name@),
                Err(ReceiverError::MissingValue { column, row }) => column@ == column_name@ && row
                    == index && self.columns().contains_key(column_name@) && (index
                    >= self.columns()[column_name@].len()
                    || self.columns()[column_name@][index as int] is None),
            },
    {
        let cells = match self.column(column_name) {
            Ok(cells) => cells,
            Err(e) => return Err(e),
        };
        if index < cells.len() {
            match cells[index] {
                Some(v) => return Ok(v),
                None => {},
            }
        }
        Err(ReceiverError::MissingValue { column: String::from_str(column_name), row: index })
    }

    /// The receiver address in a row.
    pub fn receiver_row<'a>(&'a self, index: usize) -> (r: Result<&'a str, ReceiverError>)
        ensures
            r matches Ok(v) ==> self.columns().contains_key(self.column_name@) && index
                < self.columns()[self.column_name@].len()
                && self.columns()[self.column_name@][index as int] == Some(v@),
            r is Err ==> !self.columns().contains_key(self.column_name@) || index
                >= self.columns()[self.column_name@].len()
                || self.columns()[self.column_name@][index as int] is None,
    {
        self.row(index, self.column_name.as_str())
    }
}

/// Where the receiver table comes from.
#[derive(Debug, Clone, Copy, PartialEq, Eq)]
pub enum ReceiverSource {
    /// The result of a database query.
    Query,
    /// A CSV file.
    File,
}

/// Why the receiver arguments do not name one table.
#[derive(Debug, Clone, Copy, PartialEq, Eq)]
pub enum ReceiverSourceError {
    /// Both a query and a file were given.
    Conflict,
    /// Neither a query nor a file was given.
    Missing,
}

impl ReceiverSourceError {
    /// A description that names the arguments concerned.
    pub fn describe(&self) -> &'static str {
        match self {
            ReceiverSourceError::Conflict => {
                "Argument conflict: arguments receiver-query and receiver-file are not allowed at the same time. Check usage via 'pigeon help send-bulk'"
            },
            ReceiverSourceError::Missing => {
                "Missing arguments: please specify argument receiver-query or receiver-file. Check usage via 'pigeon help send-bulk'"
            },
        }
    }
}

impl ReceiverSource {
    /// The source named by the arguments: exactly one of a query and a file.
    pub fn select(has_query: bool, has_file: bool) -> (r: Result<ReceiverSource, ReceiverSourceError>)
        ensures
            r == match (has_query, has_file) {
                (true, false) => Ok::<ReceiverSource, ReceiverSourceError>(ReceiverSource::Query),
                (false, true) => Ok(ReceiverSource::File),
                (true, true) => Err(ReceiverSourceError::Conflict),
                (false, false) => Err(ReceiverSourceError::Missing),
            },
    {
        match (has_query, has_file) {
            (true, false) => Ok(ReceiverSource::Query),
            (false, true) => Ok(ReceiverSource::File),
            (true, true) => Err(ReceiverSourceError::Conflict),
            (false, false) => Err(ReceiverSourceError::Missing),
        }
    }
}

} // verus!
