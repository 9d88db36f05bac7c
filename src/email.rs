//! Emails ready to send: one for a single receiver, or one per row of a
//! receiver table, personalized from the row where asked.
use crate::message::{Message, MessageView};
use crate::mime::{attachment_view, format_error, formatted_as, view_bytes, Attachment, MimeError, MimeFormat};
use crate::receiver::{frame_rows, opt_str_view, BulkReceiver, Receiver, ReceiverError, Sender};
use vstd::prelude::*;

verus! {

/// One email: who sends it, who receives it, its content and its MIME form.
pub struct Email<'a> {
    pub sender: Sender<'a>,
    pub receiver: Receiver<'a>,
    pub message: Message,
    pub mime_format: MimeFormat,
}

/// Whether `e` goes from `sender` to `receiver` with this content, in the
/// MIME form of that content dated `now` (random boundaries).
pub open spec fn email_is(
    e: Email,
    sender: Sender,
    receiver: Seq<char>,
    message: MessageView,
    attachment: Option<(Seq<char>, Seq<u8>)>,
    now: u64,
) -> bool {
    &&& e.sender == sender
    &&& e.receiver.0@ == receiver
    &&& e.message@ == message
    &&& formatted_as(e.mime_format, sender.0@, receiver, message, attachment, now, seq![])
}

impl<'a> Email<'a> {
    pub fn new(sender: Sender<'a>, receiver: Receiver<'a>, message: &Message, mime_format: MimeFormat) -> (r: Email<'a>)
        ensures
            r.sender == sender,
            r.receiver == receiver,
            r.message@ == message@,
            r.mime_format == mime_format,
    {
        Email { sender, receiver, message: message.duplicate(), mime_format }
    }

    /// The email from `sender` to `receiver` with this message and
    /// attachment, in MIME form dated `now` (seconds after the Unix epoch).
    pub fn compose(
        sender: Sender<'a>,
        receiver: Receiver<'a>,
        message: &Message,
        attachment: Option<&Attachment>,
        now: u64,
    ) -> (r: Result<Email<'a>, MimeError>)
        ensures
            match format_error(sender.0@, receiver.0@, message@, view_bytes(attachment_view(attachment)), now, seq![]) {
                Some(e) => r == Err::<Email, MimeError>(e),
                None => r matches Ok(email) && email.receiver == receiver && email_is(
                    email,
                    sender,
                    receiver.0@,
                    message@,
                    attachment_view(attachment),
                    now,
                ),
            },
    {
        match MimeFormat::new(&sender, &receiver, message, attachment, now) {
            Ok(mime_format) => Ok(Email::new(sender, receiver, message, mime_format)),
            Err(e) => Err(e),
        }
    }
}

/// Why the email of one row was not built.
#[derive(Debug, Clone, PartialEq, Eq)]
pub enum RowProblem {
    /// The row has no value in this column.
    MissingValue(String),
    /// The row's email could not be put in MIME form.
    Format(MimeError),
}

/// A row left out of a bulk send, and why.
#[derive(Debug, Clone, PartialEq, Eq)]
pub struct RowError {
    pub row: usize,
    pub problem: RowProblem,
}

/// The content of a [`RowProblem`].
pub enum ProblemView {
    MissingValue(Seq<char>),
    Format(MimeError),
}

impl RowProblem {
    pub open spec fn view(&self) -> ProblemView {
        match self {
            RowProblem::MissingValue(c) => ProblemView::MissingValue(c@),
            RowProblem::Format(e) => ProblemView::Format(*e),
        }
    }
}

/// The emails of a bulk send, in the order of the receiver table, with the
/// row each one comes from, and the rows left out.
pub struct BulkEmail<'a> {
    pub emails: Vec<Email<'a>>,
    pub rows: Vec<usize>,
    pub skipped: Vec<RowError>,
}

/// Why no email of a bulk send could be built.
#[derive(Debug, Clone, PartialEq, Eq)]
pub enum BulkError {
    /// The table has no text column of this name.
    MissingColumn(String),
}

/// The cells that are not null, in order.
pub open spec fn present(cells: Seq<Option<Seq<char>>>) -> Seq<Seq<char>>
    decreases cells.len(),
{
    if cells.len() == 0 {
        seq![]
    } else {
        let rest = present(cells.drop_last());
        match cells.last() {
            Some(v) => rest.push(v),
            None => rest,
        }
    }
}

/// The text of a cell, or nothing where it is null.
pub open spec fn cell_text(cell: Option<Seq<char>>) -> Seq<char> {
    match cell {
        Some(s) => s,
        None => seq![],
    }
}

/// The names of the personalization columns.
pub open spec fn names_of(columns: Seq<&str>) -> Seq<Seq<char>> {
    columns.map_values(|c: &str| c@)
}

/// The values of the named columns in row `k`.
pub open spec fn row_values(
    table: Map<Seq<char>, Seq<Option<Seq<char>>>>,
    names: Seq<Seq<char>>,
    k: int,
) -> Seq<Seq<char>> {
    names.map_values(|n: Seq<char>| cell_text(table[n][k]))
}

/// The message of row `k`: the named columns substituted in order.
pub open spec fn row_message(
    message: MessageView,
    table: Map<Seq<char>, Seq<Option<Seq<char>>>>,
    names: Seq<Seq<char>>,
    k: int,
) -> MessageView {
    message.personalized_all(names, row_values(table, names, k))
}

/// The first of the named columns that has no value in row `k`.
pub open spec fn first_missing(
    table: Map<Seq<char>, Seq<Option<Seq<char>>>>,
    names: Seq<Seq<char>>,
    k: int,
) -> Option<Seq<char>>
    decreases names.len(),
{
    if names.len() == 0 {
        None
    } else if table[names[0]][k] is None {
        Some(names[0])
    } else {
        first_missing(table, names.drop_first(), k)
    }
}

/// Why row `k` of a personalized send gets no email: the first listed
/// column without a value, else a missing address, else the formatting
/// error of its email; `None` when the row gets its email.
pub open spec fn row_problem(
    table: Map<Seq<char>, Seq<Option<Seq<char>>>>,
    rc: Seq<char>,
    names: Seq<Seq<char>>,
    k: int,
    sender: Seq<char>,
    message: MessageView,
    att: Option<(Seq<char>, Seq<u8>)>,
    now: u64,
) -> Option<ProblemView> {
    match first_missing(table, names, k) {
        Some(c) => Some(ProblemView::MissingValue(c)),
        None => if table[rc][k] is None {
            Some(ProblemView::MissingValue(rc))
        } else {
            match format_error(sender, cell_text(table[rc][k]), row_message(message, table, names, k), view_bytes(att), now, seq![]) {
                Some(e) => Some(ProblemView::Format(e)),
                None => None,
            }
        },
    }
}

/// Whether the indices are strictly increasing and below `n`.
pub open spec fn increasing_below(s: Seq<usize>, n: int) -> bool {
    &&& forall|i: int, j: int| 0 <= i < j < s.len() ==> s[i] < s[j]
    &&& forall|i: int| 0 <= i < s.len() ==> s[i] < n
}

/// The rows of the skipped entries.
pub open spec fn skipped_rows(s: Seq<RowError>) -> Seq<usize> {
    s.map_values(|e: RowError| e.row)
}

/// What a bulk send without personalization returns: for every non-null
/// address, in table order, either its email or the error that formatting
/// it met.
pub open spec fn plain_outcome(
    r: Result<BulkEmail, BulkError>,
    sender: Sender,
    bulk_receiver: &BulkReceiver,
    message: MessageView,
    att: Option<(Seq<char>, Seq<u8>)>,
    now: u64,
) -> bool {
    let table = bulk_receiver.columns();
    let rc = bulk_receiver.column_name@;
    match r {
        Ok(b) => {
            &&& table.contains_key(rc)
            &&& b.emails@.len() == b.rows@.len()
            &&& b.rows@.len() + b.skipped@.len() == present(table[rc]).len()
            &&& increasing_below(b.rows@, table[rc].len() as int)
            &&& increasing_below(skipped_rows(b.skipped@), table[rc].len() as int)
            &&& forall|i: int| 0 <= i < b.rows@.len() ==> {
                let k = #[trigger] b.rows@[i];
                &&& table[rc][k as int] is Some
                &&& format_error(sender.0@, cell_text(table[rc][k as int]), message, view_bytes(att), now, seq![]) is None
                &&& email_is(b.emails@[i], sender, cell_text(table[rc][k as int]), message, att, now)
            }
            &&& forall|j: int| 0 <= j < b.skipped@.len() ==> {
                let e = #[trigger] b.skipped@[j];
                &&& table[rc][e.row as int] is Some
                &&& e.problem is Format
                &&& format_error(sender.0@, cell_text(table[rc][e.row as int]), message, view_bytes(att), now, seq![])
                    == Some(e.problem->Format_0)
            }
        },
        Err(BulkError::MissingColumn(c)) => !table.contains_key(rc) && c@ == rc,
    }
}

/// What a personalized bulk send returns: for every row, in table order,
/// either its email or why it has none.
pub open spec fn personalized_outcome(
    r: Result<BulkEmail, BulkError>,
    sender: Sender,
    bulk_receiver: &BulkReceiver,
    message: MessageView,
    names: Seq<Seq<char>>,
    att: Option<(Seq<char>, Seq<u8>)>,
    now: u64,
) -> bool {
    let table = bulk_receiver.columns();
    let rc = bulk_receiver.column_name@;
    let height = frame_rows(bulk_receiver.df_receiver);
    match r {
        Ok(b) => {
            &&& height > 0 ==> table.contains_key(rc) && forall|j: int| 0 <= j < names.len() ==> table.contains_key(#[trigger] names[j])
            &&& b.emails@.len() == b.rows@.len()
            &&& b.rows@.len() + b.skipped@.len() == height
            &&& increasing_below(b.rows@, height as int)
            &&& increasing_below(skipped_rows(b.skipped@), height as int)
            &&& forall|i: int| 0 <= i < b.rows@.len() ==> {
                let k = #[trigger] b.rows@[i];
                &&& row_problem(table, rc, names, k as int, sender.0@, message, att, now) is None
                &&& email_is(b.emails@[i], sender, cell_text(table[rc][k as int]), row_message(message, table, names, k as int), att, now)
            }
            &&& forall|j: int| 0 <= j < b.skipped@.len() ==> {
                let e = #[trigger] b.skipped@[j];
                row_problem(table, rc, names, e.row as int, sender.0@, message, att, now) == Some(e.problem.view())
            }
        },
        Err(BulkError::MissingColumn(c)) => height > 0 && !table.contains_key(c@) && (c@ == rc || names.contains(c@)),
    }
}

proof fn lemma_present_step(cells: Seq<Option<Seq<char>>>, k: int)
    requires
        0 <= k < cells.len(),
    ensures
        present(cells.subrange(0, k + 1)) == match cells[k] {
            Some(v) => present(cells.subrange(0, k)).push(v),
            None => present(cells.subrange(0, k)),
        },
{
    assert(cells.subrange(0, k + 1).drop_last() =~= cells.subrange(0, k));
}

proof fn lemma_personalized_step(message: MessageView, names: Seq<Seq<char>>, values: Seq<Seq<char>>, j: int)
    requires
        0 <= j < names.len(),
    ensures
        message.personalized_all(names.subrange(0, j + 1), values) == message.personalized_all(
            names.subrange(0, j),
            values,
        ).personalized(names[j], values[j]),
{
    assert(names.subrange(0, j + 1).drop_last() =~= names.subrange(0, j));
}

impl<'a> BulkEmail<'a> {
    /// One email per receiver of the table, dated `now`. Without
    /// personalization columns every non-null address gets the message as it
    /// is; with them every row gets the message with `{column}` replaced by
    /// the row's value of each column, in the order given. A row whose email
    /// cannot be built is left out and reported; the other rows still get
    /// theirs.
    pub fn new(
        sender: Sender<'a>,
        bulk_receiver: &'a BulkReceiver,
        message: &Message,
        attachment: Option<&Attachment>,
        personalized_columns: &[&str],
        now: u64,
    ) -> (r: Result<BulkEmail<'a>, BulkError>)
        ensures
            personalized_columns@.len() == 0 ==> plain_outcome(r, sender, bulk_receiver, message@, attachment_view(attachment), now),
            personalized_columns@.len() > 0 ==> personalized_outcome(
                r,
                sender,
                bulk_receiver,
                message@,
                names_of(personalized_columns@),
                attachment_view(attachment),
                now,
            ),
    {
        if personalized_columns.len() == 0 {
            Self::plain(sender, bulk_receiver, message, attachment, now)
        } else {
            Self::personalized(sender, bulk_receiver, message, attachment, personalized_columns, now)
        }
    }

    fn plain(
        sender: Sender<'a>,
        bulk_receiver: &'a BulkReceiver,
        message: &Message,
        attachment: Option<&Attachment>,
        now: u64,
    ) -> (r: Result<BulkEmail<'a>, BulkError>)
        ensures
            plain_outcome(r, sender, bulk_receiver, message@, attachment_view(attachment), now),
    {
        let ghost table = bulk_receiver.columns();
        let ghost rc = bulk_receiver.column_name@;
        let ghost att = attachment_view(attachment);
        let receivers = match bulk_receiver.receiver_column() {
            Ok(cells) => cells,
            Err(ReceiverError::MissingColumn(c)) => return Err(BulkError::MissingColumn(c)),
            Err(ReceiverError::MissingValue { column, .. }) => return Err(BulkError::MissingColumn(column)),
        };
        let ghost cells = table[rc];
        let mut emails: Vec<Email<'a>> = Vec::new();
        let mut rows: Vec<usize> = Vec::new();
        let mut skipped: Vec<RowError> = Vec::new();
        let mut k: usize = 0;
        assert(cells.subrange(0, 0) =~= Seq::<Option<Seq<char>>>::empty());
        while k < receivers.len()
            invariant
                table == bulk_receiver.columns(),
                rc == bulk_receiver.column_name@,
                att == attachment_view(attachment),
                table.contains_key(rc),
                cells == table[rc],
                receivers@.len() == cells.len(),
                forall|j: int| 0 <= j < receivers@.len() ==> opt_str_view(#[trigger] receivers@[j]) == cells[j],
                k <= receivers@.len(),
                emails@.len() == rows@.len(),
                rows@.len() + skipped@.len() == present(cells.subrange(0, k as int)).len(),
                increasing_below(rows@, k as int),
                increasing_below(skipped_rows(skipped@), k as int),
                forall|i: int| 0 <= i < rows@.len() ==> {
                    let k = #[trigger] rows@[i];
                    &&& table[rc][k as int] is Some
                    &&& format_error(sender.0@, cell_text(table[rc][k as int]), message@, view_bytes(att), now, seq![]) is None
                    &&& email_is(emails@[i], sender, cell_text(table[rc][k as int]), message@, att, now)
                },
                forall|j: int| 0 <= j < skipped@.len() ==> {
                    let e = #[trigger] skipped@[j];
                    &&& table[rc][e.row as int] is Some
                    &&& e.problem is Format
                    &&& format_error(sender.0@, cell_text(table[rc][e.row as int]), message@, view_bytes(att), now, seq![])
                        == Some(e.problem->Format_0)
                },
            decreases receivers@.len() - k,
        {
            proof {
                lemma_present_step(cells, k as int);
            }
            match receivers[k] {
                Some(address) => {
                    assert(cells[k as int] == Some(address@));
                    match Email::compose(sender, Receiver(address), message, attachment, now) {
                        Ok(email) => {
                            emails.push(email);
                            rows.push(k);
                        },
                        Err(e) => {
                            let ghost before = skipped@;
                            skipped.push(RowError { row: k, problem: RowProblem::Format(e) });
                            assert(skipped_rows(skipped@) =~= skipped_rows(before).push(k));
                        },
                    }
                },
                None => {},
            }
            k = k + 1;
        }
        assert(cells.subrange(0, k as int) =~= cells);
        Ok(BulkEmail { emails, rows, skipped })
    }

    /// The message of row `k`, from the cells of the personalization
    /// columns, or the first listed column without a value in that row.
    #[verifier::loop_isolation(false)]
    fn row_message_of(
        bulk_receiver: &BulkReceiver,
        message: &Message,
        personalized_columns: &[&str],
        columns: &Vec<Vec<Option<&str>>>,
        k: usize,
    ) -> (r: Result<Message, String>)
        requires
            columns@.len() == personalized_columns@.len(),
            k < frame_rows(bulk_receiver.df_receiver),
            forall|i: int|
                0 <= i < columns@.len() ==> bulk_receiver.columns().contains_key(
                    names_of(personalized_columns@)[i],
                ) && (#[trigger] columns@[i])@.len() == frame_rows(bulk_receiver.df_receiver)
                    && forall|m: int|
                    0 <= m < frame_rows(bulk_receiver.df_receiver) ==> opt_str_view(columns@[i]@[m])
                        == bulk_receiver.columns()[names_of(personalized_columns@)[i]][m],
        ensures
            ({
                let table = bulk_receiver.columns();
                let names = names_of(personalized_columns@);
                match first_missing(table, names, k as int) {
                    Some(c) => r matches Err(col) && col@ == c,
                    None => r matches Ok(m) && m@ == row_message(message@, table, names, k as int),
                }
            }),
    {
        let ghost table = bulk_receiver.columns();
        let ghost names = names_of(personalized_columns@);
        let ghost values = row_values(table, names, k as int);
        let n = personalized_columns.len();
        let mut personal = message.duplicate();
        let mut j: usize = 0;
        assert(names.subrange(0, 0) =~= Seq::<Seq<char>>::empty());
        assert(names.subrange(0, n as int) =~= names);
        while j < n
            invariant
                j <= n,
                n == names.len(),
                first_missing(table, names, k as int) == first_missing(table, names.subrange(j as int, n as int), k as int),
                personal@ == message@.personalized_all(names.subrange(0, j as int), values),
            decreases n - j,
        {
            assert(names[j as int] == personalized_columns@[j as int]@);
            assert(columns@[j as int]@.len() == frame_rows(bulk_receiver.df_receiver));
            assert(names.subrange(j as int, n as int)[0] == names[j as int]);
            assert(names.subrange(j as int, n as int).drop_first() =~= names.subrange(j + 1, n as int));
            let value = match columns[j][k] {
                Some(v) => v,
                None => {
                    return Err(String::from_str(personalized_columns[j]));
                },
            };
            proof {
                lemma_personalized_step(message@, names, values, j as int);
            }
            personal.personalize(personalized_columns[j], value);
            j = j + 1;
        }
        assert(names.subrange(n as int, n as int) =~= Seq::<Seq<char>>::empty());
        Ok(personal)
    }

    /// The email of row `k`, or why the row has none.
    fn row_email(
        sender: Sender<'a>,
        bulk_receiver: &'a BulkReceiver,
        message: &Message,
        attachment: Option<&Attachment>,
        personalized_columns: &[&str],
        receivers: &Vec<Option<&'a str>>,
        columns: &Vec<Vec<Option<&str>>>,
        k: usize,
        now: u64,
    ) -> (r: Result<Email<'a>, RowProblem>)
        requires
            columns@.len() == personalized_columns@.len(),
            k < frame_rows(bulk_receiver.df_receiver),
            bulk_receiver.columns().contains_key(bulk_receiver.column_name@),
            receivers@.len() == frame_rows(bulk_receiver.df_receiver),
            forall|i: int|
                0 <= i < receivers@.len() ==> opt_str_view(#[trigger] receivers@[i])
                    == bulk_receiver.columns()[bulk_receiver.column_name@][i],
            forall|i: int|
                0 <= i < columns@.len() ==> bulk_receiver.columns().contains_key(
                    names_of(personalized_columns@)[i],
                ) && (#[trigger] columns@[i])@.len() == frame_rows(bulk_receiver.df_receiver)
                    && forall|m: int|
                    0 <= m < frame_rows(bulk_receiver.df_receiver) ==> opt_str_view(columns@[i]@[m])
                        == bulk_receiver.columns()[names_of(personalized_columns@)[i]][m],
        ensures
            ({
                let table = bulk_receiver.columns();
                let rc = bulk_receiver.column_name@;
                let names = names_of(personalized_columns@);
                let att = attachment_view(attachment);
                match row_problem(table, rc, names, k as int, sender.0@, message@, att, now) {
                    Some(p) => r matches Err(e) && e.view() == p,
                    None => r matches Ok(email) && email_is(
                        email,
                        sender,
                        cell_text(table[rc][k as int]),
                        row_message(message@, table, names, k as int),
                        att,
                        now,
                    ),
                }
            }),
    {
        let personal = match Self::row_message_of(bulk_receiver, message, personalized_columns, columns, k) {
            Ok(m) => m,
            Err(column) => return Err(RowProblem::MissingValue(column)),
        };
        let address = match receivers[k] {
            Some(a) => a,
            None => return Err(RowProblem::MissingValue(bulk_receiver.column_name.clone())),
        };
        match Email::compose(sender, Receiver(address), &personal, attachment, now) {
            Ok(email) => Ok(email),
            Err(e) => Err(RowProblem::Format(e)),
        }
    }

    fn personalized(
        sender: Sender<'a>,
        bulk_receiver: &'a BulkReceiver,
        message: &Message,
        attachment: Option<&Attachment>,
        personalized_columns: &[&str],
        now: u64,
    ) -> (r: Result<BulkEmail<'a>, BulkError>)
        requires
            personalized_columns@.len() > 0,
        ensures
            personalized_outcome(
                r,
                sender,
                bulk_receiver,
                message@,
                names_of(personalized_columns@),
                attachment_view(attachment),
                now,
            ),
    {
        let ghost table = bulk_receiver.columns();
        let ghost rc = bulk_receiver.column_name@;
        let ghost names = names_of(personalized_columns@);
        let ghost att = attachment_view(attachment);
        let height = bulk_receiver.height();
        let mut emails: Vec<Email<'a>> = Vec::new();
        let mut rows: Vec<usize> = Vec::new();
        let mut skipped: Vec<RowError> = Vec::new();
        if height == 0 {
            return Ok(BulkEmail { emails, rows, skipped });
        }
        let receivers = match bulk_receiver.receiver_column() {
            Ok(cells) => cells,
            Err(ReceiverError::MissingColumn(c)) => return Err(BulkError::MissingColumn(c)),
            Err(ReceiverError::MissingValue { column, .. }) => return Err(BulkError::MissingColumn(column)),
        };
        let n = personalized_columns.len();
        let mut columns: Vec<Vec<Option<&'a str>>> = Vec::new();
        let mut j: usize = 0;
        while j < n
            invariant
                table == bulk_receiver.columns(),
                names == names_of(personalized_columns@),
                n == personalized_columns@.len(),
                names.len() == n,
                j <= n,
                columns@.len() == j,
                height > 0,
                height == frame_rows(bulk_receiver.df_receiver),
                forall|c: Seq<char>| #[trigger] table.contains_key(c) ==> table[c].len() == height,
                forall|i: int|
                    0 <= i < j ==> table.contains_key(names[i]) && (#[trigger] columns@[i])@.len()
                        == height && forall|m: int|
                        0 <= m < height ==> opt_str_view(columns@[i]@[m]) == table[names[i]][m],
            decreases n - j,
        {
            assert(names[j as int] == personalized_columns@[j as int]@);
            let cells = match bulk_receiver.column(personalized_columns[j]) {
                Ok(cells) => cells,
                Err(ReceiverError::MissingColumn(c)) => {
                    assert(names[j as int] == c@);
                    assert(names.contains(c@));
                    return Err(BulkError::MissingColumn(c));
                },
                Err(ReceiverError::MissingValue { column, .. }) => return Err(BulkError::MissingColumn(column)),
            };
            columns.push(cells);
            j = j + 1;
        }
        let mut k: usize = 0;
        while k < height
            invariant
                table == bulk_receiver.columns(),
                rc == bulk_receiver.column_name@,
                names == names_of(personalized_columns@),
                att == attachment_view(attachment),
                n == personalized_columns@.len(),
                names.len() == n,
                height == frame_rows(bulk_receiver.df_receiver),
                forall|c: Seq<char>| #[trigger] table.contains_key(c) ==> table[c].len() == height,
                table.contains_key(rc),
                receivers@.len() == height,
                forall|i: int| 0 <= i < height ==> opt_str_view(#[trigger] receivers@[i]) == table[rc][i],
                columns@.len() == n,
                forall|i: int|
                    0 <= i < n ==> table.contains_key(names[i]) && (#[trigger] columns@[i])@.len()
                        == height && forall|m: int|
                        0 <= m < height ==> opt_str_view(columns@[i]@[m]) == table[names[i]][m],
                k <= height,
                emails@.len() == rows@.len(),
                rows@.len() + skipped@.len() == k,
                increasing_below(rows@, k as int),
                increasing_below(skipped_rows(skipped@), k as int),
                forall|i: int| 0 <= i < rows@.len() ==> {
                    let k = #[trigger] rows@[i];
                    &&& row_problem(table, rc, names, k as int, sender.0@, message@, att, now) is None
                    &&& email_is(emails@[i], sender, cell_text(table[rc][k as int]), row_message(message@, table, names, k as int), att, now)
                },
                forall|j: int| 0 <= j < skipped@.len() ==> {
                    let e = #[trigger] skipped@[j];
                    row_problem(table, rc, names, e.row as int, sender.0@, message@, att, now) == Some(e.problem.view())
                },
            decreases height - k,
        {
            match Self::row_email(sender, bulk_receiver, message, attachment, personalized_columns, &receivers, &columns, k, now) {
                Ok(email) => {
                    emails.push(email);
                    rows.push(k);
                },
                Err(problem) => {
                    let ghost before = skipped@;
                    skipped.push(RowError { row: k, problem });
                    assert(skipped_rows(skipped@) =~= skipped_rows(before).push(k));
                },
            }
            k = k + 1;
        }
        assert forall|j: int| 0 <= j < names.len() implies table.contains_key(#[trigger] names[j]) by {
            assert(columns@[j]@.len() == height);
        }
        Ok(BulkEmail { emails, rows, skipped })
    }
}

} // verus!
