//! The message store: what each operation makes of the rows that its query
//! brings back.
//!
//! The caller runs the query and fetches; the store decides. For a listing or
//! an update the caller hands each [`Fetched`] to [`Reader::step`] until it is
//! told that the operation is done. For a creation the first thing fetched
//! settles the result, see [`created`].

use vstd::prelude::*;
use neo4rs::Row;
use crate::error::{Failure, StoreError};
use crate::message::{views, Message, MessageView};
use crate::record::{row_message, row_to_message};

verus! {

/// What one attempt to fetch from a running query brought.
pub enum Fetched {
    /// The next row.
    Row(Row),
    /// Nothing: the rows are through.
    End,
    /// A failure of the backend, with its message. Running the query may fail
    /// so, and each fetch after it.
    Failed(String),
}

/// How an operation ends, as mathematical values.
pub type Outcome = Result<Seq<MessageView>, Failure>;

/// What a [`Progress`] is, as mathematical values.
pub enum ProgressView {
    /// Fetch again; these records are read so far.
    More(Seq<MessageView>),
    /// The operation is done.
    Done(Outcome),
}

/// The records of a listing or an update, as far as they are read.
pub struct Reader {
    messages: Vec<Message>,
}

/// What the caller of [`Reader::step`] does next.
pub enum Progress {
    /// Fetch again, and hand what comes to this reader.
    More(Reader),
    /// Stop: this is the result of the operation.
    Done(Result<Vec<Message>, StoreError>),
}

impl View for Reader {
    type V = Seq<MessageView>;

    closed spec fn view(&self) -> Seq<MessageView> {
        views(self.messages@)
    }
}

/// The result of an operation, as mathematical values.
pub open spec fn outcome_of(result: Result<Vec<Message>, StoreError>) -> Outcome {
    match result {
        Ok(messages) => Ok(views(messages@)),
        Err(error) => Err(error@),
    }
}

impl View for Progress {
    type V = ProgressView;

    open spec fn view(&self) -> ProgressView {
        match self {
            Progress::More(reader) => ProgressView::More(reader@),
            Progress::Done(result) => ProgressView::Done(outcome_of(*result)),
        }
    }
}

/// One step of a listing or an update, after `read` is read. A row that holds
/// a record adds it at the end. A row that holds none ends the operation with
/// the decode failure of that row, and what was read is dropped. The end of the rows ends it
/// with what was read, in the order of arrival. A failure of the backend ends
/// it with that failure.
pub open spec fn advance(read: Seq<MessageView>, fetched: Fetched) -> ProgressView {
    match fetched {
        Fetched::Row(row) => match row_message(row) {
            Ok(record) => ProgressView::More(read.push(record)),
            Err(error) => ProgressView::Done(Err(Failure::Decode(error))),
        },
        Fetched::End => ProgressView::Done(Ok(read)),
        Fetched::Failed(message) => ProgressView::Done(Err(Failure::Backend(message@))),
    }
}

/// The result of a creation, given the first thing fetched: the record of the
/// row, its decode failure where the row holds none, `NoResult` where no row
/// came, or the failure of the backend.
pub open spec fn creation(fetched: Fetched) -> Result<MessageView, Failure> {
    match fetched {
        Fetched::Row(row) => match row_message(row) {
            Ok(record) => Ok(record),
            Err(error) => Err(Failure::Decode(error)),
        },
        Fetched::End => Err(Failure::NoResult),
        Fetched::Failed(message) => Err(Failure::Backend(message@)),
    }
}

impl Reader {
    /// A reader that has read nothing yet.
    pub fn new() -> (reader: Reader)
        ensures
            reader@ == Seq::<MessageView>::empty(),
    {
        Reader { messages: Vec::new() }
    }

    /// Takes what was fetched and says how the operation goes on.
    pub fn step(self, fetched: Fetched) -> (progress: Progress)
        ensures
            progress@ == advance(self@, fetched),
    {
        let mut messages = self.messages;
        match fetched {
            Fetched::Row(row) => match row_to_message(&row) {
                Ok(message) => {
                    proof {
                        assert(views(messages@.push(message)) =~= views(messages@).push(message@));
                    }
                    messages.push(message);
                    Progress::More(Reader { messages })
                },
                Err(error) => Progress::Done(Err(error)),
            },
            Fetched::End => Progress::Done(Ok(messages)),
            Fetched::Failed(message) => Progress::Done(Err(StoreError::Backend(message))),
        }
    }
}

/// The result of a creation, given the first thing fetched after its query
/// was run.
pub fn created(fetched: Fetched) -> (r: Result<Message, StoreError>)
    ensures
        match creation(fetched) {
            Ok(record) => r matches Ok(message) && message@ == record,
            Err(failure) => r matches Err(error) && error@ == failure,
        },
{
    match fetched {
        Fetched::Row(row) => row_to_message(&row),
        Fetched::End => Err(StoreError::NoResult),
        Fetched::Failed(message) => Err(StoreError::Backend(message)),
    }
}

/// The result of a listing or an update that has read `read` and is handed
/// `fetched`, one after the other; `None` while the operation is not done.
/// What follows the step that ends it is not looked at.
pub open spec fn run(read: Seq<MessageView>, fetched: Seq<Fetched>) -> Option<Outcome>
    decreases fetched.len(),
{
    if fetched.len() == 0 {
        None
    } else {
        match advance(read, fetched.first()) {
            ProgressView::More(next) => run(next, fetched.drop_first()),
            ProgressView::Done(outcome) => Some(outcome),
        }
    }
}

/// The rows, each as something fetched, and then the end.
pub open spec fn rows_then_end(rows: Seq<Row>) -> Seq<Fetched> {
    rows.map_values(|row: Row| Fetched::Row(row)).push(Fetched::End)
}

/// The records that the rows hold, in the same order.
pub open spec fn records_of(rows: Seq<Row>) -> Seq<MessageView> {
    rows.map_values(|row: Row| row_message(row)->Ok_0)
}

/// A query that matches nothing succeeds with no record: where the rows end
/// before the first, the result is the empty sequence and no failure.
pub proof fn law_no_row_gives_empty_success()
    ensures
        run(Seq::empty(), rows_then_end(Seq::empty())) == Some(Ok::<Seq<MessageView>, Failure>(Seq::empty())),
{
    let fetched = rows_then_end(Seq::empty());
    assert(fetched.len() == 1);
    assert(fetched.first() == Fetched::End);
}

/// Where every row holds a record, the operation succeeds with exactly the
/// records of the rows, one for each row, in the order in which they came,
/// after those that were read before.
pub proof fn law_rows_come_back_in_order(read: Seq<MessageView>, rows: Seq<Row>)
    requires
        forall|i: int| 0 <= i < rows.len() ==> row_message(#[trigger] rows[i]) is Ok,
    ensures
        run(read, rows_then_end(rows)) == Some(Ok::<Seq<MessageView>, Failure>(read + records_of(rows))),
    decreases rows.len(),
{
    let fetched = rows_then_end(rows);
    if rows.len() == 0 {
        assert(fetched.first() == Fetched::End);
        assert(read + records_of(rows) =~= read);
    } else {
        let rest = rows.drop_first();
        assert(fetched.first() == Fetched::Row(rows.first()));
        assert(fetched.drop_first() =~= rows_then_end(rest));
        assert(row_message(rows[0]) is Ok);
        let record = row_message(rows.first())->Ok_0;
        assert forall|i: int| 0 <= i < rest.len() implies row_message(#[trigger] rest[i]) is Ok by {
            assert(rest[i] == rows[i + 1]);
        }
        law_rows_come_back_in_order(read.push(record), rest);
        assert(read.push(record) + records_of(rest) =~= read + records_of(rows));
    }
}

/// Every row is listed once, at its place: where every row holds a record,
/// the result has as many records as there were rows, and the record at each
/// place is that of the row that came at that place.
pub proof fn law_each_row_is_listed(rows: Seq<Row>, i: int)
    requires
        forall|j: int| 0 <= j < rows.len() ==> row_message(#[trigger] rows[j]) is Ok,
        0 <= i < rows.len(),
    ensures
        run(Seq::empty(), rows_then_end(rows)) matches Some(Ok(listed)) && listed.len() == rows.len()
            && listed[i] == row_message(rows[i])->Ok_0,
{
    law_rows_come_back_in_order(Seq::empty(), rows);
    assert(Seq::<MessageView>::empty() + records_of(rows) =~= records_of(rows));
}

/// An update that the backend answers with one row gives exactly one record,
/// that of the row.
pub proof fn law_one_row_gives_one_record(row: Row)
    requires
        row_message(row) is Ok,
    ensures
        run(Seq::empty(), rows_then_end(seq![row])) == Some(
            Ok::<Seq<MessageView>, Failure>(seq![row_message(row)->Ok_0]),
        ),
{
    let rows = seq![row];
    law_rows_come_back_in_order(Seq::empty(), rows);
    assert(Seq::<MessageView>::empty() + records_of(rows) =~= seq![row_message(row)->Ok_0]);
}

/// A creation that the backend answers with a row gives the record of that
/// row: identifier and text are the row's, unchanged.
pub proof fn law_created_record_is_the_rows(row: Row)
    requires
        row_message(row) is Ok,
    ensures
        creation(Fetched::Row(row)) == Ok::<MessageView, Failure>(row_message(row)->Ok_0),
{
}

/// The first row that holds no record ends the operation with the decode
/// failure of that row, whatever came before it and whatever would follow.
pub proof fn law_bad_row_fails(read: Seq<MessageView>, rows: Seq<Row>, bad: Row, rest: Seq<Fetched>)
    requires
        forall|i: int| 0 <= i < rows.len() ==> row_message(#[trigger] rows[i]) is Ok,
        row_message(bad) is Err,
    ensures
        run(read, rows.map_values(|row: Row| Fetched::Row(row)).push(Fetched::Row(bad)) + rest)
            == Some(Err::<Seq<MessageView>, Failure>(Failure::Decode(row_message(bad)->Err_0))),
    decreases rows.len(),
{
    let fetched = rows.map_values(|row: Row| Fetched::Row(row)).push(Fetched::Row(bad)) + rest;
    if rows.len() == 0 {
        assert(fetched.first() == Fetched::Row(bad));
    } else {
        let tail = rows.drop_first();
        assert(fetched.first() == Fetched::Row(rows.first()));
        assert(fetched.drop_first() =~= tail.map_values(|row: Row| Fetched::Row(row)).push(
            Fetched::Row(bad),
        ) + rest);
        assert(row_message(rows[0]) is Ok);
        assert forall|i: int| 0 <= i < tail.len() implies row_message(#[trigger] tail[i]) is Ok by {
            assert(tail[i] == rows[i + 1]);
        }
        law_bad_row_fails(read.push(row_message(rows.first())->Ok_0), tail, bad, rest);
    }
}

} // verus!
