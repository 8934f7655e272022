//! Comma-separated text: how many data rows a reply holds.
//!
//! The text is read by the `csv` crate with its default settings: the first
//! row is the header, and a row that does not have as many fields as the
//! rows before it is rejected.

use vstd::prelude::*;

verus! {

/// The reader of the `csv` crate. Nothing is known of what is inside it but
/// the rows that it has yet to hand out.
#[verifier::external_type_specification]
#[verifier::external_body]
#[verifier::reject_recursive_types(R)]
pub struct ExReader<R>(csv::Reader<R>);

/// The rows that stand behind the header row of a comma-separated text, in
/// their order: `true` for a row that the reader accepts, `false` for one
/// that it rejects.
pub uninterp spec fn csv_rows(text: Seq<char>) -> Seq<bool>;

/// The rows that a reader has not handed out yet.
pub uninterp spec fn unread_rows(reader: csv::Reader<&[u8]>) -> Seq<bool>;

/// How many of `rows` are accepted.
pub open spec fn accepted(rows: Seq<bool>) -> nat
    decreases rows.len(),
{
    if rows.len() == 0 {
        0
    } else if rows.first() {
        1 + accepted(rows.drop_first())
    } else {
        accepted(rows.drop_first())
    }
}

/// How many data rows `text` holds: the rows behind its header that the
/// reader accepts.
pub open spec fn data_rows(text: Seq<char>) -> nat {
    accepted(csv_rows(text))
}

/// A reader at the beginning of `text`.
///
/// Calls `csv::Reader::from_reader` on the bytes of the text. The contract
/// gives the rows that this reader will hand out the name `csv_rows(text)`:
/// they depend on the text alone.
#[verifier::external_body]
fn open_reader<'a>(text: &'a str) -> (reader: csv::Reader<&'a [u8]>)
    ensures
        unread_rows(reader) == csv_rows(text@),
{
    csv::Reader::from_reader(text.as_bytes())
}

/// Reads the next row: `Some(true)` for a row that is accepted,
/// `Some(false)` at the end of the text, `None` for a row that is rejected.
///
/// Calls `csv::Reader::read_record`, which returns `Ok(true)` after a row,
/// `Ok(false)` once the text is used up, and an error for a row that it
/// rejects; after such an error it goes on with the row behind. The contract
/// claims that each call takes the first of the unread rows, and that at the
/// end the reader stays at the end.
#[verifier::external_body]
fn read_row(reader: &mut csv::Reader<&[u8]>) -> (read: Option<bool>)
    ensures
        unread_rows(*old(reader)).len() == 0 ==> read == Some(false) && unread_rows(
            *final(reader),
        ).len() == 0,
        unread_rows(*old(reader)).len() > 0 ==> unread_rows(*final(reader)) == unread_rows(
            *old(reader),
        ).drop_first() && read == (if unread_rows(*old(reader)).first() {
            Some(true)
        } else {
            None::<bool>
        }),
{
    let mut record = csv::StringRecord::new();
    reader.read_record(&mut record).ok()
}

/// Counts the data rows of `data`. A count that `usize` cannot hold comes
/// back as `usize::MAX`.
pub fn number_of_csv_records(data: &str) -> (count: usize)
    ensures
        count == if data_rows(data@) <= usize::MAX {
            data_rows(data@)
        } else {
            usize::MAX as nat
        },
{
    let mut reader = open_reader(data);
    let mut count: usize = 0;
    let mut more = true;
    while more
        invariant
            accepted(unread_rows(reader)) <= data_rows(data@),
            count == if data_rows(data@) - accepted(unread_rows(reader)) <= usize::MAX {
                data_rows(data@) - accepted(unread_rows(reader))
            } else {
                usize::MAX as int
            },
            !more ==> unread_rows(reader).len() == 0,
        decreases unread_rows(reader).len() + (if more { 1nat } else { 0nat }),
    {
        match read_row(&mut reader) {
            Some(true) => {
                if count < usize::MAX {
                    count = count + 1;
                }
            },
            Some(false) => {
                more = false;
            },
            None => {},
        }
    }
    count
}

} // verus!
