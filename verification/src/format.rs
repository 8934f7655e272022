//! The output formatter: record batches, the formats they can be shown in,
//! and the text of a sequence of batches in each format.
//!
//! The batches are those of the `arrow` crate, and so are the writers that
//! render them.

use vstd::prelude::*;
use vstd::utf8::{decode_utf8, valid_utf8};
use crate::text::chars_of;

verus! {

/// A block of columnar data as the service hands it out: named columns of
/// one length. It holds a record batch of the `arrow` crate, of which only
/// the row count and the renderings are specified; whoever has such a batch
/// puts it in here.
#[verifier::external_body]
#[derive(Debug)]
pub struct RecordBatch {
    pub inner: arrow::record_batch::RecordBatch,
}

/// The format in which results are shown.
#[derive(Copy, Clone, Debug, PartialEq, Eq, Structural)]
pub enum OutputFormat {
    /// An aligned table with borders.
    Pretty,
    /// Comma-separated values behind a header row of column names.
    Csv,
    /// An array of JSON objects, one per row.
    Json,
}

/// The number of rows of a batch.
pub uninterp spec fn batch_rows(batch: RecordBatch) -> nat;

/// The batch of two columns: whole numbers under one name, texts under
/// another.
pub uninterp spec fn table_of(
    number_column: Seq<char>,
    numbers: Seq<i64>,
    text_column: Seq<char>,
    texts: Seq<Seq<char>>,
) -> RecordBatch;

/// The aligned table of a sequence of batches, or the reason why there is
/// none.
pub uninterp spec fn pretty_table(batches: Seq<RecordBatch>) -> Result<Seq<char>, Seq<char>>;

/// A writer of comma-separated values into memory. It holds a writer of
/// the `arrow` crate, of which only the batches it has taken and the bytes
/// it has written are specified. Every such writer has taken each of its
/// batches without an error.
#[verifier::external_body]
pub struct CsvWriter {
    inner: arrow::csv::Writer<Vec<u8>>,
}

/// A writer of a JSON array into memory. It holds a writer of the `arrow`
/// crate, of which only the batches it has taken and the bytes it has
/// written are specified. Every such writer has taken each of its batches
/// without an error, and has not been finished.
#[verifier::external_body]
pub struct JsonWriter {
    inner: arrow::json::ArrayWriter<Vec<u8>>,
}

/// The batches that a writer of comma-separated values has taken, in their
/// order.
pub uninterp spec fn csv_taken(writer: CsvWriter) -> Seq<RecordBatch>;

/// The bytes that a writer of comma-separated values has written.
pub uninterp spec fn csv_written(writer: CsvWriter) -> Seq<u8>;

/// What a writer of comma-separated values that has taken `taken` writes
/// for `batch`, or the reason why it does not take it.
pub uninterp spec fn csv_step(taken: Seq<RecordBatch>, batch: RecordBatch) -> Result<
    Seq<u8>,
    Seq<char>,
>;

/// The batches that a writer of JSON has taken, in their order.
pub uninterp spec fn json_taken(writer: JsonWriter) -> Seq<RecordBatch>;

/// The bytes that a writer of JSON has written.
pub uninterp spec fn json_written(writer: JsonWriter) -> Seq<u8>;

/// What a writer of JSON that has taken `taken` writes for `batch`, or the
/// reason why it does not take it.
pub uninterp spec fn json_step(taken: Seq<RecordBatch>, batch: RecordBatch) -> Result<
    Seq<u8>,
    Seq<char>,
>;

/// What a writer of JSON that has taken `taken` writes when it is finished,
/// or the reason why it cannot be.
pub uninterp spec fn json_closing(taken: Seq<RecordBatch>) -> Result<Seq<u8>, Seq<char>>;

/// The bytes of a sequence of batches as comma-separated values: what a
/// writer writes that takes them one after another. Where it does not take
/// one of them there are no bytes, but the reason of the first that it did
/// not take.
pub open spec fn csv_bytes(batches: Seq<RecordBatch>) -> Result<Seq<u8>, Seq<char>>
    decreases batches.len(),
{
    if batches.len() == 0 {
        Ok(Seq::empty())
    } else {
        match csv_bytes(batches.drop_last()) {
            Ok(written) => match csv_step(batches.drop_last(), batches.last()) {
                Ok(chunk) => Ok(written + chunk),
                Err(reason) => Err(reason),
            },
            Err(reason) => Err(reason),
        }
    }
}

/// The bytes of a sequence of batches in a JSON array that is still open:
/// what a writer writes that takes them one after another. Where it does not
/// take one of them there are no bytes, but the reason of the first that it
/// did not take.
pub open spec fn json_body(batches: Seq<RecordBatch>) -> Result<Seq<u8>, Seq<char>>
    decreases batches.len(),
{
    if batches.len() == 0 {
        Ok(Seq::empty())
    } else {
        match json_body(batches.drop_last()) {
            Ok(written) => match json_step(batches.drop_last(), batches.last()) {
                Ok(chunk) => Ok(written + chunk),
                Err(reason) => Err(reason),
            },
            Err(reason) => Err(reason),
        }
    }
}

/// The bytes of a sequence of batches as a JSON array: the open array and
/// what finishes it, or the reason why there are none.
pub open spec fn json_bytes(batches: Seq<RecordBatch>) -> Result<Seq<u8>, Seq<char>> {
    match json_body(batches) {
        Ok(written) => match json_closing(batches) {
            Ok(end) => Ok(written + end),
            Err(reason) => Err(reason),
        },
        Err(reason) => Err(reason),
    }
}

/// Once a batch has not been taken, the batches behind it change nothing:
/// the reason stays the one of the first.
pub proof fn lemma_csv_error_stays(batches: Seq<RecordBatch>, n: int)
    requires
        0 <= n <= batches.len(),
        csv_bytes(batches.take(n)) is Err,
    ensures
        csv_bytes(batches) == csv_bytes(batches.take(n)),
    decreases batches.len(),
{
    if n == batches.len() {
        assert(batches.take(n) =~= batches);
    } else {
        assert(batches.drop_last().take(n) =~= batches.take(n));
        lemma_csv_error_stays(batches.drop_last(), n);
    }
}

/// Once a batch has not been taken, the batches behind it change nothing:
/// the reason stays the one of the first.
pub proof fn lemma_json_error_stays(batches: Seq<RecordBatch>, n: int)
    requires
        0 <= n <= batches.len(),
        json_body(batches.take(n)) is Err,
    ensures
        json_body(batches) == json_body(batches.take(n)),
    decreases batches.len(),
{
    if n == batches.len() {
        assert(batches.take(n) =~= batches);
    } else {
        assert(batches.drop_last().take(n) =~= batches.take(n));
        lemma_json_error_stays(batches.drop_last(), n);
    }
}

/// The number of rows of `batch`.
///
/// Calls `RecordBatch::num_rows` of `arrow`, which hands out the row count
/// that the batch was made with. The contract gives that count the name
/// `batch_rows`.
#[verifier::external_body]
pub(crate) fn num_rows(batch: &RecordBatch) -> (rows: usize)
    ensures
        rows == batch_rows(*batch),
{
    batch.inner.num_rows()
}

/// Makes a batch of two columns.
///
/// Calls `RecordBatch::try_from_iter` of `arrow` on an `Int64Array` and a
/// `LargeStringArray` made from the two vectors; with its 64-bit offsets the
/// second holds texts of any length together. The call fails only where
/// there is no column, where the columns differ in length, or where a column
/// does not fit its field; two columns of one length made this way pass all
/// three tests, hence the `requires`. The contract names the batch after the
/// four arguments and claims that it has one row for each number.
#[verifier::external_body]
pub(crate) fn two_column_table(
    number_column: &str,
    numbers: Vec<i64>,
    text_column: &str,
    texts: Vec<String>,
) -> (table: RecordBatch)
    requires
        numbers@.len() == texts@.len(),
    ensures
        table == table_of(number_column@, numbers@, text_column@, texts.deep_view()),
        batch_rows(table) == numbers@.len(),
{
    let first: arrow::array::ArrayRef = std::sync::Arc::new(arrow::array::Int64Array::from(numbers));
    let second: arrow::array::ArrayRef = std::sync::Arc::new(arrow::array::LargeStringArray::from(texts));
    let columns = vec![(number_column, first), (text_column, second)];
    RecordBatch { inner: arrow::record_batch::RecordBatch::try_from_iter(columns).unwrap() }
}

/// Renders `batches` as an aligned table.
///
/// Calls `arrow::util::pretty::pretty_format_batches` and takes the text of
/// what it returns, or the text of its error. The contract gives the outcome
/// the name `pretty_table`: it depends on the batches alone.
#[verifier::external_body]
pub(crate) fn render_pretty(batches: &[RecordBatch]) -> (out: Result<String, String>)
    ensures
        match pretty_table(batches@) {
            Ok(table) => out matches Ok(text) && text@ == table,
            Err(reason) => out matches Err(text) && text@ == reason,
        },
{
    let plain: Vec<arrow::record_batch::RecordBatch> = batches.iter().map(|b| b.inner.clone()).collect();
    match arrow::util::pretty::pretty_format_batches(&plain) {
        Ok(table) => Ok(table.to_string()),
        Err(e) => Err(e.to_string()),
    }
}

/// A writer of comma-separated values that has taken and written nothing.
///
/// Calls `arrow::csv::Writer::new` on an empty vector: a writer with the
/// default options, which puts a header row in front of the first batch.
#[verifier::external_body]
pub(crate) fn csv_writer() -> (writer: CsvWriter)
    ensures
        csv_taken(writer) == Seq::<RecordBatch>::empty(),
        csv_written(writer) == Seq::<u8>::empty(),
{
    CsvWriter { inner: arrow::csv::Writer::new(Vec::new()) }
}

/// Hands `batch` to the writer, which comes back where it has taken it.
///
/// Calls `arrow::csv::Writer::write`, which writes the header row if this
/// is the first batch, then the rows, and flushes; or returns an error. The
/// contract gives what is written, or the text of the error, the name
/// `csv_step`: it depends on the batches taken before and on this batch. A
/// writer that has returned an error does not come back.
#[verifier::external_body]
pub(crate) fn csv_write(writer: CsvWriter, batch: &RecordBatch) -> (out: Result<CsvWriter, String>)
    ensures
        match csv_step(csv_taken(writer), *batch) {
            Ok(chunk) => out matches Ok(next) && csv_taken(next) == csv_taken(writer).push(*batch)
                && csv_written(next) == csv_written(writer) + chunk,
            Err(reason) => out matches Err(text) && text@ == reason,
        },
{
    let mut writer = writer;
    match writer.inner.write(&batch.inner) {
        Ok(()) => Ok(writer),
        Err(e) => Err(e.to_string()),
    }
}

/// The bytes that the writer has written.
///
/// Calls `arrow::csv::Writer::into_inner`, which hands out the vector that
/// the writer wrote into.
#[verifier::external_body]
pub(crate) fn csv_finish(writer: CsvWriter) -> (bytes: Vec<u8>)
    ensures
        bytes@ == csv_written(writer),
{
    writer.inner.into_inner()
}

/// A writer of JSON that has taken and written nothing.
///
/// Calls `arrow::json::ArrayWriter::new` on an empty vector.
#[verifier::external_body]
pub(crate) fn json_writer() -> (writer: JsonWriter)
    ensures
        json_taken(writer) == Seq::<RecordBatch>::empty(),
        json_written(writer) == Seq::<u8>::empty(),
{
    JsonWriter { inner: arrow::json::ArrayWriter::new(Vec::new()) }
}

/// Hands `batch` to the writer, which comes back where it has taken it.
///
/// Calls `write` of `arrow::json::ArrayWriter`, which writes the rows of
/// the batch as objects, behind the opening bracket if they are the first;
/// or returns an error. The contract gives what is written, or the text of
/// the error, the name `json_step`: it depends on the batches taken before
/// and on this batch. A writer that has returned an error does not come
/// back.
#[verifier::external_body]
pub(crate) fn json_write(writer: JsonWriter, batch: &RecordBatch) -> (out: Result<
    JsonWriter,
    String,
>)
    ensures
        match json_step(json_taken(writer), *batch) {
            Ok(chunk) => out matches Ok(next) && json_taken(next) == json_taken(writer).push(
                *batch,
            ) && json_written(next) == json_written(writer) + chunk,
            Err(reason) => out matches Err(text) && text@ == reason,
        },
{
    let mut writer = writer;
    match writer.inner.write(&batch.inner) {
        Ok(()) => Ok(writer),
        Err(e) => Err(e.to_string()),
    }
}

/// Finishes the array and hands out all the bytes.
///
/// Calls `finish` of `arrow::json::ArrayWriter`, which writes the closing
/// bracket, behind the opening one if nothing was written yet; the bytes are
/// taken out of the finished writer with `into_inner`. The contract gives
/// what `finish` writes, or the text of its error, the name `json_closing`:
/// it depends on the batches taken.
#[verifier::external_body]
pub(crate) fn json_finish(writer: JsonWriter) -> (out: Result<Vec<u8>, String>)
    ensures
        match json_closing(json_taken(writer)) {
            Ok(end) => out matches Ok(bytes) && bytes@ == json_written(writer) + end,
            Err(reason) => out matches Err(text) && text@ == reason,
        },
{
    let mut writer = writer;
    match writer.inner.finish() {
        Ok(()) => Ok(writer.inner.into_inner()),
        Err(e) => Err(e.to_string()),
    }
}

/// Renders `batches` as comma-separated values: a header row of the column
/// names of the first batch, then the rows of each batch in turn. Where a
/// batch cannot be written, nothing of the text comes back.
pub fn render_csv(batches: &[RecordBatch]) -> (out: Result<Vec<u8>, String>)
    ensures
        match csv_bytes(batches@) {
            Ok(written) => out matches Ok(bytes) && bytes@ == written,
            Err(reason) => out matches Err(text) && text@ == reason,
        },
{
    let mut writer = csv_writer();
    let mut i: usize = 0;
    assert(batches@.take(0) =~= Seq::<RecordBatch>::empty());
    while i < batches.len()
        invariant
            i <= batches.len(),
            csv_taken(writer) == batches@.take(i as int),
            csv_bytes(batches@.take(i as int)) == Ok::<Seq<u8>, Seq<char>>(csv_written(writer)),
        decreases batches.len() - i,
    {
        proof {
            assert(batches@.take(i + 1).drop_last() =~= batches@.take(i as int));
            assert(batches@.take(i + 1).last() == batches@[i as int]);
            assert(batches@.take(i as int).push(batches@[i as int]) =~= batches@.take(i + 1));
        }
        match csv_write(writer, &batches[i]) {
            Ok(next) => {
                writer = next;
            },
            Err(reason) => {
                proof {
                    lemma_csv_error_stays(batches@, i + 1);
                }
                return Err(reason);
            },
        }
        i = i + 1;
    }
    assert(batches@.take(batches.len() as int) =~= batches@);
    Ok(csv_finish(writer))
}

/// Renders `batches` as a JSON array of one object for each row. Where a
/// batch cannot be written, or the array cannot be finished, nothing of the
/// text comes back.
pub fn render_json(batches: &[RecordBatch]) -> (out: Result<Vec<u8>, String>)
    ensures
        match json_bytes(batches@) {
            Ok(written) => out matches Ok(bytes) && bytes@ == written,
            Err(reason) => out matches Err(text) && text@ == reason,
        },
{
    let mut writer = json_writer();
    let mut i: usize = 0;
    assert(batches@.take(0) =~= Seq::<RecordBatch>::empty());
    while i < batches.len()
        invariant
            i <= batches.len(),
            json_taken(writer) == batches@.take(i as int),
            json_body(batches@.take(i as int)) == Ok::<Seq<u8>, Seq<char>>(json_written(writer)),
        decreases batches.len() - i,
    {
        proof {
            assert(batches@.take(i + 1).drop_last() =~= batches@.take(i as int));
            assert(batches@.take(i + 1).last() == batches@[i as int]);
            assert(batches@.take(i as int).push(batches@[i as int]) =~= batches@.take(i + 1));
        }
        match json_write(writer, &batches[i]) {
            Ok(next) => {
                writer = next;
            },
            Err(reason) => {
                proof {
                    lemma_json_error_stays(batches@, i + 1);
                }
                return Err(reason);
            },
        }
        i = i + 1;
    }
    assert(batches@.take(batches.len() as int) =~= batches@);
    json_finish(writer)
}

/// Reads `bytes` as UTF-8.
///
/// Calls `String::from_utf8`, which returns the string that the bytes
/// encode, or an error where they are not valid UTF-8.
#[verifier::external_body]
pub(crate) fn utf8_string(bytes: Vec<u8>) -> (text: Option<String>)
    ensures
        match text {
            Some(decoded) => valid_utf8(bytes@) && decoded@ == decode_utf8(bytes@),
            None => !valid_utf8(bytes@),
        },
{
    String::from_utf8(bytes).ok()
}

/// `c` as a small letter, where it is one of the capital letters `A` to `Z`.
pub open spec fn lower(c: char) -> char {
    if 'A' <= c <= 'Z' {
        ((c as u8) + 32) as char
    } else {
        c
    }
}

/// `text` with its capital letters `A` to `Z` made small.
pub open spec fn lowered(text: Seq<char>) -> Seq<char> {
    Seq::new(text.len(), |i: int| lower(text[i]))
}

/// The format that goes by `name`: `pretty`, `csv` or `json`, in small or
/// capital letters.
pub open spec fn format_named(name: Seq<char>) -> Option<OutputFormat> {
    if lowered(name) == "pretty"@ {
        Some(OutputFormat::Pretty)
    } else if lowered(name) == "csv"@ {
        Some(OutputFormat::Csv)
    } else if lowered(name) == "json"@ {
        Some(OutputFormat::Json)
    } else {
        None
    }
}

/// What is said of rendered bytes that are not UTF-8.
pub open spec fn not_utf8() -> Seq<char> {
    "the rendered bytes are not valid UTF-8"@
}

/// Rendered bytes as text.
pub open spec fn text_of(bytes: Result<Seq<u8>, Seq<char>>) -> Result<Seq<char>, Seq<char>> {
    match bytes {
        Ok(written) => if valid_utf8(written) {
            Ok(decode_utf8(written))
        } else {
            Err(not_utf8())
        },
        Err(reason) => Err(reason),
    }
}

/// The text of `batches` in `format`, or the reason why there is none.
pub open spec fn rendering(format: OutputFormat, batches: Seq<RecordBatch>) -> Result<
    Seq<char>,
    Seq<char>,
> {
    match format {
        OutputFormat::Pretty => pretty_table(batches),
        OutputFormat::Csv => text_of(csv_bytes(batches)),
        OutputFormat::Json => text_of(json_bytes(batches)),
    }
}

fn to_lower(c: char) -> (small: char)
    ensures
        small == lower(c),
{
    if 'A' <= c && c <= 'Z' {
        ((c as u8) + 32) as char
    } else {
        c
    }
}

fn lowered_chars(text: &str) -> (small: Vec<char>)
    ensures
        small@ == lowered(text@),
{
    let chars = chars_of(text);
    let mut small: Vec<char> = Vec::new();
    let mut i: usize = 0;
    while i < chars.len()
        invariant
            i <= chars.len(),
            chars@ == text@,
            small@ == lowered(text@).take(i as int),
        decreases chars.len() - i,
    {
        small.push(to_lower(chars[i]));
        i = i + 1;
        assert(lowered(text@).take(i as int) =~= lowered(text@).take(i - 1).push(
            lower(text@[i - 1]),
        ));
    }
    assert(lowered(text@).take(chars.len() as int) =~= lowered(text@));
    small
}

fn same_chars(a: &Vec<char>, b: &Vec<char>) -> (same: bool)
    ensures
        same == (a@ == b@),
{
    if a.len() != b.len() {
        return false;
    }
    let mut i: usize = 0;
    while i < a.len()
        invariant
            i <= a.len(),
            a.len() == b.len(),
            forall|k: int| 0 <= k < i ==> a@[k] == b@[k],
        decreases a.len() - i,
    {
        if a[i] != b[i] {
            return false;
        }
        i = i + 1;
    }
    assert(a@ =~= b@);
    true
}

/// Rendered bytes as text: the text that they encode, or, where they are
/// not UTF-8, the reason that says so; a reason stays what it is.
pub fn text_from(bytes: Result<Vec<u8>, String>) -> (out: Result<String, String>)
    ensures
        match bytes {
            Ok(written) => match text_of(Ok(written@)) {
                Ok(decoded) => out matches Ok(text) && text@ == decoded,
                Err(reason) => out matches Err(text) && text@ == reason,
            },
            Err(reason) => out matches Err(text) && text@ == reason@,
        },
{
    match bytes {
        Ok(written) => match utf8_string(written) {
            Some(decoded) => Ok(decoded),
            None => Err("the rendered bytes are not valid UTF-8".to_owned()),
        },
        Err(reason) => Err(reason),
    }
}

impl OutputFormat {
    /// The format that goes by `name`, where there is one.
    pub fn parse(name: &str) -> (format: Option<OutputFormat>)
        ensures
            format == format_named(name@),
    {
        let small = lowered_chars(name);
        if same_chars(&small, &chars_of("pretty")) {
            Some(OutputFormat::Pretty)
        } else if same_chars(&small, &chars_of("csv")) {
            Some(OutputFormat::Csv)
        } else if same_chars(&small, &chars_of("json")) {
            Some(OutputFormat::Json)
        } else {
            None
        }
    }

    /// Renders `batches` in this format. Nothing of the text comes back
    /// where a part of it cannot be rendered.
    pub fn format(&self, batches: &[RecordBatch]) -> (out: Result<String, String>)
        ensures
            match rendering(*self, batches@) {
                Ok(rendered) => out matches Ok(text) && text@ == rendered,
                Err(reason) => out matches Err(text) && text@ == reason,
            },
    {
        match self {
            OutputFormat::Pretty => render_pretty(batches),
            OutputFormat::Csv => text_from(render_csv(batches)),
            OutputFormat::Json => text_from(render_json(batches)),
        }
    }
}

/// Each of the three names, written in small letters, is the name of its
/// format.
pub proof fn lemma_format_names()
    ensures
        format_named("pretty"@) == Some(OutputFormat::Pretty),
        format_named("csv"@) == Some(OutputFormat::Csv),
        format_named("json"@) == Some(OutputFormat::Json),
{
    reveal_strlit("pretty");
    reveal_strlit("csv");
    reveal_strlit("json");
    assert(lowered("pretty"@) =~= "pretty"@);
    assert(lowered("csv"@) =~= "csv"@);
    assert(lowered("json"@) =~= "json"@);
    assert("csv"@.len() != "pretty"@.len());
    assert("json"@.len() != "pretty"@.len());
    assert("json"@.len() != "csv"@.len());
}

} // verus!
