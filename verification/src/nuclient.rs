//! The query client: which database is selected, in which format results
//! are shown, what is sent to the service and what becomes of its answer.
//!
//! The client does not talk to the service itself. It says what is to be
//! sent, and takes what came back.

use vstd::prelude::*;
use vstd::string::*;
use crate::format::{
    batch_rows,
    format_named,
    num_rows,
    rendering,
    table_of,
    two_column_table,
    OutputFormat,
    RecordBatch,
};
use crate::text::{decimal, push_decimal, string_of};

verus! {

/// What can go wrong between the client, the service and the formatter.
#[derive(Debug)]
pub enum Error {
    /// The service could not list its databases.
    LoadingRemoteState { source: String },
    /// The batches could not be rendered in the selected format.
    FormattingResults { source: String },
    /// The name is not the name of a format.
    SettingFormat { requested_format: String, source: String },
    /// The service could not run the query, or its answer broke off.
    RunningRemoteQuery { source: String },
}

/// Where queries are run.
#[derive(Debug)]
pub enum QueryEngine {
    /// Run queries against the named database on the remote server
    Remote(String),
}

/// A database as the service lists it.
#[derive(Debug)]
pub struct Namespace {
    pub id: i64,
    pub name: String,
}

/// A query as it is sent to the service.
#[derive(Debug)]
pub struct ReadInfo {
    pub namespace_name: String,
    pub sql_query: String,
}

/// What the caller is told where no database is selected: the lines to
/// show, and the text that the query returns.
#[derive(Debug)]
pub struct Advisory {
    pub lines: Vec<String>,
    pub reply: String,
}

/// What is to be done for a query.
#[derive(Debug)]
pub enum SqlStep {
    /// No database is selected: nothing is sent.
    Unselected(Advisory),
    /// Send this to the service.
    Remote(ReadInfo),
}

/// What the service handed out when it was asked for the next batch.
#[derive(Debug)]
pub enum Pulled {
    Batch(RecordBatch),
    End,
    Failed(String),
}

/// How far the answer to a query has come.
#[derive(Debug)]
pub enum Scrape {
    /// The batches so far; there may be more.
    More(Vec<RecordBatch>),
    /// All the batches of the answer, in the order they came.
    Done(Vec<RecordBatch>),
    /// The answer broke off; the batches that had come are gone.
    Failed(Error),
}

/// The client.
#[derive(Debug)]
pub struct Nuclient {
    /// database name against which SQL commands are run
    query_engine: Option<QueryEngine>,
    /// Formatter to use to format query results
    output_format: OutputFormat,
}

/// The mathematical content of a [`Nuclient`].
pub ghost struct ClientState {
    /// The name of the selected database, if one is selected.
    pub database: Option<Seq<char>>,
    pub format: OutputFormat,
}

impl ClientState {
    /// The state after `db_name` was selected.
    pub open spec fn selected(self, db_name: Seq<char>) -> ClientState {
        ClientState { database: Some(db_name), format: self.format }
    }

    /// The state after the format named `name` was asked for.
    pub open spec fn with_format(self, name: Seq<char>) -> ClientState {
        match format_named(name) {
            Some(format) => ClientState { database: self.database, format },
            None => self,
        }
    }

    /// What the client makes of `batches` in this state.
    pub open spec fn rendered(self, batches: Seq<RecordBatch>) -> Result<Seq<char>, Seq<char>> {
        rendering(self.format, batches)
    }
}

/// What is said when `db_name` is selected.
pub open spec fn confirmation(db_name: Seq<char>) -> Seq<char> {
    "You are now querying the database "@ + db_name
}

/// What is said of a name that is no format.
pub open spec fn unknown_format(name: Seq<char>) -> Seq<char> {
    "Unknown format type: "@ + name + ". Expected one of 'pretty', 'csv' or 'json'"@
}

/// The text of an error.
pub open spec fn error_text(error: Error) -> Seq<char> {
    match error {
        Error::LoadingRemoteState { source } => "Error loading remote state: "@ + source@,
        Error::FormattingResults { source } => "Error formatting results: "@ + source@,
        Error::SettingFormat { requested_format, source } => "Error setting format to '"@
            + requested_format@ + "': "@ + source@,
        Error::RunningRemoteQuery { source } => "Error running remote query: "@ + source@,
    }
}

/// The rows of all of `batches` together.
pub open spec fn total_rows(batches: Seq<RecordBatch>) -> nat
    decreases batches.len(),
{
    if batches.len() == 0 {
        0
    } else {
        total_rows(batches.drop_last()) + batch_rows(batches.last())
    }
}

/// How a number of rows is put in words.
pub open spec fn summary_text(rows: nat) -> Seq<char> {
    if rows > 1 {
        decimal(rows) + " rows"@
    } else if rows == 0 {
        "no rows"@
    } else {
        "1 row"@
    }
}

/// The numbers of a listing, in its order.
pub open spec fn ids_of(namespaces: Seq<Namespace>) -> Seq<i64> {
    Seq::new(namespaces.len(), |i: int| namespaces[i].id)
}

/// The names of a listing, in its order.
pub open spec fn names_of(namespaces: Seq<Namespace>) -> Seq<Seq<char>> {
    Seq::new(namespaces.len(), |i: int| namespaces[i].name@)
}

/// The table of a listing: the numbers under `namespace_id`, the names under
/// `name`, one row for each database, in the order of the listing.
pub open spec fn namespace_table(namespaces: Seq<Namespace>) -> RecordBatch {
    table_of("namespace_id"@, ids_of(namespaces), "name"@, names_of(namespaces))
}

impl View for Nuclient {
    type V = ClientState;

    closed spec fn view(&self) -> ClientState {
        ClientState {
            database: match self.query_engine {
                Some(QueryEngine::Remote(db_name)) => Some(db_name@),
                None => None,
            },
            format: self.output_format,
        }
    }
}

impl Error {
    /// The text of the error: what went wrong, and why.
    pub fn to_string(&self) -> (text: String)
        ensures
            text@ == error_text(*self),
    {
        match self {
            Error::LoadingRemoteState { source } => {
                let mut text = "Error loading remote state: ".to_owned();
                text.append(source.as_str());
                text
            },
            Error::FormattingResults { source } => {
                let mut text = "Error formatting results: ".to_owned();
                text.append(source.as_str());
                text
            },
            Error::SettingFormat { requested_format, source } => {
                let mut text = "Error setting format to '".to_owned();
                text.append(requested_format.as_str());
                text.append("': ");
                text.append(source.as_str());
                text
            },
            Error::RunningRemoteQuery { source } => {
                let mut text = "Error running remote query: ".to_owned();
                text.append(source.as_str());
                text
            },
        }
    }
}

/// Takes what the service handed out into the answer so far. A batch goes
/// behind those that came before it; a failure does away with them.
pub fn scrape_query(batches: Vec<RecordBatch>, pulled: Pulled) -> (next: Scrape)
    ensures
        match pulled {
            Pulled::Batch(batch) => next matches Scrape::More(held) && held@ == batches@.push(
                batch,
            ),
            Pulled::End => next matches Scrape::Done(held) && held@ == batches@,
            Pulled::Failed(reason) => next matches Scrape::Failed(
                Error::RunningRemoteQuery { source },
            ) && source@ == reason@,
        },
{
    match pulled {
        Pulled::Batch(batch) => {
            let mut held = batches;
            held.push(batch);
            Scrape::More(held)
        },
        Pulled::End => Scrape::Done(batches),
        Pulled::Failed(reason) => Scrape::Failed(Error::RunningRemoteQuery { source: reason }),
    }
}

impl Nuclient {
    /// A client with no database selected, which shows results as aligned
    /// tables.
    pub fn new() -> (client: Self)
        ensures
            client@ == (ClientState { database: None, format: OutputFormat::Pretty }),
    {
        Self { query_engine: None, output_format: OutputFormat::Pretty }
    }

    /// The name of the selected database, if one is selected.
    pub fn database(&self) -> (db_name: Option<&str>)
        ensures
            match self@.database {
                Some(name) => db_name matches Some(held) && held@ == name,
                None => db_name is None,
            },
    {
        match &self.query_engine {
            Some(QueryEngine::Remote(db_name)) => Some(db_name.as_str()),
            None => None,
        }
    }

    /// The selected format.
    pub fn output_format(&self) -> (format: OutputFormat)
        ensures
            format == self@.format,
    {
        self.output_format
    }

    /// The table of a listing: the numbers under `namespace_id`, the names
    /// under `name`, one row for each database, in the order of the listing.
    pub fn namespace_table(namespaces: &Vec<Namespace>) -> (table: RecordBatch)
        ensures
            table == namespace_table(namespaces@),
            batch_rows(table) == namespaces@.len(),
    {
        let mut namespace_id: Vec<i64> = Vec::new();
        let mut name: Vec<String> = Vec::new();
        let mut i: usize = 0;
        while i < namespaces.len()
            invariant
                i <= namespaces.len(),
                namespace_id@ == ids_of(namespaces@).take(i as int),
                name@.len() == i,
                forall|k: int| 0 <= k < i ==> (#[trigger] name@[k])@ == namespaces@[k].name@,
            decreases namespaces.len() - i,
        {
            namespace_id.push(namespaces[i].id);
            name.push(namespaces[i].name.clone());
            i = i + 1;
            proof {
                assert(ids_of(namespaces@).take(i as int) =~= ids_of(namespaces@).take(i - 1).push(
                    namespaces@[i - 1].id,
                ));
            }
        }
        proof {
            assert(ids_of(namespaces@).take(namespaces.len() as int) =~= ids_of(namespaces@));
            assert forall|k: int| 0 <= k < name@.len() implies name.deep_view()[k] == names_of(
                namespaces@,
            )[k] by {
                assert(name@[k]@ == namespaces@[k].name@);
            }
            assert(name.deep_view() =~= names_of(namespaces@));
        }
        two_column_table("namespace_id", namespace_id, "name", name)
    }

    /// Tells the databases that the service listed, as a table of two
    /// columns in the selected format; or that the service could not list
    /// them.
    pub fn list_namespaces(&self, listing: Result<Vec<Namespace>, String>) -> (out: Result<
        String,
        Error,
    >)
        ensures
            match listing {
                Ok(namespaces) => match self@.rendered(seq![namespace_table(namespaces@)]) {
                    Ok(rendered) => out matches Ok(text) && text@ == rendered,
                    Err(reason) => out matches Err(Error::FormattingResults { source })
                        && source@ == reason,
                },
                Err(reason) => out matches Err(Error::LoadingRemoteState { source }) && source@
                    == reason@,
            },
    {
        let namespaces = match listing {
            Ok(namespaces) => namespaces,
            Err(reason) => {
                return Err(Error::LoadingRemoteState { source: reason });
            },
        };
        let record_batch = Self::namespace_table(&namespaces);
        let batches = vec![record_batch];
        assert(batches@ =~= seq![namespace_table(namespaces@)]);
        self.get_results(batches.as_slice())
    }

    /// What is to be done for `sql`: send it to the selected database, or,
    /// where none is selected, tell the caller so and send nothing.
    pub fn run_sql(&self, sql: String) -> (step: SqlStep)
        ensures
            match self@.database {
                Some(db_name) => step matches SqlStep::Remote(info) && info.namespace_name@
                    == db_name && info.sql_query@ == sql@,
                None => step matches SqlStep::Unselected(advisory) && advisory.reply@
                    == "Error: no database selected"@ && advisory.lines.deep_view() == seq![
                    "Error: no database selected."@,
                    "Hint: Run USE DATABASE <dbname> to select database"@,
                ],
            },
    {
        match &self.query_engine {
            None => {
                let lines = vec![
                    "Error: no database selected.".to_owned(),
                    "Hint: Run USE DATABASE <dbname> to select database".to_owned(),
                ];
                assert(lines.deep_view() =~= seq![
                    "Error: no database selected."@,
                    "Hint: Run USE DATABASE <dbname> to select database"@,
                ]);
                SqlStep::Unselected(
                    Advisory { lines, reply: "Error: no database selected".to_owned() },
                )
            },
            Some(QueryEngine::Remote(db_name)) => SqlStep::Remote(
                ReadInfo { namespace_name: db_name.clone(), sql_query: sql },
            ),
        }
    }

    /// The lines to show for the answer to a query that took `elapsed`: the
    /// batches in the selected format, and how many rows came back in what
    /// time.
    pub fn print_sql(&self, batches: &[RecordBatch], elapsed: &str) -> (out: Result<
        Vec<String>,
        Error,
    >)
        ensures
            match self@.rendered(batches@) {
                Ok(rendered) => out matches Ok(lines) && lines.deep_view() == seq![
                    rendered,
                    "Returned "@ + summary_text(total_rows(batches@)) + " in "@ + elapsed@,
                ],
                Err(reason) => out matches Err(Error::FormattingResults { source }) && source@
                    == reason,
            },
    {
        Self::report(self.output_format.format(batches), Self::count_rows(batches), elapsed)
    }

    /// The lines to show for an answer of `rows` rows that was rendered as
    /// `rendered` and took `elapsed`; or, where it could not be rendered,
    /// the error that says why, and no line.
    pub fn report(rendered: Result<String, String>, rows: u128, elapsed: &str) -> (out: Result<
        Vec<String>,
        Error,
    >)
        ensures
            match rendered {
                Ok(text) => out matches Ok(lines) && lines.deep_view() == seq![
                    text@,
                    "Returned "@ + summary_text(rows as nat) + " in "@ + elapsed@,
                ],
                Err(reason) => out matches Err(Error::FormattingResults { source }) && source@
                    == reason@,
            },
    {
        let formatted_results = Self::results(rendered)?;
        let mut summary = "Returned ".to_owned();
        summary.append(Self::summary_of(rows).as_str());
        summary.append(" in ");
        summary.append(elapsed);
        let lines = vec![formatted_results, summary];
        assert(lines.deep_view() =~= seq![
            rendered->Ok_0@,
            "Returned "@ + summary_text(rows as nat) + " in "@ + elapsed@,
        ]);
        Ok(lines)
    }

    /// How many rows `batches` hold together, in words: `no rows`, `1 row`,
    /// or the number and `rows`.
    pub fn row_summary(batches: &[RecordBatch]) -> (summary: String)
        ensures
            summary@ == summary_text(total_rows(batches@)),
    {
        Self::summary_of(Self::count_rows(batches))
    }

    /// How many rows `batches` hold together.
    pub fn count_rows(batches: &[RecordBatch]) -> (rows: u128)
        ensures
            rows == total_rows(batches@),
    {
        let mut rows: u128 = 0;
        let mut i: usize = 0;
        while i < batches.len()
            invariant
                i <= batches.len(),
                rows == total_rows(batches@.take(i as int)),
                rows <= i * usize::MAX,
            decreases batches.len() - i,
        {
            let more = num_rows(&batches[i]);
            proof {
                assert(batches@.take(i + 1).drop_last() =~= batches@.take(i as int));
                assert(batches@.take(i + 1).last() == batches@[i as int]);
                assert(rows + more <= (i + 1) * usize::MAX) by (nonlinear_arith)
                    requires
                        rows <= i * usize::MAX,
                        more <= usize::MAX,
                ;
                assert((i + 1) * usize::MAX <= u128::MAX) by (nonlinear_arith)
                    requires
                        i + 1 <= usize::MAX,
                        usize::MAX <= 0xffff_ffff_ffff_ffff,
                ;
            }
            rows = rows + more as u128;
            i = i + 1;
        }
        assert(batches@.take(batches.len() as int) =~= batches@);
        rows
    }

    /// A number of rows in words: `no rows`, `1 row`, or the number in
    /// decimal and `rows`.
    pub fn summary_of(rows: u128) -> (summary: String)
        ensures
            summary@ == summary_text(rows as nat),
    {
        if rows > 1 {
            let mut digits: Vec<char> = Vec::new();
            push_decimal(rows, &mut digits);
            assert(digits@ =~= decimal(rows as nat));
            let mut summary = string_of(&digits);
            summary.append(" rows");
            summary
        } else if rows == 0 {
            "no rows".to_owned()
        } else {
            "1 row".to_owned()
        }
    }

    /// Selects `db_name` and says so. Whether the service has such a
    /// database is not asked.
    pub fn use_database(&mut self, db_name: String) -> (message: String)
        ensures
            final(self)@ == old(self)@.selected(db_name@),
            message@ == confirmation(db_name@),
    {
        let mut message = "You are now querying the database ".to_owned();
        message.append(db_name.as_str());
        self.set_query_engine(QueryEngine::Remote(db_name));
        message
    }

    /// Selects where queries are run. The format stays.
    pub fn set_query_engine(&mut self, query_engine: QueryEngine)
        ensures
            query_engine matches QueryEngine::Remote(db_name) && final(self)@ == old(
                self,
            )@.selected(db_name@),
    {
        self.query_engine = Some(query_engine)
    }

    /// Sets the output format to the specified format. Where the name is no
    /// format, the client stays as it was.
    pub fn set_output_format(&mut self, requested_format: &str) -> (out: Result<(), Error>)
        ensures
            final(self)@ == old(self)@.with_format(requested_format@),
            match format_named(requested_format@) {
                Some(_) => out is Ok,
                None => out matches Err(Error::SettingFormat { requested_format: name, source })
                    && name@ == requested_format@ && source@ == unknown_format(
                    requested_format@,
                ),
            },
    {
        match OutputFormat::parse(requested_format) {
            Some(format) => {
                self.output_format = format;
                Ok(())
            },
            None => {
                let mut source = "Unknown format type: ".to_owned();
                source.append(requested_format);
                source.append(". Expected one of 'pretty', 'csv' or 'json'");
                Err(
                    Error::SettingFormat {
                        requested_format: requested_format.to_owned(),
                        source,
                    },
                )
            },
        }
    }

    /// The batches in the selected format.
    pub fn get_results(&self, batches: &[RecordBatch]) -> (out: Result<String, Error>)
        ensures
            match self@.rendered(batches@) {
                Ok(rendered) => out matches Ok(text) && text@ == rendered,
                Err(reason) => out matches Err(Error::FormattingResults { source }) && source@
                    == reason,
            },
    {
        Self::results(self.output_format.format(batches))
    }

    /// What the formatter made of the batches, as the client hands it on:
    /// the text, or the error that carries the reason why there is none.
    pub fn results(rendered: Result<String, String>) -> (out: Result<String, Error>)
        ensures
            match rendered {
                Ok(text) => out matches Ok(handed) && handed@ == text@,
                Err(reason) => out matches Err(Error::FormattingResults { source }) && source@
                    == reason@,
            },
    {
        match rendered {
            Ok(formatted_results) => Ok(formatted_results),
            Err(source) => Err(Error::FormattingResults { source }),
        }
    }
}

/// Once a format has been selected by its name, every rendering is in that
/// format, and the selected database is the one it was. A name that is no
/// format leaves the client as it was.
pub proof fn lemma_format_selection(
    client: ClientState,
    name: Seq<char>,
    batches: Seq<RecordBatch>,
)
    ensures
        match format_named(name) {
            Some(format) => {
                &&& client.with_format(name).format == format
                &&& client.with_format(name).database == client.database
                &&& client.with_format(name).rendered(batches) == rendering(format, batches)
            },
            None => client.with_format(name) == client,
        },
{
}

/// Selecting a database a second time changes nothing: the client is in the
/// state that the first selection left it in. What is said of a selection
/// depends on the name alone, so it is said again in the same words.
pub proof fn lemma_select_twice(client: ClientState, db_name: Seq<char>)
    ensures
        client.selected(db_name).selected(db_name) == client.selected(db_name),
        client.selected(db_name).database == Some(db_name),
        client.selected(db_name).format == client.format,
{
}

} // verus!
