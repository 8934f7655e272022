//! The command that runs a query: which database it is run on, and whether
//! the reply is a table or a failure in disguise.
//!
//! A reply is a table where it holds at least one data row. Any other reply
//! is taken for a failure, a table without rows too.

use vstd::prelude::*;
use crate::delimited::{data_rows, number_of_csv_records};
use crate::format::OutputFormat;
use crate::nuclient::{confirmation, error_text, ClientState, Error, Nuclient};
use crate::nuerror::{
    clean_header,
    clean_message,
    clean_status,
    details_marker,
    lemma_extract_parts,
    message_marker,
    extract,
    raised_title,
    MarkerError,
    status_marker,
    CommandType,
    ErrorRecord,
    GenericError,
    HandlerState,
    NuIoxErrorHandler,
    NuIoxErrorType,
    Span,
};
use crate::text::first_at;

verus! {

/// The command `ioxsql`.
#[derive(Copy, Clone, Debug)]
pub struct Ioxsql;

/// What a reply was taken for.
#[derive(Debug)]
pub enum Classified {
    /// A table: the reply as it came.
    Data(String),
    /// A failure, with what was read out of it.
    Failure(NuIoxErrorHandler),
}

/// What a reply with `records` data rows is taken for.
pub open spec fn is_data(records: nat) -> bool {
    records > 0
}

/// What is read out of a reply: nothing where it is a table; where it is
/// taken for a failure, its record or the marker that it lacks.
pub open spec fn failure_of(sql_result: Seq<char>) -> Option<Result<ErrorRecord, MarkerError>> {
    if is_data(data_rows(sql_result)) {
        None
    } else {
        Some(extract(sql_result))
    }
}

/// A reply without data rows in which the three markers stand in their
/// order is a failure whose header, status and message are the parts that
/// the markers bound, cleaned: the header in front of the details marker, the
/// message between the message marker and the status marker, the status
/// behind the status marker.
///
/// The reply is given in its parts. Each marker has to stand first where the
/// part in front of it ends, counted from the marker before.
pub proof fn lemma_failure_parts(
    header: Seq<char>,
    details: Seq<char>,
    message: Seq<char>,
    status: Seq<char>,
)
    requires
        data_rows(
            header + details_marker() + details + message_marker() + message + status_marker()
                + status,
        ) == 0,
        first_at(
            header + details_marker() + details + message_marker() + message + status_marker()
                + status,
            details_marker(),
            header.len() as int,
        ),
        first_at(
            details + message_marker() + message + status_marker() + status,
            message_marker(),
            details.len() as int,
        ),
        first_at(message + status_marker() + status, status_marker(), message.len() as int),
    ensures
        failure_of(
            header + details_marker() + details + message_marker() + message + status_marker()
                + status,
        ) == Some(
            Ok::<ErrorRecord, MarkerError>(
                ErrorRecord {
                    start: header + details_marker() + details + message_marker() + message
                        + status_marker() + status,
                    kind: NuIoxErrorType::TableNotFound,
                    header: clean_header(header),
                    status: clean_status(status),
                    message: clean_message(message),
                },
            ),
        ),
{
    lemma_extract_parts(header, details, message, status);
}

/// A reply with a data row is a table: nothing is read out of it.
pub proof fn lemma_data_passes(sql_result: Seq<char>)
    requires
        data_rows(sql_result) >= 1,
    ensures
        failure_of(sql_result) is None,
{
}

impl Ioxsql {
    /// The name of the command.
    pub fn name(&self) -> (name: &'static str)
        ensures
            name@ == "ioxsql"@,
    {
        "ioxsql"
    }

    /// What the command is for.
    pub fn usage(&self) -> (usage: &'static str)
        ensures
            usage@ == "Sql query against the Iox Database."@,
    {
        "Sql query against the Iox Database."
    }

    /// The database to run on: the one that the command names, else the one
    /// that the shell variable `IOX_DBNAME` names.
    pub fn database(named: Option<String>, variable: Option<String>) -> (dbname: Option<String>)
        ensures
            dbname == (if named is Some {
                named
            } else {
                variable
            }),
    {
        match named {
            Some(name) => Some(name),
            None => variable,
        }
    }

    /// The client that a query on `dbname` is run with, and what is said of
    /// the selection: `dbname` is selected, and results come as
    /// comma-separated values.
    pub fn session(dbname: String) -> (prepared: (Nuclient, String))
        ensures
            prepared.0@ == (ClientState { database: Some(dbname@), format: OutputFormat::Csv }),
            prepared.1@ == confirmation(dbname@),
    {
        let mut repl = Nuclient::new();
        let message = repl.use_database(dbname);
        proof {
            crate::format::lemma_format_names();
        }
        let _output_format = repl.set_output_format("csv");
        (repl, message)
    }

    /// The reply of the command to a query: the rendered answer, or, where
    /// the query failed, the text of the error.
    pub fn reply(rsql: Result<String, Error>) -> (sql_result: String)
        ensures
            match rsql {
                Ok(res) => sql_result@ == res@,
                Err(error) => sql_result@ == error_text(error),
            },
    {
        match rsql {
            Ok(res) => res,
            Err(error) => error.to_string(),
        }
    }

    /// Takes a reply that holds `records` data rows for what it is: with one
    /// row or more it is a table and comes back as it is; without any it is
    /// read as a failure.
    pub fn classify_counted(sql_result: String, records: usize) -> (class: Classified)
        ensures
            if is_data(records as nat) {
                class matches Classified::Data(text) && text@ == sql_result@
            } else {
                class matches Classified::Failure(handler) && handler@ == (HandlerState {
                    ctype: CommandType::Sql,
                    error: sql_result@,
                    record: extract(sql_result@),
                })
            },
    {
        let not_csv_data = !(records > 0);
        if not_csv_data {
            Classified::Failure(NuIoxErrorHandler::new(CommandType::Sql, sql_result))
        } else {
            Classified::Data(sql_result)
        }
    }

    /// Takes a reply for what it is. A reply with at least one data row is a
    /// table and comes back unchanged, with nothing read out of it; any
    /// other reply is read as a failure.
    pub fn classify(sql_result: String) -> (class: Classified)
        ensures
            match failure_of(sql_result@) {
                None => class matches Classified::Data(text) && text@ == sql_result@,
                Some(record) => class matches Classified::Failure(handler) && handler@
                    == (HandlerState { ctype: CommandType::Sql, error: sql_result@, record }),
            },
    {
        let numofrecords = number_of_csv_records(sql_result.as_str());
        Self::classify_counted(sql_result, numofrecords)
    }

    /// What the command makes of a reply: the reply itself where it is a
    /// table, to be turned into values by the caller; the failure to raise
    /// at `head` where it is not.
    pub fn run(sql_result: String, head: Span) -> (out: Result<String, GenericError>)
        ensures
            match failure_of(sql_result@) {
                None => out matches Ok(text) && text@ == sql_result@,
                Some(record) => out matches Err(failure) && {
                    &&& failure.error@ == raised_title(
                        HandlerState { ctype: CommandType::Sql, error: sql_result@, record },
                    )
                    &&& failure.msg@ == "TableNotFound"@
                    &&& failure.span == Some(head)
                    &&& failure.help is None
                },
            },
    {
        match Self::classify(sql_result) {
            Classified::Data(text) => Ok(text),
            Classified::Failure(nierrorhandler) => {
                nierrorhandler.nu_iox_error_check()?;
                nierrorhandler.nu_iox_error_generic(head)
            },
        }
    }
}

} // verus!
