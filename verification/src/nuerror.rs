//! Failures that the remote service reports as plain text: the record that
//! is read out of such a text, and the handler that turns it into a failure
//! of the calling command.
//!
//! A failure text is read as
//! `<header>, details: <details>, message: <message>status: <status>`.
//! Each of the three markers is looked up behind the one before it, at its
//! first place there. The details are dropped, the other three parts are
//! cleaned and kept.

use vstd::prelude::*;
use vstd::string::*;
use crate::text::{
    after_marker,
    before_marker,
    chars_of,
    first_at,
    first_index,
    lemma_first_exists,
    lemma_first_index,
    lemma_occurs_behind,
    lemma_occurs_in_front,
    occurs,
    occurs_at,
    debug_text,
    quoted,
    remove_chars,
    split_at_marker,
    string_of,
    trim,
    trim_blanks,
    without,
};

verus! {

/// The command on whose behalf a reply is examined.
#[derive(Copy, Clone, Debug, PartialEq, Eq, Structural)]
pub enum CommandType {
    Sql,
    Write,
    WriteFile,
}

/// The kinds of failure that are told apart. There is one so far.
#[derive(Copy, Clone, Debug, PartialEq, Eq, Structural)]
pub enum NuIoxErrorType {
    TableNotFound,
}

/// The marker that a failure text lacks.
#[derive(Copy, Clone, Debug, PartialEq, Eq, Structural)]
pub enum MarkerError {
    /// `", details: "` stands nowhere in the text.
    Details,
    /// `", message: "` stands nowhere behind the details marker.
    Message,
    /// `"status: "` stands nowhere behind the message marker.
    Status,
}

/// A place in the source of the calling command.
#[derive(Copy, Clone, Debug, PartialEq, Eq, Structural)]
pub struct Span {
    pub start: usize,
    pub end: usize,
}

/// A failure as the shell shows it: a title, a label, the place it points
/// at and a hint.
#[derive(Debug)]
pub struct GenericError {
    pub error: String,
    pub msg: String,
    pub span: Option<Span>,
    pub help: Option<String>,
}

/// What a failure text says, part by part.
#[derive(Clone, Debug)]
pub struct NuIoxError {
    start: String,
    error_type: NuIoxErrorType,
    header: String,
    status: String,
    message: String,
}

/// A reply that has been taken for a failure, with what was read out of it.
#[derive(Debug)]
pub struct NuIoxErrorHandler {
    ctype: CommandType,
    error: String,
    nu_iox_error: Result<NuIoxError, MarkerError>,
}

/// The mathematical content of a [`NuIoxError`].
pub ghost struct ErrorRecord {
    pub start: Seq<char>,
    pub kind: NuIoxErrorType,
    pub header: Seq<char>,
    pub status: Seq<char>,
    pub message: Seq<char>,
}

/// The mathematical content of a [`NuIoxErrorHandler`].
pub ghost struct HandlerState {
    pub ctype: CommandType,
    pub error: Seq<char>,
    /// What was read out of the reply, or the marker that it lacks.
    pub record: Result<ErrorRecord, MarkerError>,
}

/// The marker behind the header.
pub open spec fn details_marker() -> Seq<char> {
    ", details: "@
}

/// The marker in front of the message.
pub open spec fn message_marker() -> Seq<char> {
    ", message: "@
}

/// The marker in front of the status.
pub open spec fn status_marker() -> Seq<char> {
    "status: "@
}

/// The characters that are taken out of a header.
pub open spec fn header_noise() -> Seq<char> {
    seq![':']
}

/// The characters that are taken out of a message.
pub open spec fn message_noise() -> Seq<char> {
    seq!['(', ')', ',', '"', ';', '\'']
}

/// A header as it is kept: without its colons, and otherwise as it stood.
pub open spec fn clean_header(raw: Seq<char>) -> Seq<char> {
    without(raw, header_noise())
}

/// A message as it is kept: without parentheses, commas, quotes and
/// semicolons, and without white space at either end.
pub open spec fn clean_message(raw: Seq<char>) -> Seq<char> {
    trim(without(raw, message_noise()))
}

/// A status as it is kept: what stands in front of its first colon, or all
/// of it where it has none.
pub open spec fn clean_status(raw: Seq<char>) -> Seq<char> {
    if occurs(raw, ":"@) {
        before_marker(raw, ":"@)
    } else {
        raw
    }
}

/// What is read out of a failure text, or the marker that it lacks.
pub open spec fn extract(text: Seq<char>) -> Result<ErrorRecord, MarkerError> {
    if !occurs(text, details_marker()) {
        Err(MarkerError::Details)
    } else {
        let behind_details = after_marker(text, details_marker());
        if !occurs(behind_details, message_marker()) {
            Err(MarkerError::Message)
        } else {
            let behind_message = after_marker(behind_details, message_marker());
            if !occurs(behind_message, status_marker()) {
                Err(MarkerError::Status)
            } else {
                Ok(
                    ErrorRecord {
                        start: text,
                        kind: NuIoxErrorType::TableNotFound,
                        header: clean_header(before_marker(text, details_marker())),
                        status: clean_status(after_marker(behind_message, status_marker())),
                        message: clean_message(before_marker(behind_message, status_marker())),
                    },
                )
            }
        }
    }
}

/// The three markers stand in `text` in their order, each behind the end of
/// the one before.
pub open spec fn markers_in_order(text: Seq<char>) -> bool {
    exists|details_at: int, message_at: int, status_at: int|
        {
            &&& #[trigger] occurs_at(text, details_marker(), details_at)
            &&& details_at + details_marker().len() <= message_at
            &&& #[trigger] occurs_at(text, message_marker(), message_at)
            &&& message_at + message_marker().len() <= status_at
            &&& #[trigger] occurs_at(text, status_marker(), status_at)
        }
}

/// What is raised for a reply that was taken for a failure: the message
/// that was read out of it, or, where it lacks a marker, the reply as it
/// came.
pub open spec fn raised_title(state: HandlerState) -> Seq<char> {
    match state.record {
        Ok(record) => record.message,
        Err(_) => state.error,
    }
}

/// A text in which the three markers stand in their order is read part by
/// part: the header is what stands in front of the details marker, the
/// message what stands between the message marker and the status marker, the
/// status what stands behind the status marker, each of them cleaned.
///
/// The text is given in its parts. Each marker has to stand first where the
/// part in front of it ends, counted from the marker before.
pub proof fn lemma_extract_parts(
    header: Seq<char>,
    details: Seq<char>,
    message: Seq<char>,
    status: Seq<char>,
)
    requires
        first_at(
            header + details_marker() + details + message_marker() + message + status_marker()
                + status,
            details_marker(),
            header.len() as int,
        ),
        first_at(
            details + message_marker() + message + status_marker() + status,
            message_marker(),
            details.len() as int,
        ),
        first_at(message + status_marker() + status, status_marker(), message.len() as int),
    ensures
        extract(
            header + details_marker() + details + message_marker() + message + status_marker()
                + status,
        ) == Ok::<ErrorRecord, MarkerError>(
            ErrorRecord {
                start: header + details_marker() + details + message_marker() + message
                    + status_marker() + status,
                kind: NuIoxErrorType::TableNotFound,
                header: clean_header(header),
                status: clean_status(status),
                message: clean_message(message),
            },
        ),
{
    let tail2 = message + status_marker() + status;
    let tail1 = details + message_marker() + message + status_marker() + status;
    let text = header + details_marker() + details + message_marker() + message + status_marker()
        + status;
    lemma_first_index(text, details_marker(), header.len() as int);
    assert(text.take(header.len() as int) =~= header);
    assert(text.skip((header.len() + details_marker().len()) as int) =~= tail1);
    lemma_first_index(tail1, message_marker(), details.len() as int);
    assert(tail1.skip((details.len() + message_marker().len()) as int) =~= tail2);
    lemma_first_index(tail2, status_marker(), message.len() as int);
    assert(tail2.take(message.len() as int) =~= message);
    assert(tail2.skip((message.len() + status_marker().len()) as int) =~= status);
}

/// A text is read part by part exactly where the three markers stand in
/// it in their order.
pub proof fn lemma_extract_in_order(text: Seq<char>)
    ensures
        extract(text) is Ok <==> markers_in_order(text),
{
    let details = details_marker();
    let message = message_marker();
    let status = status_marker();
    if markers_in_order(text) {
        let (d, m, s) = choose|d: int, m: int, s: int|
            {
                &&& #[trigger] occurs_at(text, details, d)
                &&& d + details.len() <= m
                &&& #[trigger] occurs_at(text, message, m)
                &&& m + message.len() <= s
                &&& #[trigger] occurs_at(text, status, s)
            };
        lemma_first_exists(text, details, d);
        let skip1 = first_index(text, details) + details.len();
        let rest1 = after_marker(text, details);
        lemma_occurs_behind(text, message, skip1, m);
        lemma_first_exists(rest1, message, m - skip1);
        let skip2 = first_index(rest1, message) + message.len();
        let rest2 = after_marker(rest1, message);
        lemma_occurs_behind(text, status, skip1, s);
        lemma_occurs_behind(rest1, status, skip2, s - skip1);
        assert(occurs(rest2, status));
    }
    if extract(text) is Ok {
        let rest1 = after_marker(text, details);
        let rest2 = after_marker(rest1, message);
        let d = choose|at: int| occurs_at(text, details, at);
        lemma_first_exists(text, details, d);
        let f1 = first_index(text, details);
        let m = choose|at: int| occurs_at(rest1, message, at);
        lemma_first_exists(rest1, message, m);
        let f2 = first_index(rest1, message);
        let s = choose|at: int| occurs_at(rest2, status, at);
        lemma_occurs_in_front(text, message, f1 + details.len(), f2);
        lemma_occurs_in_front(rest1, status, f2 + message.len(), s);
        lemma_occurs_in_front(text, status, f1 + details.len(), s + f2 + message.len());
        assert(occurs_at(text, details, f1));
        assert(occurs_at(text, message, f2 + f1 + details.len()));
        assert(occurs_at(text, status, s + f2 + message.len() + f1 + details.len()));
    }
}

impl View for NuIoxError {
    type V = ErrorRecord;

    closed spec fn view(&self) -> ErrorRecord {
        ErrorRecord {
            start: self.start@,
            kind: self.error_type,
            header: self.header@,
            status: self.status@,
            message: self.message@,
        }
    }
}

impl View for NuIoxErrorHandler {
    type V = HandlerState;

    closed spec fn view(&self) -> HandlerState {
        HandlerState {
            ctype: self.ctype,
            error: self.error@,
            record: match self.nu_iox_error {
                Ok(record) => Ok(record@),
                Err(missing) => Err(missing),
            },
        }
    }
}

/// Takes the parentheses, commas, quotes and semicolons out of `s`.
pub fn remove_slash_from_string(s: &String) -> (cleaned: String)
    ensures
        cleaned@ == without(s@, message_noise()),
{
    let unwanted = vec!['(', ')', ',', '"', ';', '\''];
    assert(unwanted@ =~= message_noise());
    string_of(&remove_chars(&chars_of(s.as_str()), &unwanted))
}

/// Takes the colons out of `s`.
pub fn remove_colon_from_string(s: &String) -> (cleaned: String)
    ensures
        cleaned@ == without(s@, header_noise()),
{
    let unwanted = vec![':'];
    assert(unwanted@ =~= header_noise());
    string_of(&remove_chars(&chars_of(s.as_str()), &unwanted))
}

/// Takes the white space off either end of `s`.
pub fn trim_string(s: &str) -> (trimmed: String)
    ensures
        trimmed@ == trim(s@),
{
    string_of(&trim_blanks(&chars_of(s)))
}

/// The status that `raw` begins with.
fn status_of(raw: &str) -> (status: String)
    ensures
        status@ == clean_status(raw@),
{
    match split_at_marker(":", raw) {
        Some((token, _)) => token.to_owned(),
        None => raw.to_owned(),
    }
}

impl NuIoxErrorType {
    /// The name of the kind, as it is shown.
    pub fn to_string(&self) -> (name: String)
        ensures
            name@ == "TableNotFound"@,
    {
        match self {
            NuIoxErrorType::TableNotFound => "TableNotFound".to_owned(),
        }
    }
}

impl NuIoxError {
    /// Reads a failure text part by part, or says which marker it lacks.
    pub fn parse(data: &str) -> (parsed: Result<Self, MarkerError>)
        ensures
            match extract(data@) {
                Ok(record) => parsed matches Ok(found) && found@ == record,
                Err(missing) => parsed == Err::<Self, MarkerError>(missing),
            },
    {
        match split_at_marker(", details: ", data) {
            None => Err(MarkerError::Details),
            Some((header0, behind_details)) => match split_at_marker(
                ", message: ",
                behind_details,
            ) {
                None => Err(MarkerError::Message),
                Some((_, behind_message)) => match split_at_marker("status: ", behind_message) {
                    None => Err(MarkerError::Status),
                    Some((message0, status0)) => {
                        let header1 = remove_colon_from_string(&header0.to_owned());
                        let message1 = remove_slash_from_string(&message0.to_owned());
                        Ok(
                            Self {
                                start: data.to_owned(),
                                error_type: NuIoxErrorType::TableNotFound,
                                header: header1,
                                status: status_of(status0),
                                message: trim_string(message1.as_str()),
                            },
                        )
                    },
                },
            },
        }
    }

    /// The record of a failure text in which the three markers stand in
    /// their order. A text that lacks a marker has no record: `parse` tells
    /// the one from the other.
    pub fn build(data: &str) -> (built: Self)
        requires
            extract(data@) is Ok,
        ensures
            extract(data@) == Ok::<ErrorRecord, MarkerError>(built@),
    {
        match Self::parse(data) {
            Ok(found) => found,
            Err(_) => unreached(),
        }
    }

    /// The lines that show the record: the name of its kind, then its
    /// header, status and message, each without white space at either end
    /// and as `Debug` shows a text.
    pub fn print(self) -> (lines: Vec<String>)
        ensures
            lines.deep_view() == seq![
                "TableNotFound"@,
                debug_text(trim(self@.header)),
                debug_text(trim(self@.status)),
                debug_text(trim(self@.message)),
            ],
    {
        let lines = vec![
            self.error_type.to_string(),
            quoted(trim_string(self.header.as_str()).as_str()),
            quoted(trim_string(self.status.as_str()).as_str()),
            quoted(trim_string(self.message.as_str()).as_str()),
        ];
        assert(lines.deep_view() =~= seq![
            "TableNotFound"@,
            debug_text(trim(self@.header)),
            debug_text(trim(self@.status)),
            debug_text(trim(self@.message)),
        ]);
        lines
    }

    /// The text that the record was read from.
    pub fn start(&self) -> (text: &str)
        ensures
            text@ == self@.start,
    {
        self.start.as_str()
    }

    /// The kind of the failure.
    pub fn error_type(&self) -> (kind: NuIoxErrorType)
        ensures
            kind == self@.kind,
    {
        self.error_type
    }

    /// What stood in front of the details marker, cleaned.
    pub fn header(&self) -> (text: &str)
        ensures
            text@ == self@.header,
    {
        self.header.as_str()
    }

    /// What stood behind the status marker, cleaned.
    pub fn status(&self) -> (text: &str)
        ensures
            text@ == self@.status,
    {
        self.status.as_str()
    }

    /// What stood between the message marker and the status marker, cleaned.
    pub fn message(&self) -> (text: &str)
        ensures
            text@ == self@.message,
    {
        self.message.as_str()
    }
}

impl NuIoxErrorHandler {
    /// Takes `error`, the reply of a command of type `ctype`, for a failure
    /// and reads it. Where the reply lacks a marker no record is made of it,
    /// and the handler keeps which marker it is.
    pub fn new(ctype: CommandType, error: String) -> (handler: Self)
        ensures
            handler@ == (HandlerState { ctype, error: error@, record: extract(error@) }),
    {
        let nu_iox_error = NuIoxError::parse(error.as_str());
        Self { ctype, error, nu_iox_error }
    }

    /// The reply as it came.
    pub fn nu_iox_error_check(&self) -> (reply: Result<String, GenericError>)
        ensures
            reply matches Ok(text) && text@ == self@.error,
    {
        Ok(self.error.clone())
    }

    /// The failure to raise at `head`: its title is the message that was
    /// read out of the reply, or the reply as it came where it lacks a
    /// marker; its label is the name of the kind.
    pub fn nu_iox_error_generic(&self, head: Span) -> (raised: Result<String, GenericError>)
        ensures
            raised matches Err(failure) && {
                &&& failure.error@ == raised_title(self@)
                &&& failure.msg@ == "TableNotFound"@
                &&& failure.span == Some(head)
                &&& failure.help is None
            },
    {
        let error = match &self.nu_iox_error {
            Ok(record) => record.message.clone(),
            Err(_) => self.error.clone(),
        };
        Err(
            GenericError {
                error,
                msg: NuIoxErrorType::TableNotFound.to_string(),
                span: Some(head),
                help: None,
            },
        )
    }

    /// The type of the command whose reply this is.
    pub fn ctype(&self) -> (ctype: CommandType)
        ensures
            ctype == self@.ctype,
    {
        self.ctype
    }

    /// What was read out of the reply, or the marker that it lacks.
    pub fn nu_iox_error(&self) -> (read: Result<&NuIoxError, MarkerError>)
        ensures
            match self@.record {
                Ok(record) => read matches Ok(held) && held@ == record,
                Err(missing) => read matches Err(lacking) && lacking == missing,
            },
    {
        match &self.nu_iox_error {
            Ok(record) => Ok(record),
            Err(missing) => Err(*missing),
        }
    }
}

} // verus!
