//! Client-side core for a remote tabular-query service: which database is
//! selected, how results are rendered and summarised, and how a reply that
//! is really a failure in disguise is told apart from tabular data.

pub mod delimited;
pub mod format;
pub mod namespace;
pub mod nuclient;
pub mod nuerror;
pub mod sql;
pub mod text;

pub use delimited::number_of_csv_records;
pub use format::{OutputFormat, RecordBatch};
pub use namespace::Ioxnamespace;
pub use nuclient::{
    scrape_query, Advisory, Error, Namespace, Nuclient, Pulled, QueryEngine, ReadInfo, Scrape,
    SqlStep,
};
pub use nuerror::{
    remove_colon_from_string, remove_slash_from_string, CommandType, GenericError, MarkerError,
    NuIoxError, NuIoxErrorHandler, NuIoxErrorType, Span,
};
pub use sql::{Classified, Ioxsql};
