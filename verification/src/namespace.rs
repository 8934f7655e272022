//! The command that lists the databases of the service.

use vstd::prelude::*;
use crate::format::OutputFormat;
use crate::nuclient::{ClientState, Nuclient};

verus! {

/// The command `ioxnamespace`.
#[derive(Copy, Clone, Debug)]
pub struct Ioxnamespace;

impl Ioxnamespace {
    /// The name of the command.
    pub fn name(&self) -> (name: &'static str)
        ensures
            name@ == "ioxnamespace"@,
    {
        "ioxnamespace"
    }

    /// What the command is for.
    pub fn usage(&self) -> (usage: &'static str)
        ensures
            usage@ == "Show all of the Iox Databases."@,
    {
        "Show all of the Iox Databases."
    }

    /// The client that the listing is made with: no database is selected,
    /// and results come as comma-separated values.
    pub fn session() -> (repl: Nuclient)
        ensures
            repl@ == (ClientState { database: None, format: OutputFormat::Csv }),
    {
        let mut repl = Nuclient::new();
        proof {
            crate::format::lemma_format_names();
        }
        let _output_format = repl.set_output_format("csv");
        repl
    }
}

} // verus!
