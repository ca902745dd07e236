//! An invocation of the tool: the command that was given, and what it answers.

use vstd::prelude::*;
use crate::element::{exec, report, ElementsArgs};
use crate::error::NotFound;
use crate::sentence::texts;
use crate::table::PeriodicTable;

verus! {

/// The commands of the tool.
#[derive(Debug, Clone)]
pub enum Commands {
    /// Asks for attributes of one element.
    Element(ElementsArgs),
}

/// One invocation of the tool.
#[derive(Debug)]
pub struct Chemicli {
    pub commands: Commands,
}

impl Chemicli {
    /// The query that the invocation makes.
    pub open spec fn query(self) -> ElementsArgs {
        match self.commands {
            Commands::Element(args) => args,
        }
    }

    /// The lines that the invocation prints, given the table: the answer to its query.
    pub fn run(&self, table: &PeriodicTable) -> (r: Result<Vec<String>, NotFound>)
        ensures
            match r {
                Ok(lines) => report(table@, self.query()) == Ok::<Seq<Seq<char>>, NotFound>(
                    texts(lines@),
                ),
                Err(_) => report(table@, self.query()) is Err,
            },
    {
        match &self.commands {
            Commands::Element(args) => exec(args, table),
        }
    }
}

} // verus!
