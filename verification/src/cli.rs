use vstd::prelude::*;

verus! {

/// The options the program was started with.
#[derive(Debug)]
pub struct Args {
    /// Print the tokens of each query
    pub dbg_print_tokens: bool,
    /// Print the parsed queries
    pub dbg_print_queries: bool,
    /// Create the root folder when it does not exist
    pub create_dbms_root: bool,
    /// The root folder of the DBMS
    pub db_root: String,
    /// A file of queries to run, in place of reading them interactively
    pub sql_file: Option<String>,
}

} // verus!
