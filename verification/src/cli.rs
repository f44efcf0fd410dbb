//! What the program is asked to do and what it reports at its end.

use vstd::prelude::*;

verus! {

/// What the command line asks for.
pub enum Invocation {
    /// Print the version and leave.
    Version,
    /// Search the history, starting with this query.
    Search(String),
}

/// What the program leaves behind when it ends.
pub struct Report {
    /// The line for standard output, if there is one.
    pub stdout: Option<String>,
    /// The line for standard error, if there is one.
    pub stderr: Option<String>,
    /// The exit status.
    pub status: i32,
}

/// The version that the program prints.
pub open spec fn version_text() -> Seq<char> {
    "v0.8.17"@
}

/// The query that the command line gives: the first argument behind the
/// program's name, or the empty text where there is none.
pub open spec fn requested_query(args: Seq<String>) -> Seq<char> {
    if args.len() > 1 {
        args[1]@
    } else {
        Seq::empty()
    }
}

/// Reads the command line. The argument `--version`, and nothing else,
/// asks for the version; any other first argument is the query.
pub fn parse_invocation(args: &Vec<String>) -> (invocation: Invocation)
    ensures
        match invocation {
            Invocation::Version => requested_query(args@) == "--version"@,
            Invocation::Search(query) => {
                &&& query@ == requested_query(args@)
                &&& query@ != "--version"@
            },
        },
{
    let query = if args.len() > 1 {
        args[1].clone()
    } else {
        let empty = String::from_str("");
        proof {
            reveal_strlit("");
        }
        empty
    };
    if query == String::from_str("--version") {
        Invocation::Version
    } else {
        Invocation::Search(query)
    }
}

/// The report for a request for the version: the version on standard
/// output and the exit status 1.
pub fn report_version() -> (report: Report)
    ensures
        report.stdout matches Some(line) && line@ == version_text(),
        report.stderr is None,
        report.status == 1,
{
    Report { stdout: Some(String::from_str("v0.8.17")), stderr: None, status: 1 }
}

/// The report for a search that has ended: the chosen text on standard
/// output with status 0, or the error on standard error with status 1.
pub fn report_result(result: Result<String, String>) -> (report: Report)
    ensures
        match result {
            Ok(text) => {
                &&& report.stdout == Some(text)
                &&& report.stderr is None
                &&& report.status == 0
            },
            Err(message) => {
                &&& report.stdout is None
                &&& report.stderr == Some(message)
                &&& report.status == 1
            },
        },
{
    match result {
        Ok(text) => Report { stdout: Some(text), stderr: None, status: 0 },
        Err(message) => Report { stdout: None, stderr: Some(message), status: 1 },
    }
}

} // verus!
