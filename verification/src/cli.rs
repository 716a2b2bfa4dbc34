//! The command line: the arguments the program accepts and what they
//! select.  The argument parser itself runs outside the library and
//! hands over plain values.

use vstd::prelude::*;

verus! {

/// The program's arguments: an optional configuration file to generate
/// from, and whether to extract the downloaded archive.
pub struct Args {
    pub file: Option<String>,
    pub extract: bool,
}

/// What the command line selected: nothing (run the interactive
/// session), or a file to generate from, with the extract flag captured
/// only when a file was given.
pub struct CliResult {
    pub file: Option<String>,
    pub extract: Option<bool>,
}

impl Default for CliResult {
    /// No file and no extract flag.
    fn default() -> (r: Self)
        ensures
            r.file is None,
            r.extract is None,
    {
        CliResult { file: Option::None, extract: Option::None }
    }
}

/// Decides what the arguments ask for: without a file there is nothing
/// non-interactive to do; with one, the file and the extract flag are
/// captured together.
pub fn parse(args: Args) -> (r: Option<CliResult>)
    ensures
        args.file is None ==> r is None,
        args.file is Some ==> r is Some && r.unwrap().file == args.file && r.unwrap().extract
            == Option::Some(args.extract),
{
    if args.file.is_none() {
        return Option::None;
    }
    Option::Some(CliResult { file: args.file, extract: Option::Some(args.extract) })
}

} // verus!
