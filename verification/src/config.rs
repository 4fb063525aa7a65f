use vstd::prelude::*;
use vstd::string::StringExecFns;
use crate::compare::eq_str;

verus! {

/// Command-line arguments as the caller collected them.
#[derive(Debug, Clone)]
pub struct Args {
    pub file1: String,
    pub file2: String,
    pub suppress_col1: bool,
    pub suppress_col2: bool,
    pub suppress_col3: bool,
    pub insensitive: bool,
    pub delimiter: String,
}

/// Run-wide configuration, constructed once and read-only thereafter.
#[derive(Debug, Clone)]
pub struct Config {
    pub file1: String,
    pub file2: String,
    pub show_col1: bool,
    pub show_col2: bool,
    pub show_col3: bool,
    pub insensitive: bool,
    pub delimiter: String,
}

/// The mathematical image of a configuration.
pub struct ConfigV {
    pub file1: Seq<char>,
    pub file2: Seq<char>,
    pub show_col1: bool,
    pub show_col2: bool,
    pub show_col3: bool,
    pub insensitive: bool,
    pub delimiter: Seq<char>,
}

impl View for Config {
    type V = ConfigV;

    open spec fn view(&self) -> ConfigV {
        ConfigV {
            file1: self.file1@,
            file2: self.file2@,
            show_col1: self.show_col1,
            show_col2: self.show_col2,
            show_col3: self.show_col3,
            insensitive: self.insensitive,
            delimiter: self.delimiter@,
        }
    }
}

/// Build the run configuration from the raw arguments: each suppression flag
/// becomes the visibility of its column, everything else carries over.
pub fn get_args(args: Args) -> (c: Config)
    ensures
        c@.file1 == args.file1@,
        c@.file2 == args.file2@,
        c@.show_col1 == !args.suppress_col1,
        c@.show_col2 == !args.suppress_col2,
        c@.show_col3 == !args.suppress_col3,
        c@.insensitive == args.insensitive,
        c@.delimiter == args.delimiter@,
{
    Config {
        file1: args.file1,
        file2: args.file2,
        show_col1: !args.suppress_col1,
        show_col2: !args.suppress_col2,
        show_col3: !args.suppress_col3,
        insensitive: args.insensitive,
        delimiter: args.delimiter,
    }
}

/// The one configuration error: both inputs name standard input, which cannot
/// be read as two independent streams.
#[derive(Debug, Clone, Copy, PartialEq, Eq, Structural)]
pub enum CommError {
    BothStdin,
}

impl CommError {
    /// A human-readable description of the error.
    pub fn message(&self) -> (r: String)
        ensures
            r@ == "Both input files cannot be STDIN (\"-\")"@,
    {
        String::from_str("Both input files cannot be STDIN (\"-\")")
    }
}

/// Check the configuration before any input is opened: it is rejected exactly
/// when both inputs are the standard-input name `-`.
pub fn validate(config: &Config) -> (r: Result<(), CommError>)
    ensures
        r is Ok <==> !(config@.file1 == "-"@ && config@.file2 == "-"@),
        r is Err ==> r->Err_0 == CommError::BothStdin,
{
    if eq_str(config.file1.as_str(), "-") && eq_str(config.file2.as_str(), "-") {
        Err(CommError::BothStdin)
    } else {
        Ok(())
    }
}

} // verus!
