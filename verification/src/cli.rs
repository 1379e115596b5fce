//! Deciding, from the flags and values of a command line, which operation
//! is to run and on what.

use vstd::prelude::*;
use vstd::string::StringExecFns;

verus! {

/// The flags and values of one command line, after parsing.
#[derive(Debug, PartialEq, Eq)]
pub struct CliArgs {
    /// `-h` / `--help`
    pub help: bool,
    /// `-c` / `--compress`
    pub compress: bool,
    /// `-d` / `--decompress`
    pub decompress: bool,
    /// `-a` / `--add`
    pub add: bool,
    /// The values of `-i` / `--input`, in the order given.
    pub input: Vec<String>,
    /// The value of `-o` / `--output`.
    pub output: Option<String>,
}

/// The operation that a command line selects.
#[derive(Debug, PartialEq, Eq)]
pub enum Operation {
    /// Print the usage text.
    Help,
    /// Bundle `inputs` into a fresh archive at `output`.
    Compress { inputs: Vec<String>, output: String },
    /// Unpack the archive at `input` into the directory `output_dir`.
    Decompress { input: String, output_dir: String },
    /// Put the file at `file` behind the archive at `archive`.
    Add { archive: String, file: String },
}

/// A value that an operation cannot do without.
#[derive(Debug, PartialEq, Eq)]
pub enum Argument {
    Input,
    Output,
}

/// Why a command line selects no operation.
#[derive(Debug, PartialEq, Eq)]
pub enum CliError {
    /// The operation needs this value and it was not given.
    MissingArgument(Argument),
    /// None of the operation flags was given.
    UnspecifiedOperation,
}

/// The operation that a command line selects. Help wins over everything;
/// then the first of compress, decompress and add that is set. Compress
/// needs an output and takes any number of inputs, none too. Decompress and
/// add need an output and an input, and use the first input. Add takes the
/// input as the archive and the output as the file to put behind it.
pub open spec fn selected(args: CliArgs) -> Result<Operation, CliError> {
    if args.help {
        Ok(Operation::Help)
    } else if !args.compress && !args.decompress && !args.add {
        Err(CliError::UnspecifiedOperation)
    } else if args.output is None {
        Err(CliError::MissingArgument(Argument::Output))
    } else if args.compress {
        Ok(Operation::Compress { inputs: args.input, output: args.output->0 })
    } else if args.input@.len() == 0 {
        Err(CliError::MissingArgument(Argument::Input))
    } else if args.decompress {
        Ok(Operation::Decompress { input: args.input@[0], output_dir: args.output->0 })
    } else {
        Ok(Operation::Add { archive: args.input@[0], file: args.output->0 })
    }
}

/// Selects the operation of a command line.
pub fn dispatch(args: CliArgs) -> (r: Result<Operation, CliError>)
    ensures
        r == selected(args),
{
    if args.help {
        return Ok(Operation::Help);
    }
    if !args.compress && !args.decompress && !args.add {
        return Err(CliError::UnspecifiedOperation);
    }
    let output = match args.output {
        Some(output) => output,
        None => {
            return Err(CliError::MissingArgument(Argument::Output));
        },
    };
    let mut input = args.input;
    if args.compress {
        return Ok(Operation::Compress { inputs: input, output });
    }
    if input.len() == 0 {
        return Err(CliError::MissingArgument(Argument::Input));
    }
    let first = input.swap_remove(0);
    if args.decompress {
        Ok(Operation::Decompress { input: first, output_dir: output })
    } else {
        Ok(Operation::Add { archive: first, file: output })
    }
}

impl CliError {
    /// The status that the process ends with: never zero.
    pub open spec fn status(self) -> u8 {
        2
    }

    /// The line that tells the user what is wrong.
    pub open spec fn text(self) -> Seq<char> {
        match self {
            CliError::MissingArgument(Argument::Input) => {
                "❌ Missing required argument: --input"@
            },
            CliError::MissingArgument(Argument::Output) => {
                "❌ Missing required argument: --output"@
            },
            CliError::UnspecifiedOperation => {
                "❌ Please specify --compress, --decompress or --add"@
            },
        }
    }

    /// The line that tells the user what is wrong.
    pub fn message(&self) -> (line: String)
        ensures
            line@ == self.text(),
    {
        match self {
            CliError::MissingArgument(Argument::Input) => {
                "❌ Missing required argument: --input".to_owned()
            },
            CliError::MissingArgument(Argument::Output) => {
                "❌ Missing required argument: --output".to_owned()
            },
            CliError::UnspecifiedOperation => {
                "❌ Please specify --compress, --decompress or --add".to_owned()
            },
        }
    }

    /// The status that the process ends with after this error.
    pub fn exit_status(&self) -> (code: u8)
        ensures
            code == self.status(),
            code != 0,
    {
        2
    }
}

/// A command line with the help flag selects help, whatever else it holds:
/// no path of it is used.
pub proof fn law_help_wins(args: CliArgs)
    requires
        args.help,
    ensures
        selected(args) == Ok::<Operation, CliError>(Operation::Help),
{
}

/// A command line with none of the four flags selects nothing; the error it
/// gives ends the process with a status that is not zero, and its line asks
/// for an operation.
pub proof fn law_operation_required(args: CliArgs)
    requires
        !args.help,
        !args.compress,
        !args.decompress,
        !args.add,
    ensures
        selected(args) == Err::<Operation, CliError>(CliError::UnspecifiedOperation),
        CliError::UnspecifiedOperation.status() != 0,
        CliError::UnspecifiedOperation.text()
            == "❌ Please specify --compress, --decompress or --add"@,
{
}

} // verus!
