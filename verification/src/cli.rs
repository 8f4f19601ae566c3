//! The command line: the program's name, then exactly one address.

use vstd::prelude::*;
use vstd::string::*;
use crate::address::{address_of, Address, AddressError, AddressView};

verus! {

/// How many arguments a well-formed command line holds, the program's name
/// included.
pub const EXPECTED_ARGS: usize = 2;

/// Why a command line starts no scan.
#[derive(Debug)]
pub enum StartError {
    /// There is not exactly one argument after the program's name.
    Usage,
    /// The argument is no address.
    BadAddress(AddressError),
}

/// The message that tells how the program `program` is called.
pub open spec fn usage_text(program: Seq<char>) -> Seq<char> {
    "Usage: "@ + program + " <WALLET_ADDRESS>"@
}

/// Writes the message that tells how the program `program` is called.
pub fn usage(program: &str) -> (message: String)
    ensures
        message@ == usage_text(program@),
{
    let mut message = "Usage: ".to_owned();
    message.append(program);
    message.append(" <WALLET_ADDRESS>");
    message
}

/// The exit status of a run that ended in an error.
pub const EXIT_FAILURE: u8 = 1;

impl StartError {
    /// What is written to the error stream for this error, `program` being
    /// the name under which the program was called.
    pub open spec fn message_text(self, program: Seq<char>) -> Seq<char> {
        match self {
            StartError::Usage => usage_text(program),
            StartError::BadAddress(reason) => "Error: "@ + reason.message(),
        }
    }

    /// Writes the line for the error stream.
    pub fn message(&self, program: &str) -> (line: String)
        ensures
            line@ == self.message_text(program@),
    {
        match self {
            StartError::Usage => usage(program),
            StartError::BadAddress(reason) => {
                let mut line = "Error: ".to_owned();
                line.append(reason.describe());
                line
            },
        }
    }

    /// The exit status for this error: never zero, which stands for a scan
    /// that ran to its end.
    pub fn exit_status(&self) -> (status: u8)
        ensures
            status == EXIT_FAILURE,
            status != 0,
    {
        EXIT_FAILURE
    }
}

/// Picks the address out of the argument list `args`, program name first:
/// there is one exactly when one argument follows the program's name.
pub fn address_argument(args: &Vec<String>) -> (picked: Option<&String>)
    ensures
        picked.is_some() == (args@.len() == EXPECTED_ARGS),
        picked matches Some(address) ==> *address == args@[1],
{
    if args.len() == EXPECTED_ARGS {
        Some(&args[1])
    } else {
        None
    }
}

/// What the command line `args`, program name first, starts: a scan of the
/// address that is its one argument, where that decodes to a key. A wrong
/// count is a usage error whatever the arguments hold, and an argument that
/// does not decode is refused with the decoder's reason.
pub open spec fn start_of(args: Seq<String>) -> Result<AddressView, StartError> {
    if args.len() != EXPECTED_ARGS {
        Err(StartError::Usage)
    } else {
        match address_of(args[1]@) {
            Ok(address) => Ok(address),
            Err(reason) => Err(StartError::BadAddress(reason)),
        }
    }
}

/// What a start stands for.
pub open spec fn start_view(start: Result<Address, StartError>) -> Result<AddressView, StartError> {
    match start {
        Ok(address) => Ok(address@),
        Err(error) => Err(error),
    }
}

/// A text that is no address starts no scan: the command line that gives it
/// as its argument ends in an error, with the decoder's reason.
pub proof fn lemma_refused_argument_starts_nothing(args: Seq<String>)
    requires
        args.len() == EXPECTED_ARGS,
        address_of(args[1]@) is Err,
    ensures
        start_of(args) is Err,
        start_of(args)->Err_0 == StartError::BadAddress(address_of(args[1]@)->Err_0),
{
}

/// Reads the command line `args`, program name first.
pub fn read_command_line(args: &Vec<String>) -> (start: Result<Address, StartError>)
    ensures
        start_view(start) == start_of(args@),
{
    match address_argument(args) {
        None => Err(StartError::Usage),
        Some(text) => match Address::parse(text.as_str()) {
            Ok(address) => Ok(address),
            Err(reason) => Err(StartError::BadAddress(reason)),
        },
    }
}

} // verus!
