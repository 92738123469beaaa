//! The message for a command line that was not understood.

use vstd::prelude::*;
use vstd::string::*;

verus! {

/// What stands before the arguments in the message.
pub const ERROR_HEAD: &'static str = "weather: ";

/// What stands after the arguments in the message.
pub const ERROR_TAIL: &'static str =
    ": unrecognized command\nFor help information, type: \"weather help\"";

/// Unit struct for help system.
pub struct Help;

impl Help {
    /// The message for arguments that were not understood.
    pub fn unrecognized(args: &str) -> (message: String)
        ensures
            message@ == ERROR_HEAD@ + args@ + ERROR_TAIL@,
    {
        let mut message: String = String::from_str(ERROR_HEAD);
        message.append(args);
        message.append(ERROR_TAIL);
        message
    }
}

} // verus!
