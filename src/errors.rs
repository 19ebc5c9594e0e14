//! The errors that sending commands can end in.
use vstd::prelude::*;

verus! {

/// `std::io::Error`, carried through unchanged as the cause of a transport
/// failure; nothing is read from it.
#[verifier::external_type_specification]
#[verifier::external_body]
pub struct ExIoError(std::io::Error);

/// A command that the compositor rejected, with its message verbatim.
#[derive(Clone, Debug)]
pub struct HyprlandError {
    message: String,
}

impl View for HyprlandError {
    type V = Seq<char>;

    closed spec fn view(&self) -> Seq<char> {
        self.message@
    }
}

impl HyprlandError {
    pub fn new(message: String) -> (r: Self)
        ensures
            r@ == message@,
    {
        HyprlandError { message }
    }

    /// The compositor's message.
    pub fn message(&self) -> (r: &str)
        ensures
            r@ == self@,
    {
        self.message.as_str()
    }
}

/// Why a command did not succeed.
#[derive(Debug)]
pub enum CommandError {
    /// The compositor answered with something other than success.
    HyprlandError(HyprlandError),
    /// The control socket could not be reached, written or read.
    IOError(std::io::Error),
}

} // verus!
