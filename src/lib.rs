//! Native file-picker and message-box dialogs, with a deferred task that runs a
//! dialog off the calling thread and hands its answer back exactly once.
use vstd::prelude::*;

pub mod channel;
pub mod file;
pub mod message;
pub mod task;

verus! {

/// An operating-system error, carried through unchanged.
#[verifier::external_type_specification]
#[verifier::external_body]
pub struct ExIoError(std::io::Error);

/// Bytes that were not UTF-8, carried through unchanged.
#[verifier::external_type_specification]
#[verifier::external_body]
pub struct ExFromUtf8Error(std::string::FromUtf8Error);

/// What can go wrong when a dialog is shown.
pub enum Error {
    /// A system call failed.
    IoFailure(std::io::Error),
    /// The implementation returned a string that is not UTF-8.
    InvalidString(std::string::FromUtf8Error),
    /// The implementation returned something that could not be parsed.
    UnexpectedOutput(&'static str),
    /// No dialog implementation is available.
    NoImplementation,
    /// The implementation reported an error; the text names the failed call.
    ImplementationError(String),
}

/// The outcome of showing a dialog.
pub type Result<T> = core::result::Result<T, Error>;

/// A dialog that can be shown, blocking until the user answers.
pub trait Dialog {
    type Output;

    fn show(self) -> Result<Self::Output>;
}

} // verus!
