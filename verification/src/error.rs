//! The errors that the library reports: a category and a message in prose.

use vstd::prelude::*;

verus! {

/// The category of a failure.
#[derive(Clone, Copy, Debug, PartialEq, Eq, Structural)]
pub enum ErrorKind {
    /// An address is empty, lacks its prefix, has the wrong length or is not hexadecimal.
    AddressFormat,
    /// A network name is empty or not among the configured ones.
    UnknownNetwork,
    /// No interface description could be had for a contract.
    InterfaceUnavailable,
    /// The interface description holds no function of the name asked for.
    FunctionNotFound,
    /// Parameters have the wrong shape or count, lack a field, or one does not convert.
    ParameterFormat,
    /// A function name is not an identifier.
    FunctionName,
    /// An amount or price is not a number.
    NumericValue,
    /// A block number is out of range.
    BlockNumber,
    /// The configuration cannot be used.
    Configuration,
    /// A signing credential could not be read.
    Credential,
    /// No code stands at the address.
    NotDeployed,
    /// A response could not be read as the declared outputs.
    Decoding,
    /// The chain connection reported a failure.
    NetworkAction,
    /// The interface lookup service reported a failure.
    RemoteService,
    /// A transaction was submitted but its receipt could not be had.
    ReceiptUnavailable,
}

/// A failure: its category and the message shown to the user.
#[derive(Debug)]
pub struct EngineError {
    pub kind: ErrorKind,
    pub message: String,
}

/// What an [`EngineError`] holds, as mathematical values.
pub struct ErrorView {
    pub kind: ErrorKind,
    pub message: Seq<char>,
}

impl View for EngineError {
    type V = ErrorView;

    open spec fn view(&self) -> ErrorView {
        ErrorView { kind: self.kind, message: self.message@ }
    }
}

impl Clone for EngineError {
    fn clone(&self) -> (r: Self)
        ensures
            r@ == self@,
    {
        EngineError { kind: self.kind, message: self.message.clone() }
    }
}

impl EngineError {
    /// An error of category `kind` with the message `message`.
    pub fn new(kind: ErrorKind, message: String) -> (e: Self)
        ensures
            e@ == (ErrorView { kind, message: message@ }),
    {
        EngineError { kind, message }
    }

    /// The category.
    pub fn kind(&self) -> (k: ErrorKind)
        ensures
            k == self@.kind,
    {
        self.kind
    }

    /// The message.
    pub fn message(&self) -> (m: String)
        ensures
            m@ == self@.message,
    {
        self.message.clone()
    }

    /// The same failure with `prefix` put before its message.
    pub fn context(self, prefix: &str) -> (e: Self)
        ensures
            e@ == (ErrorView { kind: self@.kind, message: prefix@ + self@.message }),
    {
        let mut message = String::from_str(prefix);
        message.append(self.message.as_str());
        EngineError { kind: self.kind, message }
    }
}

} // verus!
