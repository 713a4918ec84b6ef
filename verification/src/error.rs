//! The failures this layer reports to the host.

use vstd::prelude::*;

verus! {

/// The four families of failure.
#[derive(Clone, Copy, Debug, PartialEq, Eq, Structural)]
pub enum ErrorClass {
    /// Bad input, caught before any native call.
    Argument,
    /// The native side could not construct a client.
    Connection,
    /// The native side could not run a command.
    Execution,
    /// A response carried a discriminant this layer does not know.
    Protocol,
}

/// Why an input was turned away before any native call.
#[derive(Clone, Copy, Debug, PartialEq, Eq, Structural)]
pub enum ArgumentFault {
    /// The client-variant selector names no supported variant.
    UnsupportedClientType,
    /// The client handle has already been released.
    ReleasedHandle,
    /// The request type names no store operation.
    UnknownRequestType,
    /// The request carries no arguments at all.
    MissingArguments,
}

/// The error record of a native command result, copied out of native
/// memory: a typed code and the message bytes, both exactly as the native
/// side wrote them. The message is `None` where its pointer was null.
#[derive(Clone, Debug, PartialEq, Eq)]
pub struct CommandError {
    pub kind: u32,
    pub message: Option<Vec<u8>>,
}

/// A failure of this layer.
#[derive(Clone, Debug, PartialEq, Eq)]
pub enum BridgeError {
    /// Bad input, caught before any native call.
    Argument(ArgumentFault),
    /// Client construction failed. Holds the native message, or nothing
    /// where the native side returned no response at all.
    Connection(Option<Vec<u8>>),
    /// Command execution failed. Holds the native error record, or nothing
    /// where the native side returned no result at all.
    Execution(Option<CommandError>),
    /// A response carried this unknown discriminant.
    Protocol(u32),
}

/// The mathematical content of a [`BridgeError`].
pub enum BridgeErrorView {
    Argument(ArgumentFault),
    Connection(Option<Seq<u8>>),
    Execution(Option<(u32, Option<Seq<u8>>)>),
    Protocol(u32),
}

impl View for CommandError {
    type V = (u32, Option<Seq<u8>>);

    open spec fn view(&self) -> (u32, Option<Seq<u8>>) {
        (
            self.kind,
            match self.message {
                Some(message) => Some(message@),
                None => None,
            },
        )
    }
}

impl View for BridgeError {
    type V = BridgeErrorView;

    open spec fn view(&self) -> BridgeErrorView {
        match self {
            BridgeError::Argument(fault) => BridgeErrorView::Argument(*fault),
            BridgeError::Connection(None) => BridgeErrorView::Connection(None),
            BridgeError::Connection(Some(message)) => BridgeErrorView::Connection(Some(message@)),
            BridgeError::Execution(None) => BridgeErrorView::Execution(None),
            BridgeError::Execution(Some(error)) => BridgeErrorView::Execution(Some(error@)),
            BridgeError::Protocol(discriminant) => BridgeErrorView::Protocol(*discriminant),
        }
    }
}

impl BridgeError {
    /// The family this failure belongs to.
    pub fn class(&self) -> (c: ErrorClass)
        ensures
            c == self@.class(),
    {
        match self {
            BridgeError::Argument(_) => ErrorClass::Argument,
            BridgeError::Connection(_) => ErrorClass::Connection,
            BridgeError::Execution(_) => ErrorClass::Execution,
            BridgeError::Protocol(_) => ErrorClass::Protocol,
        }
    }

    /// The native error code, where the native side gave one.
    pub fn kind(&self) -> (k: Option<u32>)
        ensures
            k == self@.kind(),
    {
        match self {
            BridgeError::Execution(Some(error)) => Some(error.kind),
            _ => None,
        }
    }

    /// The native message, where the native side gave one.
    pub fn message(&self) -> (m: Option<&Vec<u8>>)
        ensures
            m is Some <==> self@.message() is Some,
            m is Some ==> m->0@ == self@.message()->0,
    {
        match self {
            BridgeError::Connection(Some(message)) => Some(message),
            BridgeError::Execution(Some(error)) => match &error.message {
                Some(message) => Some(message),
                None => None,
            },
            _ => None,
        }
    }
}

impl BridgeErrorView {
    /// The family a failure belongs to.
    pub open spec fn class(self) -> ErrorClass {
        match self {
            BridgeErrorView::Argument(_) => ErrorClass::Argument,
            BridgeErrorView::Connection(_) => ErrorClass::Connection,
            BridgeErrorView::Execution(_) => ErrorClass::Execution,
            BridgeErrorView::Protocol(_) => ErrorClass::Protocol,
        }
    }

    /// The native error code, where the native side gave one.
    pub open spec fn kind(self) -> Option<u32> {
        match self {
            BridgeErrorView::Execution(Some(error)) => Some(error.0),
            _ => None,
        }
    }

    /// The native message, where the native side gave one.
    pub open spec fn message(self) -> Option<Seq<u8>> {
        match self {
            BridgeErrorView::Connection(Some(message)) => Some(message),
            BridgeErrorView::Execution(Some(error)) => error.1,
            _ => None,
        }
    }
}

} // verus!
