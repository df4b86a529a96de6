//! What can go wrong, by kind.

use vstd::prelude::*;

verus! {

/// A registry operation that the peer table turns down.
#[derive(Debug, Clone, Copy, PartialEq, Eq, Structural)]
pub enum PeerError {
    AlreadyExists,
    DoesntExist,
    InvalidId,
}

/// A listener that failed.
#[derive(Debug, Clone, Copy, PartialEq, Eq, Structural)]
pub enum IOError {
    MainListener,
    RelayListener,
    UdpSocket,
}

/// Every error of the server, by kind. Only `Config`, `Bind` and
/// `Migration` end the process, and only at startup.
#[derive(Debug, Clone, Copy, PartialEq, Eq, Structural)]
pub enum TangoError {
    Config,
    Bind,
    Migration,
    Db,
    ProtocolDecode,
    Timeout,
    PeerError(PeerError),
    IOError(IOError),
    Relay,
    PasswordHash,
    Unauthorized,
    Forbidden,
}

/// The process's exit code after `e`, where `e` ends it: 1 for a
/// configuration error, 2 for a bind failure, 3 for a failed migration of
/// the durable store. No other error ends the process.
pub open spec fn exit_code_of(e: TangoError) -> Option<i32> {
    match e {
        TangoError::Config => Some(1i32),
        TangoError::Bind => Some(2i32),
        TangoError::Migration => Some(3i32),
        _ => None,
    }
}

impl TangoError {
    /// Whether the error ends the process.
    pub open spec fn fatal(self) -> bool {
        exit_code_of(self) is Some
    }

    /// The exit code with which the process ends after this error, if it ends.
    pub fn exit_code(&self) -> (code: Option<i32>)
        ensures
            code == exit_code_of(*self),
    {
        match self {
            TangoError::Config => Some(1),
            TangoError::Bind => Some(2),
            TangoError::Migration => Some(3),
            _ => None,
        }
    }

    /// Whether the error ends the process.
    pub fn is_fatal(&self) -> (b: bool)
        ensures
            b == self.fatal(),
    {
        self.exit_code().is_some()
    }
}

/// The exit code of a run that ended with `outcome`: 0 after a clean
/// shutdown, the error's own code after a fatal error, and 0 as well after
/// an error that does not end the process.
pub fn process_exit_code(outcome: Result<(), TangoError>) -> (code: i32)
    ensures
        code == match outcome {
            Ok(()) => 0i32,
            Err(e) => match exit_code_of(e) {
                Some(c) => c,
                None => 0i32,
            },
        },
{
    match outcome {
        Ok(()) => 0,
        Err(e) => match e.exit_code() {
            Some(c) => c,
            None => 0,
        },
    }
}

} // verus!
