//! The error taxonomy and the normalisation of raw operating-system codes.
use vstd::prelude::*;

use crate::options::SockOpt;

verus! {

/// The system call that reported a failure.
#[derive(Clone, Copy, Debug, PartialEq, Eq, Structural)]
pub enum Operation {
    Open,
    Duplicate,
    Connect,
    Bind,
    Listen,
    Accept,
    Shutdown,
    AddressQuery,
    PendingError,
    /// Adding, changing or removing a selector registration.
    Register,
    SetOption(SockOpt),
    GetOption(SockOpt),
}

/// The portable classes of genuine failure. "Would block" is not among them:
/// it is reported as an ordinary outcome (`None` from accept, `false` from connect).
#[derive(Clone, Copy, Debug, PartialEq, Eq, Structural)]
pub enum ErrorKind {
    /// No descriptor could be granted (resource exhaustion, unsupported family).
    Allocation,
    /// The address is invalid, in use, unavailable or unreachable.
    Address,
    /// Setting or reading a socket option failed.
    Option,
    /// The connection was refused, reset or aborted.
    Connection,
    /// Any other failure reported by the operating system.
    Other,
}

/// A classified failure, with the operating system's code and, for option
/// calls, the option concerned.
#[derive(Clone, Copy, Debug, PartialEq, Eq, Structural)]
pub struct SocketError {
    pub kind: ErrorKind,
    pub code: i32,
    pub option: Option<SockOpt>,
}

/// The platform's error numbers, grouped by their meaning. The groups may
/// overlap; classification consults them in a fixed order.
pub struct ErrnoTable {
    /// Codes that mean "the operation would block" (`EAGAIN`, `EWOULDBLOCK`).
    pub would_block: Vec<i32>,
    /// Codes that mean "a non-blocking connect is under way" (`EINPROGRESS`).
    pub in_progress: Vec<i32>,
    /// Codes of descriptor or memory exhaustion and unsupported families.
    pub allocation: Vec<i32>,
    /// Codes of bad, busy, unavailable or unreachable addresses.
    pub address: Vec<i32>,
    /// Codes of refused, reset, aborted or absent connections.
    pub connection: Vec<i32>,
}

/// Whether an allocation failure is meaningful for the operation: only calls
/// that produce a new descriptor can run out of them.
pub open spec fn allocates(op: Operation) -> bool {
    op is Open || op is Duplicate || op is Accept
}

/// The option an operation concerns, if it is an option call.
pub open spec fn option_of(op: Operation) -> Option<SockOpt> {
    match op {
        Operation::SetOption(o) => Some(o),
        Operation::GetOption(o) => Some(o),
        _ => None,
    }
}

/// The class of a failure with `code` reported by `op`.
pub open spec fn kind_of(t: ErrnoTable, op: Operation, code: i32) -> ErrorKind {
    if option_of(op) is Some {
        ErrorKind::Option
    } else if allocates(op) && t.allocation@.contains(code) {
        ErrorKind::Allocation
    } else if t.address@.contains(code) {
        ErrorKind::Address
    } else if t.connection@.contains(code) {
        ErrorKind::Connection
    } else {
        ErrorKind::Other
    }
}

/// The error that a failure with `code` reported by `op` becomes.
pub open spec fn error_of(t: ErrnoTable, op: Operation, code: i32) -> SocketError {
    SocketError { kind: kind_of(t, op, code), code, option: option_of(op) }
}

/// An operation's raw result with its failure classified.
pub open spec fn settled<T>(t: ErrnoTable, op: Operation, r: Result<T, i32>) -> Result<T, SocketError> {
    match r {
        Ok(v) => Ok(v),
        Err(c) => Err(error_of(t, op, c)),
    }
}

/// The outcome of a non-blocking accept: a new descriptor, absence when no
/// connection is pending, or a classified failure.
pub open spec fn accepted<T>(t: ErrnoTable, r: Result<T, i32>) -> Result<Option<T>, SocketError> {
    match r {
        Ok(v) => Ok(Some(v)),
        Err(c) => if t.would_block@.contains(c) {
            Ok(None)
        } else {
            Err(error_of(t, Operation::Accept, c))
        },
    }
}

/// The outcome of a non-blocking connect: `true` when it completed at once,
/// `false` while it is under way, or a classified failure.
pub open spec fn connected(t: ErrnoTable, r: Result<(), i32>) -> Result<bool, SocketError> {
    match r {
        Ok(()) => Ok(true),
        Err(c) => if t.in_progress@.contains(c) {
            Ok(false)
        } else {
            Err(error_of(t, Operation::Connect, c))
        },
    }
}

/// The outcome of draining the pending error: the read itself may fail; a
/// zero code means that none was pending.
pub open spec fn drained(t: ErrnoTable, r: Result<i32, i32>) -> Result<(), SocketError> {
    match r {
        Ok(c) => if c == 0 {
            Ok(())
        } else {
            Err(error_of(t, Operation::PendingError, c))
        },
        Err(c) => Err(error_of(t, Operation::GetOption(SockOpt::PendingError), c)),
    }
}

/// Whether `code` is one of `codes`.
pub fn code_in(codes: &Vec<i32>, code: i32) -> (r: bool)
    ensures
        r == codes@.contains(code),
{
    let mut i: usize = 0;
    while i < codes.len()
        invariant
            i <= codes.len(),
            forall|j: int| 0 <= j < i ==> codes@[j] != code,
        decreases codes.len() - i,
    {
        if codes[i] == code {
            assert(codes@[i as int] == code);
            return true;
        }
        i += 1;
    }
    false
}

impl ErrnoTable {
    /// Classifies a failure with `code` reported by `op`: the single
    /// normalisation that every operation goes through.
    pub fn classify(&self, op: Operation, code: i32) -> (e: SocketError)
        ensures
            e == error_of(*self, op, code),
    {
        let option = match op {
            Operation::SetOption(o) => Some(o),
            Operation::GetOption(o) => Some(o),
            _ => None,
        };
        let allocates = match op {
            Operation::Open | Operation::Duplicate | Operation::Accept => true,
            _ => false,
        };
        let kind = if option.is_some() {
            ErrorKind::Option
        } else if allocates && code_in(&self.allocation, code) {
            ErrorKind::Allocation
        } else if code_in(&self.address, code) {
            ErrorKind::Address
        } else if code_in(&self.connection, code) {
            ErrorKind::Connection
        } else {
            ErrorKind::Other
        };
        SocketError { kind, code, option }
    }

    /// Classifies the failure of a raw result and keeps its success.
    pub fn settle<T>(&self, op: Operation, r: Result<T, i32>) -> (s: Result<T, SocketError>)
        ensures
            s == settled(*self, op, r),
    {
        match r {
            Ok(v) => Ok(v),
            Err(c) => Err(self.classify(op, c)),
        }
    }

    /// Interprets the raw result of accept: "would block" is absence.
    pub fn accept_outcome<T>(&self, r: Result<T, i32>) -> (s: Result<Option<T>, SocketError>)
        ensures
            s == accepted(*self, r),
    {
        match r {
            Ok(v) => Ok(Some(v)),
            Err(c) => if code_in(&self.would_block, c) {
                Ok(None)
            } else {
                Err(self.classify(Operation::Accept, c))
            },
        }
    }

    /// Interprets the raw result of connect: "in progress" is `Ok(false)`.
    pub fn connect_outcome(&self, r: Result<(), i32>) -> (s: Result<bool, SocketError>)
        ensures
            s == connected(*self, r),
    {
        match r {
            Ok(()) => Ok(true),
            Err(c) => if code_in(&self.in_progress, c) {
                Ok(false)
            } else {
                Err(self.classify(Operation::Connect, c))
            },
        }
    }

    /// Interprets the raw result of reading the pending error.
    pub fn pending_outcome(&self, r: Result<i32, i32>) -> (s: Result<(), SocketError>)
        ensures
            s == drained(*self, r),
    {
        match r {
            Ok(c) => if c == 0 {
                Ok(())
            } else {
                Err(self.classify(Operation::PendingError, c))
            },
            Err(c) => Err(self.classify(Operation::GetOption(SockOpt::PendingError), c)),
        }
    }
}

/// A non-blocking accept that finds no pending connection reports absence,
/// never an error, however often it is repeated.
pub proof fn accept_without_pending_is_absent<T>(t: ErrnoTable, codes: Seq<i32>)
    requires
        forall|i: int| 0 <= i < codes.len() ==> t.would_block@.contains(#[trigger] codes[i]),
    ensures
        forall|i: int| 0 <= i < codes.len() ==> #[trigger] accepted::<T>(t, Err(codes[i])) == Ok::<Option<T>, SocketError>(None),
{
}

/// A connect that is still under way is reported as `Ok(false)`, never as an error.
pub proof fn connect_in_progress_is_not_an_error(t: ErrnoTable, code: i32)
    requires
        t.in_progress@.contains(code),
    ensures
        connected(t, Err(code)) == Ok::<bool, SocketError>(false),
{
}

/// A refusal drained from the pending error after an asynchronous connect is
/// a connection error carrying the refusal's code.
pub proof fn refused_connect_surfaces_as_connection_error(t: ErrnoTable, refused: i32)
    requires
        refused != 0,
        t.connection@.contains(refused),
        !t.address@.contains(refused),
    ensures
        drained(t, Ok(refused)) == Err::<(), SocketError>(
            SocketError { kind: ErrorKind::Connection, code: refused, option: None },
        ),
{
}

} // verus!
