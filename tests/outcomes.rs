use mio_tcp::error::{ErrnoTable, ErrorKind, Operation, SocketError};
use mio_tcp::options::SockOpt;

const EAGAIN: i32 = 11;
const ENOMEM: i32 = 12;
const EINVAL: i32 = 22;
const ENFILE: i32 = 23;
const EMFILE: i32 = 24;
const EPIPE: i32 = 32;
const EAFNOSUPPORT: i32 = 97;
const EADDRINUSE: i32 = 98;
const EADDRNOTAVAIL: i32 = 99;
const ENETUNREACH: i32 = 101;
const ECONNABORTED: i32 = 103;
const ECONNRESET: i32 = 104;
const ENOBUFS: i32 = 105;
const ENOTCONN: i32 = 107;
const ETIMEDOUT: i32 = 110;
const ECONNREFUSED: i32 = 111;
const EHOSTUNREACH: i32 = 113;
const EINPROGRESS: i32 = 115;

fn linux() -> ErrnoTable {
    ErrnoTable {
        would_block: vec![EAGAIN],
        in_progress: vec![EINPROGRESS],
        allocation: vec![EMFILE, ENFILE, ENOBUFS, ENOMEM, EAFNOSUPPORT],
        address: vec![EADDRINUSE, EADDRNOTAVAIL, EAFNOSUPPORT, ENETUNREACH, EHOSTUNREACH],
        connection: vec![ECONNREFUSED, ECONNRESET, ECONNABORTED, ETIMEDOUT, EPIPE, ENOTCONN],
    }
}

fn err(kind: ErrorKind, code: i32) -> SocketError {
    SocketError { kind, code, option: None }
}

#[test]
fn accept_without_pending_connection_is_absent_every_time() {
    let t = linux();
    for _ in 0..5 {
        assert_eq!(t.accept_outcome::<i32>(Err(EAGAIN)), Ok(None));
    }
}

#[test]
fn accept_hands_back_new_descriptor() {
    assert_eq!(linux().accept_outcome::<i32>(Ok(7)), Ok(Some(7)));
}

#[test]
fn accept_out_of_descriptors_is_allocation_error() {
    assert_eq!(linux().accept_outcome::<i32>(Err(EMFILE)), Err(err(ErrorKind::Allocation, EMFILE)));
}

#[test]
fn accept_on_closed_listener_is_other_error() {
    assert_eq!(linux().accept_outcome::<i32>(Err(EINVAL)), Err(err(ErrorKind::Other, EINVAL)));
}

#[test]
fn connect_in_progress_is_false() {
    assert_eq!(linux().connect_outcome(Err(EINPROGRESS)), Ok(false));
}

#[test]
fn connect_completed_at_once_is_true() {
    assert_eq!(linux().connect_outcome(Ok(())), Ok(true));
}

#[test]
fn connect_refused_is_connection_error() {
    assert_eq!(linux().connect_outcome(Err(ECONNREFUSED)), Err(err(ErrorKind::Connection, ECONNREFUSED)));
}

#[test]
fn connect_family_mismatch_is_address_error() {
    assert_eq!(linux().connect_outcome(Err(EAFNOSUPPORT)), Err(err(ErrorKind::Address, EAFNOSUPPORT)));
}

#[test]
fn connect_would_block_is_not_in_progress() {
    assert_eq!(linux().connect_outcome(Err(EAGAIN)), Err(err(ErrorKind::Other, EAGAIN)));
}

#[test]
fn pending_error_none_is_ok() {
    assert_eq!(linux().pending_outcome(Ok(0)), Ok(()));
}

#[test]
fn pending_refusal_is_connection_error() {
    assert_eq!(linux().pending_outcome(Ok(ECONNREFUSED)), Err(err(ErrorKind::Connection, ECONNREFUSED)));
}

#[test]
fn pending_error_read_failure_is_option_error() {
    assert_eq!(
        linux().pending_outcome(Err(EINVAL)),
        Err(SocketError { kind: ErrorKind::Option, code: EINVAL, option: Some(SockOpt::PendingError) })
    );
}

#[test]
fn open_exhaustion_is_allocation_error() {
    let t = linux();
    assert_eq!(t.settle::<i32>(Operation::Open, Err(ENFILE)), Err(err(ErrorKind::Allocation, ENFILE)));
    assert_eq!(t.settle::<i32>(Operation::Open, Err(EAFNOSUPPORT)), Err(err(ErrorKind::Allocation, EAFNOSUPPORT)));
    assert_eq!(t.settle::<i32>(Operation::Open, Ok(3)), Ok(3));
}

#[test]
fn duplicate_exhaustion_is_allocation_error() {
    assert_eq!(linux().settle::<i32>(Operation::Duplicate, Err(EMFILE)), Err(err(ErrorKind::Allocation, EMFILE)));
}

#[test]
fn bind_in_use_and_unavailable_are_address_errors() {
    let t = linux();
    assert_eq!(t.settle(Operation::Bind, Err::<(), i32>(EADDRINUSE)), Err(err(ErrorKind::Address, EADDRINUSE)));
    assert_eq!(t.settle(Operation::Bind, Err::<(), i32>(EADDRNOTAVAIL)), Err(err(ErrorKind::Address, EADDRNOTAVAIL)));
}

#[test]
fn bind_out_of_memory_is_not_allocation_error() {
    assert_eq!(linux().settle(Operation::Bind, Err::<(), i32>(ENOMEM)), Err(err(ErrorKind::Other, ENOMEM)));
}

#[test]
fn listen_twice_is_other_error() {
    assert_eq!(linux().settle(Operation::Listen, Err::<(), i32>(EINVAL)), Err(err(ErrorKind::Other, EINVAL)));
}

#[test]
fn address_query_unconnected_is_connection_error() {
    assert_eq!(
        linux().settle::<u16>(Operation::AddressQuery, Err(ENOTCONN)),
        Err(err(ErrorKind::Connection, ENOTCONN))
    );
}

#[test]
fn option_failure_carries_option_and_code() {
    assert_eq!(
        linux().classify(Operation::SetOption(SockOpt::NoDelay), EADDRINUSE),
        SocketError { kind: ErrorKind::Option, code: EADDRINUSE, option: Some(SockOpt::NoDelay) }
    );
}

#[test]
fn empty_table_classifies_everything_as_other() {
    let t = ErrnoTable { would_block: vec![], in_progress: vec![], allocation: vec![], address: vec![], connection: vec![] };
    assert_eq!(t.accept_outcome::<i32>(Err(EAGAIN)), Err(err(ErrorKind::Other, EAGAIN)));
    assert_eq!(t.connect_outcome(Err(EINPROGRESS)), Err(err(ErrorKind::Other, EINPROGRESS)));
}

#[test]
fn registration_failure_from_system_is_other_error() {
    assert_eq!(linux().settle(Operation::Register, Err::<(), i32>(ENOMEM)), Err(err(ErrorKind::Other, ENOMEM)));
}
