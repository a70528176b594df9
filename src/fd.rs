use vstd::prelude::*;

verus! {

/// Readiness bit: the descriptor can be read.
pub const EVENT_READABLE: u32 = 0x01;

/// Readiness bit: the descriptor can be written.
pub const EVENT_WRITABLE: u32 = 0x02;

/// Readiness bit: the peer hung up.
pub const EVENT_HANGUP: u32 = 0x04;

/// Readiness bit: an error is pending on the descriptor.
pub const EVENT_ERROR: u32 = 0x08;

/// Interest in a file descriptor: a set over readable and writable.
#[derive(Clone, Copy, Debug, PartialEq, Eq, Structural)]
pub struct FdInterest {
    bits: u32,
}

impl View for FdInterest {
    type V = u32;

    closed spec fn view(&self) -> u32 {
        self.bits
    }
}

impl FdInterest {
    /// No interest.
    pub fn empty() -> (r: FdInterest)
        ensures
            r@ == 0,
    {
        FdInterest { bits: 0 }
    }

    /// Interest in the descriptor becoming readable.
    pub fn read() -> (r: FdInterest)
        ensures
            r@ == EVENT_READABLE,
    {
        FdInterest { bits: EVENT_READABLE }
    }

    /// Interest in the descriptor becoming writable.
    pub fn write() -> (r: FdInterest)
        ensures
            r@ == EVENT_WRITABLE,
    {
        FdInterest { bits: EVENT_WRITABLE }
    }

    /// Both interests.
    pub fn union(self, other: FdInterest) -> (r: FdInterest)
        ensures
            r@ == self@ | other@,
    {
        FdInterest { bits: self.bits | other.bits }
    }

    /// The bits handed to the reactor.
    pub fn bits(&self) -> (r: u32)
        ensures
            r == self@,
    {
        self.bits
    }
}

/// What went wrong on a descriptor.
#[derive(Clone, Copy, Debug, PartialEq, Eq, Structural)]
pub enum FdError {
    /// The pending socket error, as an OS error number.
    Os(i32),
    /// The peer hung up.
    ConnectionAborted,
}

/// An event on a file descriptor source.
#[derive(Clone, Copy, Debug, PartialEq, Eq, Structural)]
pub enum FdEvent {
    Ready { fd: i32, mask: FdInterest },
    Error { fd: i32, error: FdError },
}

/// Whether `r` is the event that readiness `mask` on `fd` stands for, given
/// the descriptor's pending error as read (`None`: it could not be read).
///
/// The error bit outranks the hangup bit, which outranks readiness.
pub open spec fn decodes_to(fd: i32, mask: u32, pending: Option<i32>, r: Option<FdEvent>) -> bool {
    if mask & EVENT_ERROR != 0 {
        match pending {
            Some(e) => r == Some(FdEvent::Error { fd, error: FdError::Os(e) }),
            None => r is None,
        }
    } else if mask & EVENT_HANGUP != 0 {
        r == Some(FdEvent::Error { fd, error: FdError::ConnectionAborted })
    } else {
        match r {
            Some(FdEvent::Ready { fd: f, mask: m }) => f == fd && m@ == mask & (EVENT_READABLE
                | EVENT_WRITABLE),
            _ => false,
        }
    }
}

/// The event that readiness `mask` on `fd` stands for, with the pending
/// error `pending` read from the descriptor where the error bit asks for it.
pub fn decode_fd_event(fd: i32, mask: u32, pending: Option<i32>) -> (r: Option<FdEvent>)
    ensures
        decodes_to(fd, mask, pending, r),
{
    if mask & EVENT_ERROR != 0 {
        match pending {
            Some(e) => Some(FdEvent::Error { fd, error: FdError::Os(e) }),
            None => None,
        }
    } else if mask & EVENT_HANGUP != 0 {
        Some(FdEvent::Error { fd, error: FdError::ConnectionAborted })
    } else {
        let mut bits = FdInterest::empty();
        if mask & EVENT_WRITABLE != 0 {
            bits = bits.union(FdInterest::write());
        }
        if mask & EVENT_READABLE != 0 {
            bits = bits.union(FdInterest::read());
        }
        proof {
            lemma_low_bits(mask);
        }
        Some(FdEvent::Ready { fd, mask: bits })
    }
}

proof fn lemma_low_bits(mask: u32)
    ensures
        1u32 | 2u32 == 3u32,
        mask & 2u32 != 0 && mask & 1u32 != 0 ==> (0u32 | 2u32) | 1u32 == mask & 3u32,
        mask & 2u32 != 0 && mask & 1u32 == 0 ==> 0u32 | 2u32 == mask & 3u32,
        mask & 2u32 == 0 && mask & 1u32 != 0 ==> 0u32 | 1u32 == mask & 3u32,
        mask & 2u32 == 0 && mask & 1u32 == 0 ==> 0u32 == mask & 3u32,
{
    assert(1u32 | 2u32 == 3u32) by (bit_vector);
    assert(mask & 2u32 != 0 && mask & 1u32 != 0 ==> (0u32 | 2u32) | 1u32 == mask & 3u32)
        by (bit_vector);
    assert(mask & 2u32 != 0 && mask & 1u32 == 0 ==> 0u32 | 2u32 == mask & 3u32) by (bit_vector);
    assert(mask & 2u32 == 0 && mask & 1u32 != 0 ==> 0u32 | 1u32 == mask & 3u32) by (bit_vector);
    assert(mask & 2u32 == 0 && mask & 1u32 == 0 ==> 0u32 == mask & 3u32) by (bit_vector);
}

/// Relies on nix::sys::socket::getsockopt with the SocketError option: it
/// reads and clears the descriptor's pending error (SO_ERROR). What it reads
/// is the system's state, so nothing is promised of it; `None` stands for a
/// failed query.
#[verifier::external_body]
fn pending_socket_error(fd: i32) -> (r: Option<i32>) {
    nix::sys::socket::getsockopt(fd, nix::sys::socket::sockopt::SocketError).ok()
}

/// The event to deliver for readiness `mask` on `fd`.
///
/// The pending error is queried only where the error bit is set. `None`
/// means that this query failed.
pub fn fd_event(fd: i32, mask: u32) -> (r: Option<FdEvent>)
    ensures
        mask & EVENT_ERROR == 0 ==> decodes_to(fd, mask, None, r),
        mask & EVENT_ERROR != 0 ==> exists|p: Option<i32>| decodes_to(fd, mask, p, r),
{
    if mask & EVENT_ERROR != 0 {
        let pending = pending_socket_error(fd);
        let r = decode_fd_event(fd, mask, pending);
        assert(decodes_to(fd, mask, pending, r));
        r
    } else {
        decode_fd_event(fd, mask, None)
    }
}

/// With no error and no hangup bit, the readable bit alone gives interest in
/// reading, and the readable and writable bits together give both interests.
pub proof fn lemma_readiness_bits(fd: i32, mask: u32, pending: Option<i32>, r: Option<FdEvent>)
    requires
        decodes_to(fd, mask, pending, r),
        mask == EVENT_READABLE || mask == EVENT_READABLE | EVENT_WRITABLE,
    ensures
        mask == EVENT_READABLE ==> (r matches Some(FdEvent::Ready { fd: f, mask: m }) && f == fd
            && m@ == EVENT_READABLE),
        mask == EVENT_READABLE | EVENT_WRITABLE ==> (r matches Some(
            FdEvent::Ready { fd: f, mask: m },
        ) && f == fd && m@ == EVENT_READABLE | EVENT_WRITABLE),
{
    assert(1u32 | 2u32 == 3u32) by (bit_vector);
    assert(1u32 & 8u32 == 0 && 1u32 & 4u32 == 0 && 1u32 & 3u32 == 1u32) by (bit_vector);
    assert((1u32 | 2u32) & 8u32 == 0 && (1u32 | 2u32) & 4u32 == 0 && (1u32 | 2u32) & 3u32 == (1u32
        | 2u32)) by (bit_vector);
}

/// Any mask with the error bit set stands for an error, whatever else is set.
pub proof fn lemma_error_outranks(fd: i32, mask: u32, pending: Option<i32>, r: Option<FdEvent>)
    requires
        decodes_to(fd, mask, pending, r),
        mask & EVENT_ERROR != 0,
    ensures
        r is None || (r matches Some(FdEvent::Error { fd: f, error: FdError::Os(_) }) && f == fd),
{
}

/// The hangup bit without the error bit stands for an aborted connection.
pub proof fn lemma_hangup_is_aborted(fd: i32, mask: u32, pending: Option<i32>, r: Option<FdEvent>)
    requires
        decodes_to(fd, mask, pending, r),
        mask & EVENT_ERROR == 0,
        mask & EVENT_HANGUP != 0,
    ensures
        r == Some(FdEvent::Error { fd, error: FdError::ConnectionAborted }),
{
}

} // verus!
