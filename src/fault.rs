use vstd::prelude::*;

verus! {

/// The kind of an I/O failure, as far as the relay's decisions need it.
#[derive(Clone, Copy, Debug, PartialEq, Eq, Structural)]
pub enum IoErrorKind {
    BrokenPipe,
    ConnectionReset,
    ConnectionAborted,
    NotConnected,
    UnexpectedEof,
    TimedOut,
    Interrupted,
    Other,
}

/// A failure of this kind on a write means that the peer is gone.
pub open spec fn peer_gone(k: IoErrorKind) -> bool {
    match k {
        IoErrorKind::BrokenPipe
        | IoErrorKind::ConnectionReset
        | IoErrorKind::ConnectionAborted
        | IoErrorKind::NotConnected => true,
        _ => false,
    }
}

impl IoErrorKind {
    /// Whether a write that failed this way means the peer has closed.
    pub fn is_peer_closed(&self) -> (r: bool)
        ensures
            r == peer_gone(*self),
    {
        match self {
            IoErrorKind::BrokenPipe
            | IoErrorKind::ConnectionReset
            | IoErrorKind::ConnectionAborted
            | IoErrorKind::NotConnected => true,
            _ => false,
        }
    }
}

} // verus!
