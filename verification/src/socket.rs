use vstd::prelude::*;

verus! {

/// Number of an `AF_XDP` socket's file descriptor.
#[derive(Clone, Copy, Debug, PartialEq, Eq)]
pub struct SocketFd(pub i32);

/// The queue of a network interface that a socket is meant for.
#[derive(Clone, Copy, Debug, PartialEq, Eq)]
pub struct IfCtx {
    pub ifindex: u32,
    pub queue_id: u32,
}

#[derive(Clone, Copy, Debug, PartialEq, Eq)]
pub struct IfInfo {
    pub ctx: IfCtx,
}

/// A socket for one queue of a network interface.
#[derive(Clone, Copy, Debug, PartialEq, Eq)]
pub struct Socket {
    pub info: IfInfo,
    pub fd: SocketFd,
}

} // verus!
