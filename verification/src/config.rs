use vstd::prelude::*;

verus! {

/// Layout of a packet buffer area, and sizes of the two rings that hand its frames over.
#[derive(Clone, Copy, Debug, PartialEq, Eq)]
pub struct UmemConfig {
    /// Number of entries in the fill ring.
    pub fill_size: u32,
    /// Number of entries in the completion ring.
    pub complete_size: u32,
    /// Size of a frame in bytes.
    pub frame_size: u32,
    /// Bytes left free at the start of each frame.
    pub headroom: u32,
    pub flags: u32,
}

/// Number of entries in a packet ring: any number but zero.
#[derive(Clone, Copy, Debug, PartialEq, Eq)]
pub struct RingSize {
    size: u32,
}

impl RingSize {
    #[verifier::type_invariant]
    spec fn not_zero(self) -> bool {
        self.size != 0
    }

    pub closed spec fn view(self) -> u32 {
        self.size
    }

    /// The size, unless it is zero.
    pub fn new(size: u32) -> (res: Option<RingSize>)
        ensures
            res is None <==> size == 0,
            res matches Some(ring_size) ==> ring_size@ == size,
    {
        if size == 0 {
            None
        } else {
            Some(RingSize { size })
        }
    }

    pub fn get(self) -> (size: u32)
        ensures
            size == self@,
            size != 0,
    {
        proof {
            use_type_invariant(&self);
        }
        self.size
    }
}

/// The packet rings that a socket is to have, and how it is to be bound.
#[derive(Clone, Copy, Debug, PartialEq, Eq)]
pub struct SocketConfig {
    /// Size of the receive ring; without it there is none.
    pub rx_size: Option<RingSize>,
    /// Size of the transmit ring; without it there is none.
    pub tx_size: Option<RingSize>,
    /// Combination of the `XDP_BIND_*` flags.
    pub bind_flags: u16,
}

impl SocketConfig {
    /// The socket uses the packet buffer area of another one.
    ///
    /// Generally, this flag need not be passed: it is set when a socket is bound with the area
    /// of another socket.
    pub const XDP_BIND_SHARED_UMEM: u16 = 1;

    /// Force copy mode.
    pub const XDP_BIND_COPY: u16 = 2;

    /// Force zero-copy mode.
    pub const XDP_BIND_ZEROCOPY: u16 = 4;

    /// Have the kernel say when it needs to be woken up.
    pub const XDP_BIND_NEED_WAKEUP: u16 = 8;
}

} // verus!
