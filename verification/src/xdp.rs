//! Values that cross the boundary to the kernel.
use vstd::prelude::*;

verus! {

/// Option level of the `AF_XDP` socket options.
pub const SOL_XDP: i32 = 283;

/// Description of a packet buffer area, as it is registered with the kernel.
#[derive(Clone, Copy, Debug, PartialEq, Eq)]
pub struct XdpUmemReg {
    /// Address of the first byte of the area.
    pub addr: u64,
    /// Length of the area in bytes.
    pub len: u64,
    /// Size of a frame.
    pub chunk_size: u32,
    /// Bytes left free at the start of each frame.
    pub headroom: u32,
    pub flags: u32,
    pub tx_metadata_len: u32,
}

impl Default for XdpUmemReg {
    fn default() -> (reg: Self)
        ensures
            reg == (XdpUmemReg {
                addr: 0,
                len: 0,
                chunk_size: 0,
                headroom: 0,
                flags: 0,
                tx_metadata_len: 0,
            }),
    {
        XdpUmemReg { addr: 0, len: 0, chunk_size: 0, headroom: 0, flags: 0, tx_metadata_len: 0 }
    }
}

/// Address to which an `AF_XDP` socket is bound.
#[derive(Clone, Copy, Debug, PartialEq, Eq)]
pub struct SockAddrXdp {
    pub family: u16,
    pub flags: u16,
    pub ifindex: u32,
    pub queue_id: u32,
    pub shared_umem_fd: u32,
}

/// Value of the address family `AF_XDP`.
pub open spec fn address_family_xdp() -> i32 {
    44
}

/// Reads the constant `libc::AF_XDP`, which is 44 wherever `libc` declares it.
#[verifier::external_body]
pub(crate) fn af_xdp() -> (family: i32)
    ensures
        family == address_family_xdp(),
{
    libc::AF_XDP
}

impl Default for SockAddrXdp {
    /// An `AF_XDP` address with nothing filled in.
    fn default() -> (addr: Self)
        ensures
            addr == (SockAddrXdp {
                family: address_family_xdp() as u16,
                flags: 0,
                ifindex: 0,
                queue_id: 0,
                shared_umem_fd: 0,
            }),
    {
        SockAddrXdp { family: af_xdp() as u16, flags: 0, ifindex: 0, queue_id: 0, shared_umem_fd: 0 }
    }
}

/// A packet in the area, as it is written to and read from the packet rings.
#[derive(Clone, Copy, Debug, PartialEq, Eq)]
pub struct XdpDesc {
    /// Offset from the start of the area.
    pub addr: u64,
    /// Length of the packet in bytes.
    pub len: u32,
    pub options: u32,
}

/// Where the parts of one ring lie in its mapping.
#[derive(Clone, Copy, Debug, PartialEq, Eq)]
pub struct XdpRingOffsets {
    pub producer: u64,
    pub consumer: u64,
    pub desc: u64,
    pub flags: u64,
}

/// Where the parts of a socket's rings lie in their mappings.
#[derive(Clone, Copy, Debug, PartialEq, Eq)]
pub struct SocketMmapOffsets {
    pub rx: XdpRingOffsets,
    pub tx: XdpRingOffsets,
    pub fr: XdpRingOffsets,
    pub cr: XdpRingOffsets,
}

/// Counters of an `AF_XDP` socket.
#[derive(Clone, Copy, Debug, PartialEq, Eq)]
pub struct XdpStatistics {
    pub rx_dropped: u64,
    pub rx_invalid_descs: u64,
    pub tx_invalid_descs: u64,
}

/// Counters of an `AF_XDP` socket, as Linux 5.9 and later have them.
#[derive(Clone, Copy, Debug, PartialEq, Eq)]
pub struct XdpStatisticsV2 {
    pub rx_dropped: u64,
    pub rx_invalid_descs: u64,
    pub tx_invalid_descs: u64,
    pub rx_ring_full: u64,
    pub rx_fill_ring_empty_descs: u64,
    pub tx_ring_empty_descs: u64,
}

} // verus!
