//! The packet buffer area.
use vstd::prelude::*;

use crate::area::{UmemArea, UmemChunk};
use crate::buf::BufIdx;
use crate::call::{OptionValue, SetSockOpt};
use crate::config::{SocketConfig, UmemConfig};
use crate::device::{bind_request, Bind, User};
use crate::option_queue::OptionQueue;
use crate::setup::{FqCq, FqCqStage, OpenUmem, RxTx, RxTxStage};
use crate::socket::{Socket, SocketFd};
use crate::xdp::{SockAddrXdp, XdpUmemReg, SOL_XDP};

verus! {

/// The option that gives a socket a ring with the given number of entries.
pub open spec fn ring_option(fd: SocketFd, name: i32, size: u32) -> SetSockOpt {
    SetSockOpt { fd, level: SOL_XDP, name, value: OptionValue::Size(size) }
}

/// A packet buffer area that a socket has been registered for.
#[derive(Clone, Copy, Debug, PartialEq, Eq)]
pub struct Umem {
    pub config: UmemConfig,
    pub fd: SocketFd,
    pub umem_area: UmemArea,
}

impl Umem {
    /// Socket option: where the parts of the rings lie.
    pub const XDP_MMAP_OFFSETS: i32 = 1;

    /// Socket option: number of entries in the receive ring.
    pub const XDP_RX_RING: i32 = 2;

    /// Socket option: number of entries in the transmit ring.
    pub const XDP_TX_RING: i32 = 3;

    /// Socket option: the packet buffer area.
    pub const XDP_UMEM_REG: i32 = 4;

    /// Socket option: number of entries in the fill ring.
    pub const XDP_UMEM_FILL_RING: i32 = 5;

    /// Socket option: number of entries in the completion ring.
    pub const XDP_UMEM_COMPLETION_RING: i32 = 6;

    /// Socket option: the counters.
    pub const XDP_STATISTICS: i32 = 7;

    /// Socket option: the modes in use.
    pub const XDP_OPTIONS: i32 = 8;

    /// Frames have a size, and the area can be an allocation.
    pub open spec fn wf(self) -> bool {
        &&& self.config.frame_size > 0
        &&& self.umem_area.wf()
    }

    /// Where a frame would start in the area.
    pub open spec fn frame_offset(self, idx: BufIdx) -> int {
        self.config.frame_size * idx.0
    }

    /// The area holds all of the frame.
    pub open spec fn has_frame(self, idx: BufIdx) -> bool {
        self.frame_offset(idx) + self.config.frame_size <= self.umem_area.len
    }

    /// The frame, as a part of the area.
    pub open spec fn frame_chunk(self, idx: BufIdx) -> UmemChunk {
        UmemChunk {
            addr: UmemArea {
                addr: (self.umem_area.addr + self.frame_offset(idx)) as usize,
                len: self.config.frame_size as usize,
            },
            offset: self.frame_offset(idx) as u64,
        }
    }

    /// Number of whole frames in the area, or the largest `u32` if there are more.
    pub open spec fn frame_count(self) -> int {
        let count = self.umem_area.len as int / self.config.frame_size as int;
        if count <= u32::MAX {
            count
        } else {
            u32::MAX as int
        }
    }

    /// Gets the chunk of the area that belongs to a buffer, if it is in bounds.
    pub fn frame(&self, idx: BufIdx) -> (chunk: Option<UmemChunk>)
        requires
            self.wf(),
        ensures
            chunk is Some <==> self.has_frame(idx),
            chunk matches Some(c) ==> {
                &&& c == self.frame_chunk(idx)
                &&& c.addr.addr == self.umem_area.addr + self.frame_offset(idx)
                &&& c.addr.len == self.config.frame_size
                &&& c.offset == self.frame_offset(idx)
            },
    {
        let pitch: u32 = self.config.frame_size;
        let idx: u32 = idx.0;
        let area_size: u64 = self.umem_area.len as u64;
        assert(0 <= pitch * idx <= u32::MAX * u32::MAX) by (nonlinear_arith)
            requires
                0 <= pitch <= u32::MAX,
                0 <= idx <= u32::MAX,
        ;
        let offset: u64 = pitch as u64 * idx as u64;
        match area_size.checked_sub(pitch as u64) {
            Some(last) => {
                if last < offset {
                    return None;
                }
            },
            None => return None,
        }
        // The frame ends in the area, so its address does not wrap round.
        let addr: UmemArea = UmemArea {
            addr: self.umem_area.addr + offset as usize,
            len: pitch as usize,
        };
        Some(UmemChunk { addr, offset })
    }

    /// Counts the available frames.
    pub fn len_frames(&self) -> (count: u32)
        requires
            self.wf(),
        ensures
            count == self.frame_count(),
    {
        let area_size: u64 = self.umem_area.len as u64;
        let count: u64 = area_size / self.config.frame_size as u64;
        if count > u32::MAX as u64 {
            u32::MAX
        } else {
            count as u32
        }
    }

    /// The option that registers the area with its socket.
    pub open spec fn registration(self) -> SetSockOpt {
        SetSockOpt {
            fd: self.fd,
            level: SOL_XDP,
            name: Self::XDP_UMEM_REG,
            value: OptionValue::UmemReg(
                XdpUmemReg {
                    addr: self.umem_area.addr as u64,
                    len: self.umem_area.len as u64,
                    chunk_size: self.config.frame_size,
                    headroom: self.config.headroom,
                    flags: self.config.flags,
                    tx_metadata_len: 0,
                },
            ),
        }
    }

    pub(crate) fn configure(this: &Umem) -> (option: SetSockOpt)
        ensures
            option == this.registration(),
    {
        let mut reg: XdpUmemReg = XdpUmemReg::default();
        reg.addr = this.umem_area.addr as u64;
        reg.len = this.umem_area.len as u64;
        reg.chunk_size = this.config.frame_size;
        reg.headroom = this.config.headroom;
        reg.flags = this.config.flags;
        SetSockOpt {
            fd: this.fd,
            level: SOL_XDP,
            name: Self::XDP_UMEM_REG,
            value: OptionValue::UmemReg(reg),
        }
    }

    /// The options that give a socket its completion ring and its fill ring.
    pub open spec fn cq_options(fd: SocketFd, config: UmemConfig) -> OptionQueue {
        OptionQueue::Two(
            ring_option(fd, Self::XDP_UMEM_COMPLETION_RING, config.complete_size),
            ring_option(fd, Self::XDP_UMEM_FILL_RING, config.fill_size),
        )
    }

    pub(crate) fn configure_cq(fd: SocketFd, config: &UmemConfig) -> (options: OptionQueue)
        ensures
            options == Self::cq_options(fd, *config),
    {
        let completion: SetSockOpt = SetSockOpt {
            fd,
            level: SOL_XDP,
            name: Self::XDP_UMEM_COMPLETION_RING,
            value: OptionValue::Size(config.complete_size),
        };
        let fill: SetSockOpt = SetSockOpt {
            fd,
            level: SOL_XDP,
            name: Self::XDP_UMEM_FILL_RING,
            value: OptionValue::Size(config.fill_size),
        };
        OptionQueue::Two(completion, fill)
    }

    /// The options that give a socket its receive ring and its transmit ring, as far as it is to
    /// have them.
    pub open spec fn rt_options(fd: SocketFd, config: SocketConfig) -> OptionQueue {
        match (config.rx_size, config.tx_size) {
            (Some(rx), Some(tx)) => OptionQueue::Two(
                ring_option(fd, Self::XDP_RX_RING, rx@),
                ring_option(fd, Self::XDP_TX_RING, tx@),
            ),
            (Some(rx), None) => OptionQueue::One(ring_option(fd, Self::XDP_RX_RING, rx@)),
            (None, Some(tx)) => OptionQueue::One(ring_option(fd, Self::XDP_TX_RING, tx@)),
            (None, None) => OptionQueue::Empty,
        }
    }

    pub(crate) fn configure_rt(fd: SocketFd, config: &SocketConfig) -> (options: OptionQueue)
        ensures
            options == Self::rt_options(fd, *config),
    {
        let mut options: OptionQueue = OptionQueue::Empty;
        if let Some(num) = config.rx_size {
            options = options.push(
                SetSockOpt {
                    fd,
                    level: SOL_XDP,
                    name: Self::XDP_RX_RING,
                    value: OptionValue::Size(num.get()),
                },
            );
        }
        if let Some(num) = config.tx_size {
            options = options.push(
                SetSockOpt {
                    fd,
                    level: SOL_XDP,
                    name: Self::XDP_TX_RING,
                    value: OptionValue::Size(num.get()),
                },
            );
        }
        options
    }

    /// Registers a packet buffer area with a new socket.
    ///
    /// The area has to start at a page boundary, and frames have to have a size.
    pub fn new(config: UmemConfig, area: UmemArea, page_size: usize) -> (procedure: OpenUmem)
        requires
            config.frame_size > 0,
            area.wf(),
            page_size > 0,
            area.page_aligned(page_size),
        ensures
            procedure == (OpenUmem::Socket { config, area }),
            procedure.wf(),
    {
        OpenUmem::Socket { config, area }
    }

    /// Configures the fill ring and the completion ring of an interface queue, and maps them.
    ///
    /// Call it only once for each interface queue: each of the rings has one writer and one
    /// reader.
    pub fn fq_cq<R>(&self, interface: &Socket) -> (procedure: FqCq<R>)
        ensures
            procedure == FqCq::<R>::begin(*interface, self.config),
    {
        let options: OptionQueue = Self::configure_cq(interface.fd, &self.config);
        FqCq { socket: *interface, config: self.config, stage: FqCqStage::configure(options) }
    }

    /// Configures the receive ring and the transmit ring of a socket.
    ///
    /// Either of them has to have a size: without any ring, the socket cannot be bound.
    pub fn rx_tx(&self, interface: &Socket, config: &SocketConfig) -> (procedure: RxTx)
        ensures
            procedure == RxTx::begin(*interface, *config),
    {
        let options: OptionQueue = Self::configure_rt(interface.fd, config);
        RxTx { socket: *interface, config: *config, stage: RxTxStage::configure(options) }
    }

    /// Binds a socket to its interface queue, with this area.
    ///
    /// This is for the sockets that maintain the fill ring and the completion ring of an
    /// interface queue, and for those on a queue whose rings the socket of this area maintains.
    /// Others are bound with `DeviceQueue::bind`.
    pub fn bind(&self, interface: &User) -> (procedure: Bind)
        ensures
            procedure == bind_request(*interface, self.fd),
    {
        Self::bind_at(interface, self.fd)
    }

    pub(crate) fn bind_at(interface: &User, umem_fd: SocketFd) -> (procedure: Bind)
        ensures
            procedure == bind_request(*interface, umem_fd),
    {
        let mut addr: SockAddrXdp = SockAddrXdp::default();
        addr.ifindex = interface.socket.info.ctx.ifindex;
        addr.queue_id = interface.socket.info.ctx.queue_id;
        addr.flags = interface.config.bind_flags;
        if interface.socket.fd.0 != umem_fd.0 {
            addr.flags = addr.flags | SocketConfig::XDP_BIND_SHARED_UMEM;
            addr.shared_umem_fd = umem_fd.0 as u32;
        }
        Bind { fd: interface.socket.fd, addr }
    }
}

} // verus!
