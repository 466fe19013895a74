//! User-space side of an `AF_XDP` packet buffer area.
//!
//! An area of memory is cut into frames of equal size and registered with the kernel; sockets on
//! the queues of network interfaces then receive packets into its frames and transmit packets
//! from them.
//!
//! The library decides and computes, and leaves the system calls to its driver. What takes system
//! calls is a [`Procedure`]: it names the call that it waits for, takes the reply, and in the end
//! gives its result.
pub mod area;
pub mod buf;
pub mod call;
pub mod config;
pub mod device;
pub mod errno;
pub mod laws;
pub mod operations;
pub mod option_queue;
pub mod setup;
pub mod socket;
pub mod umem;
pub mod xdp;

pub use area::{UmemArea, UmemChunk};
pub use buf::{BufIdx, BufIdxSlice, BufIdxSliceMut, RawSlice, RawSliceMut};
pub use call::{Call, Event, OptionValue, Procedure, Progress, Ring, SetSockOpt};
pub use config::{RingSize, SocketConfig, UmemConfig};
pub use device::{
    Bind, DeviceQueue, DeviceRings, MapRx, MapTx, ReadStatistics, ReadStatisticsV2, RingCons,
    RingProd, RingRx, RingTx, User,
};
pub use errno::{Errno, Status};
pub use setup::{FqCq, OpenUmem, RxTx};
pub use socket::{IfCtx, IfInfo, Socket, SocketFd};
pub use umem::Umem;
pub use xdp::{
    SockAddrXdp, SocketMmapOffsets, XdpDesc, XdpRingOffsets, XdpStatistics, XdpStatisticsV2,
    XdpUmemReg, SOL_XDP,
};
