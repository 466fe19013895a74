//! Sockets that have been set up, and the procedures that they take part in.
use vstd::prelude::*;

use crate::call::{Call, Event, Procedure, Progress, Ring};
use crate::config::{RingSize, SocketConfig};
use crate::errno::{einval, invalid_argument, Errno};
use crate::socket::{Socket, SocketFd};
use crate::umem::Umem;
use crate::xdp::{
    address_family_xdp, SockAddrXdp, SocketMmapOffsets, XdpStatistics, XdpStatisticsV2,
};

verus! {

/// A ring that this process writes.
#[derive(Debug, PartialEq, Eq)]
pub struct RingProd<R>(pub R);

/// A ring that this process reads.
#[derive(Debug, PartialEq, Eq)]
pub struct RingCons<R>(pub R);

/// The fill ring and the completion ring of a socket.
#[derive(Debug, PartialEq, Eq)]
pub struct DeviceRings<R> {
    pub map: SocketMmapOffsets,
    /// The completion ring.
    pub cons: RingCons<R>,
    /// The fill ring.
    pub prod: RingProd<R>,
}

/// A socket that maintains the fill ring and the completion ring of an interface queue.
#[derive(Debug, PartialEq, Eq)]
pub struct DeviceQueue<R> {
    pub fcq: DeviceRings<R>,
    pub socket: Socket,
}

/// A socket that has been given its receive ring and its transmit ring.
#[derive(Clone, Copy, Debug, PartialEq, Eq)]
pub struct User {
    pub socket: Socket,
    pub config: SocketConfig,
    pub map: SocketMmapOffsets,
}

/// A receive ring in memory.
#[derive(Debug, PartialEq, Eq)]
pub struct RingRx<R> {
    pub ring: RingCons<R>,
    pub fd: SocketFd,
}

/// A transmit ring in memory.
#[derive(Debug, PartialEq, Eq)]
pub struct RingTx<R> {
    pub ring: RingProd<R>,
    pub fd: SocketFd,
}

impl<R> DeviceQueue<R> {
    /// Gets the statistics of this socket. On Linux 5.9 and later, `statistics_v2` has more.
    pub fn statistics(&self) -> (procedure: ReadStatistics)
        ensures
            procedure == (ReadStatistics { fd: self.socket.fd }),
    {
        ReadStatistics { fd: self.socket.fd }
    }

    /// Gets the statistics of this socket.
    pub fn statistics_v2(&self) -> (procedure: ReadStatisticsV2)
        ensures
            procedure == (ReadStatisticsV2 { fd: self.socket.fd }),
    {
        ReadStatisticsV2 { fd: self.socket.fd }
    }

    /// Binds a socket to its interface queue, with the area that this queue's socket uses.
    pub fn bind(&self, interface: &User) -> (procedure: Bind)
        ensures
            procedure == bind_request(*interface, self.socket.fd),
    {
        Umem::bind_at(interface, self.socket.fd)
    }
}

impl User {
    /// Gets the statistics of this socket. On Linux 5.9 and later, `statistics_v2` has more.
    pub fn statistics(&self) -> (procedure: ReadStatistics)
        ensures
            procedure == (ReadStatistics { fd: self.socket.fd }),
    {
        ReadStatistics { fd: self.socket.fd }
    }

    /// Gets the statistics of this socket.
    pub fn statistics_v2(&self) -> (procedure: ReadStatisticsV2)
        ensures
            procedure == (ReadStatisticsV2 { fd: self.socket.fd }),
    {
        ReadStatisticsV2 { fd: self.socket.fd }
    }

    /// Mapping the receive ring, or the error if the socket was configured without one.
    pub open spec fn map_rx_request(self) -> Result<MapRx, Errno> {
        match self.config.rx_size {
            Some(size) => Ok(MapRx { fd: self.socket.fd, map: self.map, size: size@ }),
            None => Err(Errno((-invalid_argument()) as i32)),
        }
    }

    /// Maps the receive ring into memory.
    ///
    /// Fails if the socket was configured without one.
    pub fn map_rx(&self) -> (res: Result<MapRx, Errno>)
        ensures
            res == self.map_rx_request(),
    {
        let size: RingSize = match self.config.rx_size {
            Some(size) => size,
            None => return Err(Errno(-einval())),
        };
        Ok(MapRx { fd: self.socket.fd, map: self.map, size: size.get() })
    }

    /// Mapping the transmit ring, or the error if the socket was configured without one.
    pub open spec fn map_tx_request(self) -> Result<MapTx, Errno> {
        match self.config.tx_size {
            Some(size) => Ok(MapTx { fd: self.socket.fd, map: self.map, size: size@ }),
            None => Err(Errno((-invalid_argument()) as i32)),
        }
    }

    /// Maps the transmit ring into memory.
    ///
    /// Fails if the socket was configured without one.
    pub fn map_tx(&self) -> (res: Result<MapTx, Errno>)
        ensures
            res == self.map_tx_request(),
    {
        let size: RingSize = match self.config.tx_size {
            Some(size) => size,
            None => return Err(Errno(-einval())),
        };
        Ok(MapTx { fd: self.socket.fd, map: self.map, size: size.get() })
    }
}

/// Binding a socket.
#[derive(Clone, Copy, Debug, PartialEq, Eq)]
pub struct Bind {
    pub fd: SocketFd,
    pub addr: SockAddrXdp,
}

/// How a socket is bound with the area that belongs to the socket `umem_fd`. A socket other than
/// that one shares the area: it has to say so, and with whom.
pub open spec fn bind_request(interface: User, umem_fd: SocketFd) -> Bind {
    let shared = interface.socket.fd != umem_fd;
    Bind {
        fd: interface.socket.fd,
        addr: SockAddrXdp {
            family: address_family_xdp() as u16,
            flags: if shared {
                interface.config.bind_flags | SocketConfig::XDP_BIND_SHARED_UMEM
            } else {
                interface.config.bind_flags
            },
            ifindex: interface.socket.info.ctx.ifindex,
            queue_id: interface.socket.info.ctx.queue_id,
            shared_umem_fd: if shared {
                umem_fd.0 as u32
            } else {
                0
            },
        },
    }
}

impl<R> Procedure<R> for Bind {
    type Output = ();

    open spec fn pending(self) -> Call {
        Call::Bind { fd: self.fd, addr: self.addr }
    }

    open spec fn after(self, event: Event<R>) -> Progress<Self, ()> {
        match event {
            Event::Status(status) => Progress::Finished(status.result()),
            _ => Progress::Waiting(self),
        }
    }

    open spec fn calls_left(self) -> nat {
        1
    }

    fn call(&self) -> Call {
        Call::Bind { fd: self.fd, addr: self.addr }
    }

    fn step(self, event: Event<R>) -> Progress<Self, ()> {
        match event {
            Event::Status(status) => Progress::Finished(status.into_result()),
            _ => Progress::Waiting(self),
        }
    }

    proof fn law_stray_event(self, event: Event<R>) {
    }

    proof fn law_failure(self, event: Event<R>) {
    }

    proof fn law_progress(self, event: Event<R>) {
    }
}

/// Reading the statistics of a socket.
#[derive(Clone, Copy, Debug, PartialEq, Eq)]
pub struct ReadStatistics {
    pub fd: SocketFd,
}

impl<R> Procedure<R> for ReadStatistics {
    type Output = XdpStatistics;

    open spec fn pending(self) -> Call {
        Call::Statistics { fd: self.fd }
    }

    open spec fn after(self, event: Event<R>) -> Progress<Self, XdpStatistics> {
        match event {
            Event::Statistics(result) => Progress::Finished(result),
            _ => Progress::Waiting(self),
        }
    }

    open spec fn calls_left(self) -> nat {
        1
    }

    fn call(&self) -> Call {
        Call::Statistics { fd: self.fd }
    }

    fn step(self, event: Event<R>) -> Progress<Self, XdpStatistics> {
        match event {
            Event::Statistics(result) => Progress::Finished(result),
            _ => Progress::Waiting(self),
        }
    }

    proof fn law_stray_event(self, event: Event<R>) {
    }

    proof fn law_failure(self, event: Event<R>) {
    }

    proof fn law_progress(self, event: Event<R>) {
    }
}

/// Reading the extended statistics of a socket.
#[derive(Clone, Copy, Debug, PartialEq, Eq)]
pub struct ReadStatisticsV2 {
    pub fd: SocketFd,
}

impl<R> Procedure<R> for ReadStatisticsV2 {
    type Output = XdpStatisticsV2;

    open spec fn pending(self) -> Call {
        Call::StatisticsV2 { fd: self.fd }
    }

    open spec fn after(self, event: Event<R>) -> Progress<Self, XdpStatisticsV2> {
        match event {
            Event::StatisticsV2(result) => Progress::Finished(result),
            _ => Progress::Waiting(self),
        }
    }

    open spec fn calls_left(self) -> nat {
        1
    }

    fn call(&self) -> Call {
        Call::StatisticsV2 { fd: self.fd }
    }

    fn step(self, event: Event<R>) -> Progress<Self, XdpStatisticsV2> {
        match event {
            Event::StatisticsV2(result) => Progress::Finished(result),
            _ => Progress::Waiting(self),
        }
    }

    proof fn law_stray_event(self, event: Event<R>) {
    }

    proof fn law_failure(self, event: Event<R>) {
    }

    proof fn law_progress(self, event: Event<R>) {
    }
}

/// Mapping a receive ring.
#[derive(Clone, Copy, Debug, PartialEq, Eq)]
pub struct MapRx {
    pub fd: SocketFd,
    pub map: SocketMmapOffsets,
    pub size: u32,
}

impl<R> Procedure<R> for MapRx {
    type Output = RingRx<R>;

    open spec fn pending(self) -> Call {
        Call::MapRing { fd: self.fd, ring: Ring::Rx, map: self.map, size: self.size }
    }

    open spec fn after(self, event: Event<R>) -> Progress<Self, RingRx<R>> {
        match event {
            Event::Mapped(Ok(ring)) => Progress::Finished(
                Ok(RingRx { ring: RingCons(ring), fd: self.fd }),
            ),
            Event::Mapped(Err(e)) => Progress::Finished(Err(e)),
            _ => Progress::Waiting(self),
        }
    }

    open spec fn calls_left(self) -> nat {
        1
    }

    fn call(&self) -> Call {
        Call::MapRing { fd: self.fd, ring: Ring::Rx, map: self.map, size: self.size }
    }

    fn step(self, event: Event<R>) -> Progress<Self, RingRx<R>> {
        match event {
            Event::Mapped(Ok(ring)) => Progress::Finished(
                Ok(RingRx { ring: RingCons(ring), fd: self.fd }),
            ),
            Event::Mapped(Err(e)) => Progress::Finished(Err(e)),
            _ => Progress::Waiting(self),
        }
    }

    proof fn law_stray_event(self, event: Event<R>) {
    }

    proof fn law_failure(self, event: Event<R>) {
    }

    proof fn law_progress(self, event: Event<R>) {
    }
}

/// Mapping a transmit ring.
#[derive(Clone, Copy, Debug, PartialEq, Eq)]
pub struct MapTx {
    pub fd: SocketFd,
    pub map: SocketMmapOffsets,
    pub size: u32,
}

impl<R> Procedure<R> for MapTx {
    type Output = RingTx<R>;

    open spec fn pending(self) -> Call {
        Call::MapRing { fd: self.fd, ring: Ring::Tx, map: self.map, size: self.size }
    }

    open spec fn after(self, event: Event<R>) -> Progress<Self, RingTx<R>> {
        match event {
            Event::Mapped(Ok(ring)) => Progress::Finished(
                Ok(RingTx { ring: RingProd(ring), fd: self.fd }),
            ),
            Event::Mapped(Err(e)) => Progress::Finished(Err(e)),
            _ => Progress::Waiting(self),
        }
    }

    open spec fn calls_left(self) -> nat {
        1
    }

    fn call(&self) -> Call {
        Call::MapRing { fd: self.fd, ring: Ring::Tx, map: self.map, size: self.size }
    }

    fn step(self, event: Event<R>) -> Progress<Self, RingTx<R>> {
        match event {
            Event::Mapped(Ok(ring)) => Progress::Finished(
                Ok(RingTx { ring: RingProd(ring), fd: self.fd }),
            ),
            Event::Mapped(Err(e)) => Progress::Finished(Err(e)),
            _ => Progress::Waiting(self),
        }
    }

    proof fn law_stray_event(self, event: Event<R>) {
    }

    proof fn law_failure(self, event: Event<R>) {
    }

    proof fn law_progress(self, event: Event<R>) {
    }
}

} // verus!
