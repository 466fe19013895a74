//! The procedures that set up a packet buffer area and its sockets.
use vstd::prelude::*;

use crate::area::UmemArea;
use crate::call::{Call, Event, Procedure, Progress, Ring, SetSockOpt};
use crate::config::{SocketConfig, UmemConfig};
use crate::device::{DeviceQueue, DeviceRings, RingCons, RingProd, User};
use crate::option_queue::OptionQueue;
use crate::socket::Socket;
use crate::umem::Umem;
use crate::xdp::SocketMmapOffsets;

verus! {

/// Registering a packet buffer area: a socket is opened, then told of the area.
#[derive(Clone, Copy, Debug, PartialEq, Eq)]
pub enum OpenUmem {
    Socket { config: UmemConfig, area: UmemArea },
    Configure(Umem),
}

impl OpenUmem {
    /// What the procedure ends with, if it succeeds, is well formed.
    pub open spec fn wf(self) -> bool {
        match self {
            OpenUmem::Socket { config, area } => config.frame_size > 0 && area.wf(),
            OpenUmem::Configure(umem) => umem.wf(),
        }
    }
}

impl<R> Procedure<R> for OpenUmem {
    type Output = Umem;

    open spec fn pending(self) -> Call {
        match self {
            OpenUmem::Socket { .. } => Call::OpenSocket,
            OpenUmem::Configure(umem) => Call::SetSockOpt(umem.registration()),
        }
    }

    open spec fn after(self, event: Event<R>) -> Progress<Self, Umem> {
        match (self, event) {
            (OpenUmem::Socket { config, area }, Event::Opened(Ok(fd))) => Progress::Waiting(
                OpenUmem::Configure(Umem { config, fd, umem_area: area }),
            ),
            (OpenUmem::Socket { .. }, Event::Opened(Err(e))) => Progress::Finished(Err(e)),
            (OpenUmem::Configure(umem), Event::Status(status)) => match status.result() {
                Ok(()) => Progress::Finished(Ok(umem)),
                Err(e) => Progress::Finished(Err(e)),
            },
            _ => Progress::Waiting(self),
        }
    }

    open spec fn calls_left(self) -> nat {
        match self {
            OpenUmem::Socket { .. } => 2,
            OpenUmem::Configure(_) => 1,
        }
    }

    fn call(&self) -> Call {
        match self {
            OpenUmem::Socket { .. } => Call::OpenSocket,
            OpenUmem::Configure(umem) => Call::SetSockOpt(Umem::configure(umem)),
        }
    }

    fn step(self, event: Event<R>) -> Progress<Self, Umem> {
        match (self, event) {
            (OpenUmem::Socket { config, area }, Event::Opened(Ok(fd))) => Progress::Waiting(
                OpenUmem::Configure(Umem { config, fd, umem_area: area }),
            ),
            (OpenUmem::Socket { .. }, Event::Opened(Err(e))) => Progress::Finished(Err(e)),
            (OpenUmem::Configure(umem), Event::Status(status)) => match status.into_result() {
                Ok(()) => Progress::Finished(Ok(umem)),
                Err(e) => Progress::Finished(Err(e)),
            },
            _ => Progress::Waiting(self),
        }
    }

    proof fn law_stray_event(self, event: Event<R>) {
    }

    proof fn law_failure(self, event: Event<R>) {
    }

    proof fn law_progress(self, event: Event<R>) {
    }
}

/// How far the setup of a device queue has come.
#[derive(Debug, PartialEq, Eq)]
pub enum FqCqStage<R> {
    /// An option is to be set, and more may follow.
    Configure { option: SetSockOpt, rest: OptionQueue },
    Offsets,
    MapFill { map: SocketMmapOffsets },
    MapCompletion { map: SocketMmapOffsets, prod: RingProd<R> },
}

impl<R> FqCqStage<R> {
    /// The first option of the queue is next, or if there is none, what comes after the options.
    pub open spec fn with_options(options: OptionQueue) -> FqCqStage<R> {
        match options.first_and_rest() {
            Some((option, rest)) => FqCqStage::Configure { option, rest },
            None => FqCqStage::Offsets,
        }
    }

    pub(crate) fn configure(options: OptionQueue) -> (stage: FqCqStage<R>)
        ensures
            stage == Self::with_options(options),
    {
        match options.split_first() {
            Some((option, rest)) => FqCqStage::Configure { option, rest },
            None => FqCqStage::Offsets,
        }
    }
}

/// Setting up a device queue: a socket is given its completion ring and its fill ring, it is
/// asked where their parts lie, and the two rings are mapped, the fill ring first.
#[derive(Debug, PartialEq, Eq)]
pub struct FqCq<R> {
    pub socket: Socket,
    pub config: UmemConfig,
    pub stage: FqCqStage<R>,
}

impl<R> FqCq<R> {
    pub open spec fn begin(socket: Socket, config: UmemConfig) -> FqCq<R> {
        FqCq {
            socket,
            config,
            stage: FqCqStage::with_options(Umem::cq_options(socket.fd, config)),
        }
    }

    /// The same procedure at another stage.
    pub open spec fn at(self, stage: FqCqStage<R>) -> FqCq<R> {
        FqCq { socket: self.socket, config: self.config, stage }
    }
}

impl<R> Procedure<R> for FqCq<R> {
    type Output = DeviceQueue<R>;

    open spec fn pending(self) -> Call {
        let fd = self.socket.fd;
        match self.stage {
            FqCqStage::Configure { option, .. } => Call::SetSockOpt(option),
            FqCqStage::Offsets => Call::MmapOffsets { fd },
            FqCqStage::MapFill { map } => Call::MapRing {
                fd,
                ring: Ring::Fill,
                map,
                size: self.config.fill_size,
            },
            FqCqStage::MapCompletion { map, .. } => Call::MapRing {
                fd,
                ring: Ring::Completion,
                map,
                size: self.config.complete_size,
            },
        }
    }

    open spec fn after(self, event: Event<R>) -> Progress<Self, DeviceQueue<R>> {
        match (self.stage, event) {
            (FqCqStage::Configure { rest, .. }, Event::Status(status)) => match status.result() {
                Ok(()) => Progress::Waiting(self.at(FqCqStage::with_options(rest))),
                Err(e) => Progress::Finished(Err(e)),
            },
            (FqCqStage::Offsets, Event::Offsets(Ok(map))) => Progress::Waiting(
                self.at(FqCqStage::MapFill { map }),
            ),
            (FqCqStage::Offsets, Event::Offsets(Err(e))) => Progress::Finished(Err(e)),
            (FqCqStage::MapFill { map }, Event::Mapped(Ok(ring))) => Progress::Waiting(
                self.at(FqCqStage::MapCompletion { map, prod: RingProd(ring) }),
            ),
            (FqCqStage::MapFill { .. }, Event::Mapped(Err(e))) => Progress::Finished(Err(e)),
            (FqCqStage::MapCompletion { map, prod }, Event::Mapped(Ok(ring))) => Progress::Finished(
                Ok(
                    DeviceQueue {
                        fcq: DeviceRings { map, cons: RingCons(ring), prod },
                        socket: self.socket,
                    },
                ),
            ),
            (FqCqStage::MapCompletion { .. }, Event::Mapped(Err(e))) => Progress::Finished(Err(e)),
            _ => Progress::Waiting(self),
        }
    }

    open spec fn calls_left(self) -> nat {
        match self.stage {
            FqCqStage::Configure { rest, .. } => rest@.len() + 4,
            FqCqStage::Offsets => 3,
            FqCqStage::MapFill { .. } => 2,
            FqCqStage::MapCompletion { .. } => 1,
        }
    }

    fn call(&self) -> Call {
        let fd = self.socket.fd;
        match &self.stage {
            FqCqStage::Configure { option, .. } => Call::SetSockOpt(*option),
            FqCqStage::Offsets => Call::MmapOffsets { fd },
            FqCqStage::MapFill { map } => Call::MapRing {
                fd,
                ring: Ring::Fill,
                map: *map,
                size: self.config.fill_size,
            },
            FqCqStage::MapCompletion { map, .. } => Call::MapRing {
                fd,
                ring: Ring::Completion,
                map: *map,
                size: self.config.complete_size,
            },
        }
    }

    fn step(self, event: Event<R>) -> Progress<Self, DeviceQueue<R>> {
        let FqCq { socket, config, stage } = self;
        let stage = match (stage, event) {
            (FqCqStage::Configure { rest, .. }, Event::Status(status)) => {
                match status.into_result() {
                    Ok(()) => FqCqStage::configure(rest),
                    Err(e) => return Progress::Finished(Err(e)),
                }
            },
            (FqCqStage::Offsets, Event::Offsets(Ok(map))) => FqCqStage::MapFill { map },
            (FqCqStage::Offsets, Event::Offsets(Err(e))) => return Progress::Finished(Err(e)),
            (FqCqStage::MapFill { map }, Event::Mapped(Ok(ring))) => {
                FqCqStage::MapCompletion { map, prod: RingProd(ring) }
            },
            (FqCqStage::MapFill { .. }, Event::Mapped(Err(e))) => {
                return Progress::Finished(Err(e));
            },
            (FqCqStage::MapCompletion { map, prod }, Event::Mapped(Ok(ring))) => {
                return Progress::Finished(
                    Ok(DeviceQueue { fcq: DeviceRings { map, cons: RingCons(ring), prod }, socket }),
                );
            },
            (FqCqStage::MapCompletion { .. }, Event::Mapped(Err(e))) => {
                return Progress::Finished(Err(e));
            },
            (stage, _) => stage,
        };
        Progress::Waiting(FqCq { socket, config, stage })
    }

    proof fn law_stray_event(self, event: Event<R>) {
    }

    proof fn law_failure(self, event: Event<R>) {
    }

    proof fn law_progress(self, event: Event<R>) {
    }
}

/// How far the setup of a socket's packet rings has come.
#[derive(Clone, Copy, Debug, PartialEq, Eq)]
pub enum RxTxStage {
    /// An option is to be set, and more may follow.
    Configure { option: SetSockOpt, rest: OptionQueue },
    Offsets,
}

impl RxTxStage {
    /// The first option of the queue is next, or if there is none, what comes after the options.
    pub open spec fn with_options(options: OptionQueue) -> RxTxStage {
        match options.first_and_rest() {
            Some((option, rest)) => RxTxStage::Configure { option, rest },
            None => RxTxStage::Offsets,
        }
    }

    pub(crate) fn configure(options: OptionQueue) -> (stage: RxTxStage)
        ensures
            stage == Self::with_options(options),
    {
        match options.split_first() {
            Some((option, rest)) => RxTxStage::Configure { option, rest },
            None => RxTxStage::Offsets,
        }
    }
}

/// Setting up a socket's packet rings: it is given the rings that it is to have, the receive ring
/// first, and is asked where their parts lie.
#[derive(Clone, Copy, Debug, PartialEq, Eq)]
pub struct RxTx {
    pub socket: Socket,
    pub config: SocketConfig,
    pub stage: RxTxStage,
}

impl RxTx {
    pub open spec fn begin(socket: Socket, config: SocketConfig) -> RxTx {
        RxTx {
            socket,
            config,
            stage: RxTxStage::with_options(Umem::rt_options(socket.fd, config)),
        }
    }

    /// The same procedure at another stage.
    pub open spec fn at(self, stage: RxTxStage) -> RxTx {
        RxTx { socket: self.socket, config: self.config, stage }
    }
}

impl<R> Procedure<R> for RxTx {
    type Output = User;

    open spec fn pending(self) -> Call {
        match self.stage {
            RxTxStage::Configure { option, .. } => Call::SetSockOpt(option),
            RxTxStage::Offsets => Call::MmapOffsets { fd: self.socket.fd },
        }
    }

    open spec fn after(self, event: Event<R>) -> Progress<Self, User> {
        match (self.stage, event) {
            (RxTxStage::Configure { rest, .. }, Event::Status(status)) => match status.result() {
                Ok(()) => Progress::Waiting(self.at(RxTxStage::with_options(rest))),
                Err(e) => Progress::Finished(Err(e)),
            },
            (RxTxStage::Offsets, Event::Offsets(Ok(map))) => Progress::Finished(
                Ok(User { socket: self.socket, config: self.config, map }),
            ),
            (RxTxStage::Offsets, Event::Offsets(Err(e))) => Progress::Finished(Err(e)),
            _ => Progress::Waiting(self),
        }
    }

    open spec fn calls_left(self) -> nat {
        match self.stage {
            RxTxStage::Configure { rest, .. } => rest@.len() + 2,
            RxTxStage::Offsets => 1,
        }
    }

    fn call(&self) -> Call {
        match self.stage {
            RxTxStage::Configure { option, .. } => Call::SetSockOpt(option),
            RxTxStage::Offsets => Call::MmapOffsets { fd: self.socket.fd },
        }
    }

    fn step(self, event: Event<R>) -> Progress<Self, User> {
        let RxTx { socket, config, stage } = self;
        match (stage, event) {
            (RxTxStage::Configure { rest, .. }, Event::Status(status)) => {
                match status.into_result() {
                    Ok(()) => Progress::Waiting(
                        RxTx { socket, config, stage: RxTxStage::configure(rest) },
                    ),
                    Err(e) => Progress::Finished(Err(e)),
                }
            },
            (RxTxStage::Offsets, Event::Offsets(Ok(map))) => Progress::Finished(
                Ok(User { socket, config, map }),
            ),
            (RxTxStage::Offsets, Event::Offsets(Err(e))) => Progress::Finished(Err(e)),
            _ => Progress::Waiting(self),
        }
    }

    proof fn law_stray_event(self, event: Event<R>) {
    }

    proof fn law_failure(self, event: Event<R>) {
    }

    proof fn law_progress(self, event: Event<R>) {
    }
}

} // verus!
