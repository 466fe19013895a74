//! What holds of a packet buffer area and of the setup of its sockets as a whole.
use vstd::prelude::*;

use crate::area::UmemArea;
use crate::buf::BufIdx;
use crate::call::{calls, run, Call, Event, OptionValue, Procedure, Progress, Ring};
use crate::config::{SocketConfig, UmemConfig};
use crate::device::{bind_request, DeviceQueue, DeviceRings, RingCons, RingProd, User};
use crate::errno::{invalid_argument, Errno, Status};
use crate::option_queue::OptionQueue;
use crate::setup::{FqCq, FqCqStage, OpenUmem, RxTx, RxTxStage};
use crate::socket::{Socket, SocketFd};
use crate::umem::{ring_option, Umem};
use crate::xdp::{SocketMmapOffsets, XdpUmemReg};

verus! {

/// A frame lies in the area, at its offset from the start of the area.
pub proof fn law_frame_in_area(umem: Umem, idx: BufIdx)
    requires
        umem.wf(),
        umem.has_frame(idx),
    ensures
        umem.umem_area.contains(umem.frame_chunk(idx).addr),
        umem.frame_chunk(idx).addr.wf(),
        umem.frame_chunk(idx).addr.addr - umem.umem_area.addr == umem.frame_chunk(idx).offset,
        umem.frame_chunk(idx).addr.len == umem.config.frame_size,
{
    assert(0 <= umem.config.frame_size * idx.0) by (nonlinear_arith);
}

/// Two frames have no byte in common.
pub proof fn law_frames_disjoint(umem: Umem, a: BufIdx, b: BufIdx)
    requires
        umem.wf(),
        umem.has_frame(a),
        umem.has_frame(b),
        a != b,
    ensures
        umem.frame_chunk(a).addr.disjoint(umem.frame_chunk(b).addr),
{
    law_frame_in_area(umem, a);
    law_frame_in_area(umem, b);
    let pitch = umem.config.frame_size;
    if a.0 < b.0 {
        assert(pitch * a.0 + pitch <= pitch * b.0) by (nonlinear_arith)
            requires
                a.0 + 1 <= b.0,
        ;
    } else {
        assert(pitch * b.0 + pitch <= pitch * a.0) by (nonlinear_arith)
            requires
                b.0 + 1 <= a.0,
        ;
    }
}

/// The frames are those with an index below the number of whole frames in the area. The frame
/// count is that number unless it stops at the largest `u32`; then the frame with that index
/// exists too.
pub proof fn law_frame_count(umem: Umem, idx: BufIdx)
    requires
        umem.wf(),
    ensures
        umem.has_frame(idx) <==> idx.0 < umem.umem_area.len as int / umem.config.frame_size as int,
        idx.0 < umem.frame_count() ==> umem.has_frame(idx),
        umem.has_frame(idx) ==> idx.0 < umem.frame_count() || idx.0 == u32::MAX,
{
    let pitch = umem.config.frame_size as int;
    let len = umem.umem_area.len as int;
    let i = idx.0 as int;
    let count = len / pitch;
    assert(pitch * count <= len < pitch * count + pitch) by (nonlinear_arith)
        requires
            pitch > 0,
            count == len / pitch,
    ;
    if i < count {
        assert(pitch * i + pitch <= pitch * count) by (nonlinear_arith)
            requires
                i + 1 <= count,
                pitch > 0,
        ;
    } else {
        assert(pitch * count <= pitch * i) by (nonlinear_arith)
            requires
                count <= i,
                pitch > 0,
        ;
    }
}

/// What the kernel is told of the area fits the frames: the descriptor of a whole frame starts at
/// a multiple of the registered frame size, has that size, and ends in the registered area.
pub proof fn law_frame_descriptor(umem: Umem, idx: BufIdx, reg: XdpUmemReg)
    requires
        umem.wf(),
        umem.has_frame(idx),
        umem.registration().value == OptionValue::UmemReg(reg),
    ensures
        reg.addr == umem.umem_area.addr,
        reg.len == umem.umem_area.len,
        umem.frame_chunk(idx).whole().addr == reg.chunk_size * idx.0,
        umem.frame_chunk(idx).whole().len == reg.chunk_size,
        umem.frame_chunk(idx).whole().addr + umem.frame_chunk(idx).whole().len <= reg.len,
{
    law_frame_in_area(umem, idx);
}

/// A socket that is bound with its own area is bound as it was configured; the kernel is told of
/// no other socket.
pub proof fn law_bind_own(user: User)
    ensures
        bind_request(user, user.socket.fd).addr.flags == user.config.bind_flags,
        bind_request(user, user.socket.fd).addr.shared_umem_fd == 0,
{
}

/// A socket that is bound with the area of another one has the flag for a shared area set, and
/// names that other socket. The other flags are as they were configured.
pub proof fn law_bind_shared(user: User, umem_fd: SocketFd)
    requires
        user.socket.fd != umem_fd,
    ensures
        bind_request(user, umem_fd).addr.flags & SocketConfig::XDP_BIND_SHARED_UMEM
            == SocketConfig::XDP_BIND_SHARED_UMEM,
        bind_request(user, umem_fd).addr.flags & !SocketConfig::XDP_BIND_SHARED_UMEM
            == user.config.bind_flags & !SocketConfig::XDP_BIND_SHARED_UMEM,
        umem_fd.0 >= 0 ==> bind_request(user, umem_fd).addr.shared_umem_fd == umem_fd.0,
{
    let flags = user.config.bind_flags;
    assert((flags | 1u16) & 1u16 == 1u16) by (bit_vector);
    assert((flags | 1u16) & !1u16 == flags & !1u16) by (bit_vector);
}

/// Whatever a socket is bound with, it is that socket which is bound, to its own interface queue.
pub proof fn law_bind_socket(user: User, umem_fd: SocketFd)
    ensures
        bind_request(user, umem_fd).fd == user.socket.fd,
        bind_request(user, umem_fd).addr.ifindex == user.socket.info.ctx.ifindex,
        bind_request(user, umem_fd).addr.queue_id == user.socket.info.ctx.queue_id,
{
}

/// Registering an area opens a socket and, once there is one, tells it of the area. The area is
/// registered if and only if both calls succeed; else the first failure is the result.
pub proof fn law_open_umem<R>(
    config: UmemConfig,
    area: UmemArea,
    opened: Result<SocketFd, Errno>,
    registered: Status,
)
    ensures
        ({
            let procedure = OpenUmem::Socket { config, area };
            let events = seq![Event::<R>::Opened(opened), Event::<R>::Status(registered)];
            match opened {
                Err(e) => {
                    &&& run(procedure, events) == Progress::<OpenUmem, Umem>::Finished(Err(e))
                    &&& calls(procedure, events) == seq![Call::OpenSocket]
                },
                Ok(fd) => {
                    let umem = Umem { config, fd, umem_area: area };
                    &&& calls(procedure, events) == seq![
                        Call::OpenSocket,
                        Call::SetSockOpt(umem.registration()),
                    ]
                    &&& run(procedure, events) == Progress::<OpenUmem, Umem>::Finished(
                        if registered.ret == 0 {
                            Ok(umem)
                        } else {
                            Err(Errno(registered.errno))
                        },
                    )
                },
            }
        }),
{
    let procedure = OpenUmem::Socket { config, area };
    let events = seq![Event::<R>::Opened(opened), Event::<R>::Status(registered)];
    reveal_with_fuel(run, 3);
    reveal_with_fuel(calls, 3);
    assert(events.skip(1)[0] == events[1]);
}

/// Whatever the replies, an area that comes to be registered is the one that was given, cut into
/// frames as it was to be; from a good start it is well formed, and at a page boundary if the
/// given one was.
pub proof fn law_open_umem_area<R>(procedure: OpenUmem, events: Seq<Event<R>>)
    ensures
        run(procedure, events) matches Progress::Finished(Ok(umem)) ==> {
            &&& match procedure {
                OpenUmem::Socket { config, area } => {
                    &&& umem.config == config
                    &&& umem.umem_area == area
                    &&& forall|page_size: usize|
                        area.page_aligned(page_size) ==> umem.umem_area.page_aligned(page_size)
                },
                OpenUmem::Configure(begun) => umem == begun,
            }
            &&& procedure.wf() ==> umem.wf()
        },
    decreases events.len(),
{
    if events.len() > 0 {
        let after: Progress<OpenUmem, Umem> = procedure.after(events[0]);
        if let Progress::Waiting(next) = after {
            law_open_umem_area(next, events.skip(1));
        }
    }
}

/// The calls that set up a device queue, when none of them fails.
pub open spec fn fq_cq_calls(socket: Socket, config: UmemConfig, map: SocketMmapOffsets) -> Seq<
    Call,
> {
    let fd = socket.fd;
    seq![
        Call::SetSockOpt(
            ring_option(fd, Umem::XDP_UMEM_COMPLETION_RING, config.complete_size),
        ),
        Call::SetSockOpt(ring_option(fd, Umem::XDP_UMEM_FILL_RING, config.fill_size)),
        Call::MmapOffsets { fd },
        Call::MapRing { fd, ring: Ring::Fill, map, size: config.fill_size },
        Call::MapRing { fd, ring: Ring::Completion, map, size: config.complete_size },
    ]
}

/// A device queue is set up by five calls in a fixed order, each with the interface's socket. The
/// first that fails ends the setup with its error, and none of the later ones is made. If none
/// fails, the queue has the interface's socket and the two rings, each in its place.
pub proof fn law_fq_cq<R>(
    socket: Socket,
    config: UmemConfig,
    completion: Status,
    fill: Status,
    offsets: Result<SocketMmapOffsets, Errno>,
    prod: Result<R, Errno>,
    cons: Result<R, Errno>,
)
    ensures
        ({
            let procedure = FqCq::<R>::begin(socket, config);
            let events = seq![
                Event::Status(completion),
                Event::Status(fill),
                Event::Offsets(offsets),
                Event::Mapped(prod),
                Event::Mapped(cons),
            ];
            let all = fq_cq_calls(socket, config, offsets->Ok_0);
            let (made, result) = if completion.ret != 0 {
                (1, Err(Errno(completion.errno)))
            } else if fill.ret != 0 {
                (2, Err(Errno(fill.errno)))
            } else if offsets is Err {
                (3, Err(offsets->Err_0))
            } else if prod is Err {
                (4, Err(prod->Err_0))
            } else if cons is Err {
                (5, Err(cons->Err_0))
            } else {
                (
                    5int,
                    Ok(
                        DeviceQueue {
                            fcq: DeviceRings {
                                map: offsets->Ok_0,
                                cons: RingCons(cons->Ok_0),
                                prod: RingProd(prod->Ok_0),
                            },
                            socket,
                        },
                    ),
                )
            };
            &&& run(procedure, events) == Progress::<FqCq<R>, DeviceQueue<R>>::Finished(result)
            &&& calls(procedure, events) == all.take(made)
        }),
{
    let procedure = FqCq::<R>::begin(socket, config);
    let events = seq![
        Event::Status(completion),
        Event::Status(fill),
        Event::Offsets(offsets),
        Event::Mapped(prod),
        Event::Mapped(cons),
    ];
    reveal_with_fuel(run, 6);
    reveal_with_fuel(calls, 6);
    let e1 = events.skip(1);
    let e2 = e1.skip(1);
    let e3 = e2.skip(1);
    let e4 = e3.skip(1);
    assert(e1[0] == events[1]);
    assert(e2[0] == events[2]);
    assert(e3[0] == events[3]);
    assert(e4[0] == events[4]);
    let all = fq_cq_calls(socket, config, offsets->Ok_0);
    let made = calls(procedure, events);
    assert(made =~= all.take(made.len() as int));
}

/// The calls that give a socket its receive ring and its transmit ring: for each of the two, one
/// call if the socket is to have it, else none.
pub open spec fn rt_calls(socket: Socket, config: SocketConfig) -> (Seq<Call>, Seq<Call>) {
    (
        match config.rx_size {
            Some(size) => seq![
                Call::SetSockOpt(ring_option(socket.fd, Umem::XDP_RX_RING, size@)),
            ],
            None => seq![],
        },
        match config.tx_size {
            Some(size) => seq![
                Call::SetSockOpt(ring_option(socket.fd, Umem::XDP_TX_RING, size@)),
            ],
            None => seq![],
        },
    )
}

/// A socket's packet rings are set up by one call for each ring that it is to have, the receive
/// ring first, and one that reads where their parts lie. The first that fails ends the setup with
/// its error, and none of the later ones is made.
pub proof fn law_rx_tx<R>(
    socket: Socket,
    config: SocketConfig,
    rx: Status,
    tx: Status,
    offsets: Result<SocketMmapOffsets, Errno>,
)
    ensures
        ({
            let procedure = RxTx::begin(socket, config);
            let rx_events = if config.rx_size is Some {
                seq![Event::<R>::Status(rx)]
            } else {
                seq![]
            };
            let tx_events = if config.tx_size is Some {
                seq![Event::<R>::Status(tx)]
            } else {
                seq![]
            };
            let events = rx_events + tx_events + seq![Event::<R>::Offsets(offsets)];
            let (rx_calls, tx_calls) = rt_calls(socket, config);
            let (made, result) = if config.rx_size is Some && rx.ret != 0 {
                (rx_calls, Err(Errno(rx.errno)))
            } else if config.tx_size is Some && tx.ret != 0 {
                (rx_calls + tx_calls, Err(Errno(tx.errno)))
            } else {
                (
                    rx_calls + tx_calls + seq![Call::MmapOffsets { fd: socket.fd }],
                    match offsets {
                        Ok(map) => Ok(User { socket, config, map }),
                        Err(e) => Err(e),
                    },
                )
            };
            &&& run(procedure, events) == Progress::<RxTx, User>::Finished(result)
            &&& calls(procedure, events) == made
        }),
{
    let procedure = RxTx::begin(socket, config);
    let rx_events = if config.rx_size is Some {
        seq![Event::<R>::Status(rx)]
    } else {
        seq![]
    };
    let tx_events = if config.tx_size is Some {
        seq![Event::<R>::Status(tx)]
    } else {
        seq![]
    };
    let events = rx_events + tx_events + seq![Event::<R>::Offsets(offsets)];
    reveal_with_fuel(run, 4);
    reveal_with_fuel(calls, 4);
    let e1 = events.skip(1);
    let e2 = e1.skip(1);
    if events.len() > 1 {
        assert(e1[0] == events[1]);
    }
    if events.len() > 2 {
        assert(e2[0] == events[2]);
    }
}

/// The options of the queue are all of one socket.
spec fn all_of(options: OptionQueue, fd: SocketFd) -> bool {
    forall|i: int| 0 <= i < options@.len() ==> (#[trigger] options@[i]).fd == fd
}

spec fn fq_cq_one_socket<R>(procedure: FqCq<R>) -> bool {
    match procedure.stage {
        FqCqStage::Configure { option, rest } => {
            &&& option.fd == procedure.socket.fd
            &&& all_of(rest, procedure.socket.fd)
        },
        _ => true,
    }
}

proof fn lemma_first_and_rest_of(options: OptionQueue, fd: SocketFd)
    requires
        all_of(options, fd),
    ensures
        options.first_and_rest() matches Some((first, rest)) ==> first.fd == fd && all_of(rest, fd),
{
    if let Some((first, rest)) = options.first_and_rest() {
        assert(options@[0] == first);
        assert forall|i: int| 0 <= i < rest@.len() implies (#[trigger] rest@[i]).fd == fd by {
            assert(rest@[i] == options@[i + 1]);
        }
    }
}

proof fn lemma_fq_cq_invariant<R>(procedure: FqCq<R>, events: Seq<Event<R>>)
    requires
        fq_cq_one_socket(procedure),
    ensures
        forall|i: int|
            0 <= i < calls(procedure, events).len() ==> (#[trigger] calls(
                procedure,
                events,
            )[i]).socket() == Some(procedure.socket.fd),
        run(procedure, events) matches Progress::Finished(Ok(queue)) ==> queue.socket
            == procedure.socket,
    decreases events.len(),
{
    if events.len() > 0 {
        if let FqCqStage::Configure { rest, .. } = procedure.stage {
            lemma_first_and_rest_of(rest, procedure.socket.fd);
        }
        let after: Progress<FqCq<R>, DeviceQueue<R>> = procedure.after(events[0]);
        if let Progress::Waiting(next) = after {
            assert(next.socket == procedure.socket);
            lemma_fq_cq_invariant(next, events.skip(1));
        }
    }
}

/// Whatever the replies, the setup of a device queue touches no socket but the interface's, and a
/// queue that comes of it has that socket.
pub proof fn law_fq_cq_socket<R>(socket: Socket, config: UmemConfig, events: Seq<Event<R>>)
    ensures
        ({
            let procedure = FqCq::<R>::begin(socket, config);
            &&& forall|i: int|
                0 <= i < calls(procedure, events).len() ==> (#[trigger] calls(
                    procedure,
                    events,
                )[i]).socket() == Some(socket.fd)
            &&& run(procedure, events) matches Progress::Finished(Ok(queue)) ==> queue.socket
                == socket
        }),
{
    let options = Umem::cq_options(socket.fd, config);
    lemma_first_and_rest_of(options, socket.fd);
    lemma_fq_cq_invariant(FqCq::<R>::begin(socket, config), events);
}

spec fn rx_tx_one_socket(procedure: RxTx) -> bool {
    match procedure.stage {
        RxTxStage::Configure { option, rest } => {
            &&& option.fd == procedure.socket.fd
            &&& all_of(rest, procedure.socket.fd)
        },
        RxTxStage::Offsets => true,
    }
}

proof fn lemma_rx_tx_invariant<R>(procedure: RxTx, events: Seq<Event<R>>)
    requires
        rx_tx_one_socket(procedure),
    ensures
        forall|i: int|
            0 <= i < calls(procedure, events).len() ==> (#[trigger] calls(
                procedure,
                events,
            )[i]).socket() == Some(procedure.socket.fd),
        run(procedure, events) matches Progress::Finished(Ok(user)) ==> {
            &&& user.socket == procedure.socket
            &&& user.config == procedure.config
        },
    decreases events.len(),
{
    if events.len() > 0 {
        if let RxTxStage::Configure { rest, .. } = procedure.stage {
            lemma_first_and_rest_of(rest, procedure.socket.fd);
        }
        let after: Progress<RxTx, User> = procedure.after(events[0]);
        if let Progress::Waiting(next) = after {
            assert(next.socket == procedure.socket);
            assert(next.config == procedure.config);
            lemma_rx_tx_invariant(next, events.skip(1));
        }
    }
}

/// Whatever the replies, the setup of a socket's packet rings touches no other socket, and what
/// comes of it has that socket and its configuration.
pub proof fn law_rx_tx_socket<R>(socket: Socket, config: SocketConfig, events: Seq<Event<R>>)
    ensures
        ({
            let procedure = RxTx::begin(socket, config);
            &&& forall|i: int|
                0 <= i < calls(procedure, events).len() ==> (#[trigger] calls(
                    procedure,
                    events,
                )[i]).socket() == Some(socket.fd)
            &&& run(procedure, events) matches Progress::Finished(Ok(user)) ==> user.socket
                == socket && user.config == config
        }),
{
    let options = Umem::rt_options(socket.fd, config);
    lemma_first_and_rest_of(options, socket.fd);
    lemma_rx_tx_invariant(RxTx::begin(socket, config), events);
}

/// A socket that has been set up has exactly the packet rings that it was configured with: those
/// can be mapped, with the size that the kernel was told, and for the others there is the error
/// for an invalid argument.
pub proof fn law_map_configured<R>(
    socket: Socket,
    config: SocketConfig,
    events: Seq<Event<R>>,
    user: User,
)
    requires
        run(RxTx::begin(socket, config), events) == Progress::<RxTx, User>::Finished(Ok(user)),
    ensures
        user.map_rx_request() is Ok <==> config.rx_size is Some,
        user.map_rx_request() matches Ok(map) ==> map.fd == socket.fd && rt_calls(socket, config).0
            == seq![Call::SetSockOpt(ring_option(socket.fd, Umem::XDP_RX_RING, map.size))],
        user.map_rx_request() matches Err(e) ==> e.0 == -invalid_argument(),
        user.map_tx_request() is Ok <==> config.tx_size is Some,
        user.map_tx_request() matches Ok(map) ==> map.fd == socket.fd && rt_calls(socket, config).1
            == seq![Call::SetSockOpt(ring_option(socket.fd, Umem::XDP_TX_RING, map.size))],
        user.map_tx_request() matches Err(e) ==> e.0 == -invalid_argument(),
{
    law_rx_tx_socket(socket, config, events);
}

} // verus!
