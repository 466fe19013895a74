use xsk_umem::{
    Bind, Call, DeviceQueue, DeviceRings, Errno, Event, FqCq, IfCtx, IfInfo, MapRx, MapTx, OpenUmem,
    OptionValue, Procedure, Progress, Ring, RingCons, RingProd, RingRx, RingSize, RingTx, RxTx,
    SetSockOpt, SockAddrXdp, Socket, SocketConfig, SocketFd, SocketMmapOffsets, Status, Umem,
    UmemArea, UmemConfig, User, XdpRingOffsets, XdpStatistics, XdpStatisticsV2, XdpUmemReg,
};

/// Stands for a mapped ring.
type Mapping = &'static str;

const CONFIG: UmemConfig =
    UmemConfig { fill_size: 64, complete_size: 32, frame_size: 2048, headroom: 16, flags: 1 };

const AREA: UmemArea = UmemArea { addr: 0x40_0000, len: 0x1_0000 };

const FAIL: Status = Status { ret: -1, errno: 16 };

/// A call that succeeds leaves the thread's error number as it was.
const DONE: Status = Status { ret: 0, errno: 99 };

fn umem() -> Umem {
    Umem { config: CONFIG, fd: SocketFd(5), umem_area: AREA }
}

fn socket() -> Socket {
    Socket { info: IfInfo { ctx: IfCtx { ifindex: 2, queue_id: 1 } }, fd: SocketFd(7) }
}

fn offsets() -> SocketMmapOffsets {
    let ring = |n: u64| XdpRingOffsets { producer: n, consumer: n + 64, desc: n + 128, flags: n + 4 };
    SocketMmapOffsets { rx: ring(0), tx: ring(1000), fr: ring(2000), cr: ring(3000) }
}

fn user(rx: u32, tx: u32, bind_flags: u16) -> User {
    User { socket: socket(), config: config(rx, tx, bind_flags), map: offsets() }
}

fn config(rx: u32, tx: u32, bind_flags: u16) -> SocketConfig {
    SocketConfig { rx_size: RingSize::new(rx), tx_size: RingSize::new(tx), bind_flags }
}

fn set_size(fd: i32, name: i32, size: u32) -> Call {
    Call::SetSockOpt(SetSockOpt {
        fd: SocketFd(fd),
        level: 283,
        name,
        value: OptionValue::Size(size),
    })
}

/// Runs a procedure on given replies: the calls that it asked for, and where it stands.
fn drive<P: Procedure<Mapping>>(
    mut procedure: P,
    events: Vec<Event<Mapping>>,
) -> (Vec<Call>, Progress<P, P::Output>) {
    let mut calls = vec![procedure.call()];
    for event in events {
        match procedure.step(event) {
            Progress::Waiting(next) => {
                calls.push(next.call());
                procedure = next;
            }
            Progress::Finished(result) => return (calls, Progress::Finished(result)),
        }
    }
    (calls, Progress::Waiting(procedure))
}

fn registration(fd: i32) -> Call {
    Call::SetSockOpt(SetSockOpt {
        fd: SocketFd(fd),
        level: 283,
        name: 4,
        value: OptionValue::UmemReg(XdpUmemReg {
            addr: 0x40_0000,
            len: 0x1_0000,
            chunk_size: 2048,
            headroom: 16,
            flags: 1,
            tx_metadata_len: 0,
        }),
    })
}

#[test]
fn area_is_registered_with_a_new_socket() {
    let (calls, end) = drive(
        Umem::new(CONFIG, AREA, 4096),
        vec![Event::Opened(Ok(SocketFd(5))), Event::Status(DONE)],
    );
    assert_eq!(calls, vec![Call::OpenSocket, registration(5)]);
    assert_eq!(end, Progress::Finished(Ok(umem())));
}

#[test]
fn area_without_a_socket() {
    let (calls, end) = drive(Umem::new(CONFIG, AREA, 4096), vec![Event::Opened(Err(Errno(97)))]);
    assert_eq!(calls, vec![Call::OpenSocket]);
    assert_eq!(end, Progress::Finished(Err(Errno(97))));
}

#[test]
fn area_refused_by_the_kernel() {
    let (calls, end) = drive(
        Umem::new(CONFIG, AREA, 4096),
        vec![Event::Opened(Ok(SocketFd(8))), Event::Status(FAIL)],
    );
    assert_eq!(calls, vec![Call::OpenSocket, registration(8)]);
    assert_eq!(end, Progress::Finished(Err(Errno(16))));
}

fn device_queue_calls() -> Vec<Call> {
    vec![
        set_size(7, 6, 32),
        set_size(7, 5, 64),
        Call::MmapOffsets { fd: SocketFd(7) },
        Call::MapRing { fd: SocketFd(7), ring: Ring::Fill, map: offsets(), size: 64 },
        Call::MapRing { fd: SocketFd(7), ring: Ring::Completion, map: offsets(), size: 32 },
    ]
}

fn device_queue_events() -> Vec<Event<Mapping>> {
    vec![
        Event::Status(DONE),
        Event::Status(DONE),
        Event::Offsets(Ok(offsets())),
        Event::Mapped(Ok("first")),
        Event::Mapped(Ok("second")),
    ]
}

fn device_queue() -> DeviceQueue<Mapping> {
    DeviceQueue {
        fcq: DeviceRings { map: offsets(), cons: RingCons("second"), prod: RingProd("first") },
        socket: socket(),
    }
}

#[test]
fn device_queue_is_set_up() {
    let procedure: FqCq<Mapping> = umem().fq_cq(&socket());
    let (calls, end) = drive(procedure, device_queue_events());
    assert_eq!(calls, device_queue_calls());
    assert_eq!(end, Progress::Finished(Ok(device_queue())));
}

#[test]
fn device_queue_setup_stops_at_the_first_failure() {
    let failures = || -> Vec<Event<Mapping>> {
        vec![
            Event::Status(FAIL),
            Event::Status(Status { ret: 1, errno: 17 }),
            Event::Offsets(Err(Errno(18))),
            Event::Mapped(Err(Errno(19))),
            Event::Mapped(Err(Errno(20))),
        ]
    };
    for (at, failure) in failures().into_iter().enumerate() {
        let mut events = device_queue_events();
        events[at] = failure;
        let procedure: FqCq<Mapping> = umem().fq_cq(&socket());
        let (calls, end) = drive(procedure, events);
        assert_eq!(calls, device_queue_calls()[..at + 1]);
        assert_eq!(end, Progress::Finished(Err(Errno(16 + at as i32))));
    }
}

#[test]
fn stray_reply_changes_nothing() {
    let procedure: FqCq<Mapping> = umem().fq_cq(&socket());
    let mut events = device_queue_events();
    events.insert(1, Event::Mapped(Ok("stray")));
    events.insert(4, Event::Status(FAIL));
    let (calls, end) = drive(procedure, events);
    let mut expected = device_queue_calls();
    expected.insert(1, set_size(7, 5, 64));
    expected.insert(4, expected[4]);
    assert_eq!(calls, expected);
    assert_eq!(end, Progress::Finished(Ok(device_queue())));
}

#[test]
fn both_packet_rings_are_set_up() {
    let procedure: RxTx = umem().rx_tx(&socket(), &config(16, 128, 4));
    let (calls, end) = drive(
        procedure,
        vec![Event::Status(DONE), Event::Status(DONE), Event::Offsets(Ok(offsets()))],
    );
    assert_eq!(
        calls,
        vec![set_size(7, 2, 16), set_size(7, 3, 128), Call::MmapOffsets { fd: SocketFd(7) }]
    );
    assert_eq!(end, Progress::Finished(Ok(user(16, 128, 4))));
}

#[test]
fn one_packet_ring_is_set_up() {
    let (calls, end) = drive(
        umem().rx_tx(&socket(), &config(16, 0, 0)),
        vec![Event::Status(DONE), Event::Offsets(Ok(offsets()))],
    );
    assert_eq!(calls, vec![set_size(7, 2, 16), Call::MmapOffsets { fd: SocketFd(7) }]);
    assert_eq!(end, Progress::Finished(Ok(user(16, 0, 0))));

    let (calls, end) = drive(
        umem().rx_tx(&socket(), &config(0, 128, 0)),
        vec![Event::Status(DONE), Event::Offsets(Ok(offsets()))],
    );
    assert_eq!(calls, vec![set_size(7, 3, 128), Call::MmapOffsets { fd: SocketFd(7) }]);
    assert_eq!(end, Progress::Finished(Ok(user(0, 128, 0))));
}

#[test]
fn no_packet_ring_is_set_up() {
    let (calls, end) =
        drive(umem().rx_tx(&socket(), &config(0, 0, 8)), vec![Event::Offsets(Ok(offsets()))]);
    assert_eq!(calls, vec![Call::MmapOffsets { fd: SocketFd(7) }]);
    assert_eq!(end, Progress::Finished(Ok(user(0, 0, 8))));
}

#[test]
fn packet_ring_setup_stops_at_the_first_failure() {
    let start = || umem().rx_tx(&socket(), &config(16, 128, 0));
    let (calls, end) = drive(start(), vec![Event::Status(FAIL)]);
    assert_eq!(calls.len(), 1);
    assert_eq!(end, Progress::Finished(Err(Errno(16))));
    let (calls, end) = drive(start(), vec![Event::Status(DONE), Event::Status(FAIL)]);
    assert_eq!(calls.len(), 2);
    assert_eq!(end, Progress::Finished(Err(Errno(16))));
    let (calls, end) = drive(
        start(),
        vec![Event::Status(DONE), Event::Status(DONE), Event::Offsets(Err(Errno(92)))],
    );
    assert_eq!(calls.len(), 3);
    assert_eq!(end, Progress::Finished(Err(Errno(92))));
}

#[test]
fn unfinished_procedure_waits() {
    let (calls, end) =
        drive(umem().rx_tx(&socket(), &config(16, 128, 0)), vec![Event::Status(DONE)]);
    assert_eq!(calls, vec![set_size(7, 2, 16), set_size(7, 3, 128)]);
    assert!(matches!(end, Progress::Waiting(_)));
}

fn address(flags: u16, shared_umem_fd: u32) -> SockAddrXdp {
    SockAddrXdp { family: libc::AF_XDP as u16, flags, ifindex: 2, queue_id: 1, shared_umem_fd }
}

#[test]
fn socket_is_bound_with_its_own_area() {
    let mut area = umem();
    area.fd = SocketFd(7);
    let procedure: Bind = area.bind(&user(16, 16, 12));
    assert_eq!(procedure, Bind { fd: SocketFd(7), addr: address(12, 0) });
}

#[test]
fn socket_is_bound_with_a_shared_area() {
    let (calls, end) = drive(umem().bind(&user(16, 16, 8)), vec![Event::Status(DONE)]);
    assert_eq!(calls, vec![Call::Bind { fd: SocketFd(7), addr: address(9, 5) }]);
    assert_eq!(end, Progress::Finished(Ok(())));
}

#[test]
fn shared_flag_may_be_passed() {
    let flags = SocketConfig::XDP_BIND_SHARED_UMEM | SocketConfig::XDP_BIND_COPY;
    let procedure = umem().bind(&user(16, 16, flags));
    assert_eq!(procedure.addr, address(3, 5));
}

#[test]
fn binding_fails_with_the_error_of_the_call() {
    let (_, end) = drive(umem().bind(&user(16, 16, 0)), vec![Event::Status(FAIL)]);
    assert_eq!(end, Progress::Finished(Err(Errno(16))));
}

#[test]
fn socket_is_bound_with_the_area_of_a_device_queue() {
    let queue = device_queue();
    assert_eq!(queue.bind(&user(16, 16, 4)).addr, address(4, 0));
    let mut other = user(16, 16, 4);
    other.socket.fd = SocketFd(9);
    assert_eq!(queue.bind(&other), Bind { fd: SocketFd(9), addr: address(5, 7) });
}

#[test]
fn bind_flags_have_the_values_of_the_kernel() {
    assert_eq!(SocketConfig::XDP_BIND_SHARED_UMEM, libc::XDP_SHARED_UMEM);
    assert_eq!(SocketConfig::XDP_BIND_COPY, libc::XDP_COPY);
    assert_eq!(SocketConfig::XDP_BIND_ZEROCOPY, libc::XDP_ZEROCOPY);
    assert_eq!(SocketConfig::XDP_BIND_NEED_WAKEUP, libc::XDP_USE_NEED_WAKEUP);
}

#[test]
fn option_numbers_have_the_values_of_the_kernel() {
    assert_eq!(xsk_umem::SOL_XDP, libc::SOL_XDP);
    assert_eq!(Umem::XDP_MMAP_OFFSETS, libc::XDP_MMAP_OFFSETS);
    assert_eq!(Umem::XDP_RX_RING, libc::XDP_RX_RING);
    assert_eq!(Umem::XDP_TX_RING, libc::XDP_TX_RING);
    assert_eq!(Umem::XDP_UMEM_REG, libc::XDP_UMEM_REG);
    assert_eq!(Umem::XDP_UMEM_FILL_RING, libc::XDP_UMEM_FILL_RING);
    assert_eq!(Umem::XDP_UMEM_COMPLETION_RING, libc::XDP_UMEM_COMPLETION_RING);
    assert_eq!(Umem::XDP_STATISTICS, libc::XDP_STATISTICS);
    assert_eq!(Umem::XDP_OPTIONS, libc::XDP_OPTIONS);
}

#[test]
fn default_address_is_of_the_xdp_family() {
    let addr = SockAddrXdp::default();
    assert_eq!(
        addr,
        SockAddrXdp { family: 44, flags: 0, ifindex: 0, queue_id: 0, shared_umem_fd: 0 }
    );
    assert_eq!(libc::AF_XDP, 44);
}

#[test]
fn receive_ring_is_mapped() {
    let procedure: MapRx = user(16, 128, 0).map_rx().unwrap();
    let (calls, end) = drive(procedure, vec![Event::Mapped(Ok("rx"))]);
    assert_eq!(
        calls,
        vec![Call::MapRing { fd: SocketFd(7), ring: Ring::Rx, map: offsets(), size: 16 }]
    );
    assert_eq!(end, Progress::Finished(Ok(RingRx { ring: RingCons("rx"), fd: SocketFd(7) })));
    let (_, end) = drive(procedure, vec![Event::Mapped(Err(Errno(12)))]);
    assert_eq!(end, Progress::Finished(Err(Errno(12))));
}

#[test]
fn transmit_ring_is_mapped() {
    let procedure: MapTx = user(16, 128, 0).map_tx().unwrap();
    let (calls, end) = drive(procedure, vec![Event::Mapped(Ok("tx"))]);
    assert_eq!(
        calls,
        vec![Call::MapRing { fd: SocketFd(7), ring: Ring::Tx, map: offsets(), size: 128 }]
    );
    assert_eq!(end, Progress::Finished(Ok(RingTx { ring: RingProd("tx"), fd: SocketFd(7) })));
    let (_, end) = drive(procedure, vec![Event::Mapped(Err(Errno(12)))]);
    assert_eq!(end, Progress::Finished(Err(Errno(12))));
}

#[test]
fn ring_without_a_size_is_not_mapped() {
    assert_eq!(user(0, 128, 0).map_rx(), Err(Errno(-22)));
    assert_eq!(user(16, 0, 0).map_tx(), Err(Errno(-22)));
    assert_eq!(user(0, 0, 0).map_rx(), Err(Errno(-libc::EINVAL)));
    assert!(user(0, 128, 0).map_tx().is_ok());
    assert!(user(16, 0, 0).map_rx().is_ok());
}

#[test]
fn statistics_of_a_socket() {
    let counters = XdpStatistics { rx_dropped: 1, rx_invalid_descs: 2, tx_invalid_descs: 3 };
    let (calls, end) =
        drive(user(16, 16, 0).statistics(), vec![Event::Statistics(Ok(counters))]);
    assert_eq!(calls, vec![Call::Statistics { fd: SocketFd(7) }]);
    assert_eq!(end, Progress::Finished(Ok(counters)));
    let (calls, end) =
        drive(device_queue().statistics(), vec![Event::Statistics(Err(Errno(9)))]);
    assert_eq!(calls, vec![Call::Statistics { fd: SocketFd(7) }]);
    assert_eq!(end, Progress::Finished(Err(Errno(9))));
}

#[test]
fn extended_statistics_of_a_socket() {
    let counters = XdpStatisticsV2 {
        rx_dropped: 1,
        rx_invalid_descs: 2,
        tx_invalid_descs: 3,
        rx_ring_full: 4,
        rx_fill_ring_empty_descs: 5,
        tx_ring_empty_descs: 6,
    };
    let (calls, end) =
        drive(device_queue().statistics_v2(), vec![Event::StatisticsV2(Ok(counters))]);
    assert_eq!(calls, vec![Call::StatisticsV2 { fd: SocketFd(7) }]);
    assert_eq!(end, Progress::Finished(Ok(counters)));
    let (calls, end) =
        drive(user(16, 16, 0).statistics_v2(), vec![Event::StatisticsV2(Err(Errno(9)))]);
    assert_eq!(calls, vec![Call::StatisticsV2 { fd: SocketFd(7) }]);
    assert_eq!(end, Progress::Finished(Err(Errno(9))));
}

#[test]
fn opening_starts_without_a_socket() {
    assert_eq!(
        Umem::new(CONFIG, AREA, 4096),
        OpenUmem::Socket { config: CONFIG, area: AREA }
    );
}

#[test]
fn status_of_a_call() {
    assert_eq!(DONE.into_result(), Ok(()));
    assert_eq!(FAIL.into_result(), Err(Errno(16)));
    assert_eq!(Status { ret: 2, errno: 0 }.into_result(), Err(Errno(0)));
}

#[test]
fn ring_size_is_not_zero() {
    assert_eq!(RingSize::new(0), None);
    assert_eq!(RingSize::new(1).unwrap().get(), 1);
    assert_eq!(RingSize::new(u32::MAX).unwrap().get(), u32::MAX);
}
