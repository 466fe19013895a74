//! What each operation gives, stated on the values that go into it and come out of it.
//!
//! The laws speak of the results of the operations themselves and of the system calls that come of
//! them, field by field.
use vstd::arithmetic::power2::is_pow2;
use vstd::prelude::*;

use crate::area::{law_page_aligned, UmemArea, UmemChunk};
use crate::buf::{BufIdx, BufIdxSlice, BufIdxSliceMut, RawSlice, RawSliceMut};
use crate::call::{calls, run, Call, Event, OptionValue, Procedure, Progress, Ring, SetSockOpt};
use crate::config::{RingSize, SocketConfig, UmemConfig};
use crate::device::{
    Bind, DeviceQueue, MapRx, MapTx, ReadStatistics, ReadStatisticsV2, RingRx, RingTx, User,
};
use crate::errno::{Errno, Status};
use crate::laws::{law_fq_cq, law_frame_count, law_frame_in_area, law_open_umem, law_rx_tx};
use crate::option_queue::OptionQueue;
use crate::setup::{FqCq, OpenUmem, RxTx};
use crate::socket::{Socket, SocketFd};
use crate::umem::Umem;
use crate::xdp::{SocketMmapOffsets, XdpDesc, XdpStatistics, XdpStatisticsV2, SOL_XDP};

verus! {

// ---- Replies and sizes ----

/// A call succeeded if and only if it returned zero; if not, its error is the error number that it
/// left behind.
pub proof fn law_status(status: Status, res: Result<(), Errno>)
    requires
        call_ensures(Status::into_result, (status,), res),
    ensures
        res is Ok <==> status.ret == 0,
        res matches Err(e) ==> e.0 == status.errno,
{
}

/// A ring size is refused if and only if it is zero.
pub proof fn law_ring_size(size: u32, made: Option<RingSize>)
    requires
        call_ensures(RingSize::new, (size,), made),
    ensures
        made is None <==> size == 0,
{
}

/// A ring size gives back the number that it was made from.
pub proof fn law_ring_size_kept(size: u32, made: RingSize, got: u32)
    requires
        call_ensures(RingSize::new, (size,), Some(made)),
        call_ensures(RingSize::get, (made,), got),
    ensures
        got == size,
{
}

// ---- Buffer indices ----

/// A slice of raw numbers has as many buffer indices as numbers, and each index is its number.
pub proof fn law_read_indices(id: &[u32], idx: BufIdxSlice, len: usize, i: usize, got: BufIdx)
    requires
        i < id@.len(),
        call_ensures(BufIdx::from_slice, (id,), idx),
        call_ensures(BufIdxSlice::len, (&idx,), len),
        call_ensures(BufIdxSlice::get, (&idx, i), got),
    ensures
        len == id@.len(),
        got.0 == id@[i as int],
        call_requires(BufIdxSlice::get, (&idx, i)),
{
}

/// A slice of buffer indices has as many raw numbers as indices, and each number is its index.
pub proof fn law_read_numbers(this: &[BufIdx], id: RawSlice, len: usize, i: usize, got: u32)
    requires
        i < this@.len(),
        call_ensures(BufIdx::to_slice, (this,), id),
        call_ensures(RawSlice::len, (&id,), len),
        call_ensures(RawSlice::get, (&id, i), got),
    ensures
        len == this@.len(),
        got == this@[i as int].0,
        call_requires(RawSlice::get, (&id, i)),
{
}

/// The same holds of a mutable slice of raw numbers, and what the view ends with is what the slice
/// ends with.
pub proof fn law_read_indices_mut(
    id: &mut [u32],
    idx: BufIdxSliceMut,
    len: usize,
    i: usize,
    got: BufIdx,
)
    requires
        i < old(id)@.len(),
        call_ensures(BufIdx::from_mut_slice, (id,), idx),
        call_ensures(BufIdxSliceMut::len, (&idx,), len),
        call_ensures(BufIdxSliceMut::get, (&idx, i), got),
    ensures
        len == old(id)@.len(),
        got.0 == old(id)@[i as int],
        final(idx.raw)@ == final(id)@,
        call_requires(BufIdxSliceMut::get, (&idx, i)),
{
}

/// The same holds of a mutable slice of buffer indices, and what the view ends with is what the
/// slice ends with.
pub proof fn law_read_numbers_mut(
    this: &mut [BufIdx],
    id: RawSliceMut,
    len: usize,
    i: usize,
    got: u32,
)
    requires
        i < old(this)@.len(),
        call_ensures(BufIdx::to_mut_slice, (this,), id),
        call_ensures(RawSliceMut::len, (&id,), len),
        call_ensures(RawSliceMut::get, (&id, i), got),
    ensures
        len == old(this)@.len(),
        got == old(this)@[i as int].0,
        final(id.idx)@ == final(this)@,
        call_requires(RawSliceMut::get, (&id, i)),
{
}

/// Writing a buffer index changes the raw number in its place to that index, and no other.
pub proof fn law_write_index(view: &mut BufIdxSliceMut, i: usize, idx: BufIdx)
    requires
        call_ensures(BufIdxSliceMut::set, (view, i, idx), ()),
    ensures
        (*final(view).raw)@ == (*old(view).raw)@.update(i as int, idx.0),
        final(final(view).raw)@ == final(old(view).raw)@,
{
}

/// Writing a raw number changes the buffer index in its place to that number, and no other.
pub proof fn law_write_number(view: &mut RawSliceMut, i: usize, id: u32)
    requires
        call_ensures(RawSliceMut::set, (view, i, id), ()),
    ensures
        (*final(view).idx)@ == (*old(view).idx)@.update(i as int, BufIdx(id)),
        final(final(view).idx)@ == final(old(view).idx)@,
{
}

// ---- The area and its frames ----

/// An area is found to be page aligned if and only if none of the address bits below the page size
/// is set. For a power of two that is: if and only if its address is a multiple.
pub proof fn law_alignment(area: &UmemArea, page_size: usize, aligned: bool)
    requires
        page_size > 0,
        call_ensures(UmemArea::is_page_aligned, (area, page_size), aligned),
    ensures
        aligned <==> area.addr & (page_size - 1) as usize == 0,
        is_pow2(page_size as int) ==> (aligned <==> area.addr % page_size == 0),
        call_requires(UmemArea::is_page_aligned, (area, page_size)),
{
    if is_pow2(page_size as int) {
        law_page_aligned(*area, page_size);
    }
}

/// Every area that can be an allocation has its frames counted and looked up.
pub proof fn law_frames_accepted(umem: &Umem, idx: BufIdx)
    requires
        umem.config.frame_size > 0,
        umem.umem_area.addr != 0,
        umem.umem_area.len <= isize::MAX,
        umem.umem_area.addr + umem.umem_area.len <= usize::MAX,
    ensures
        call_requires(Umem::frame, (umem, idx)),
        call_requires(Umem::len_frames, (umem,)),
{
}

/// A frame is as many frame sizes into the area as its index says, and has the frame size. It is
/// there if and only if all of it lies in the area.
pub proof fn law_frame(umem: &Umem, idx: BufIdx, chunk: Option<UmemChunk>)
    requires
        umem.wf(),
        call_ensures(Umem::frame, (umem, idx), chunk),
    ensures
        chunk is Some <==> umem.config.frame_size * idx.0 + umem.config.frame_size
            <= umem.umem_area.len,
        chunk matches Some(c) ==> {
            &&& c.offset == umem.config.frame_size * idx.0
            &&& c.addr.addr == umem.umem_area.addr + c.offset
            &&& c.addr.len == umem.config.frame_size
            &&& umem.umem_area.addr <= c.addr.addr
            &&& c.addr.addr + c.addr.len <= umem.umem_area.addr + umem.umem_area.len
        },
{
    if umem.has_frame(idx) {
        law_frame_in_area(*umem, idx);
    }
}

/// Of two frames that are there, the one with the larger index starts where or after the other
/// ends; neighbours leave no gap.
pub proof fn law_frames_in_order(
    umem: &Umem,
    a: BufIdx,
    b: BufIdx,
    first: UmemChunk,
    second: UmemChunk,
)
    requires
        umem.wf(),
        a.0 < b.0,
        call_ensures(Umem::frame, (umem, a), Some(first)),
        call_ensures(Umem::frame, (umem, b), Some(second)),
    ensures
        first.addr.addr + first.addr.len <= second.addr.addr,
        first.offset + first.addr.len <= second.offset,
        b.0 == a.0 + 1 ==> first.addr.addr + first.addr.len == second.addr.addr,
        b.0 == a.0 + 1 ==> first.offset + first.addr.len == second.offset,
{
    law_frame(umem, a, Some(first));
    law_frame(umem, b, Some(second));
    let pitch = umem.config.frame_size;
    assert(pitch * a.0 + pitch <= pitch * b.0) by (nonlinear_arith)
        requires
            a.0 + 1 <= b.0,
    ;
    assert(b.0 == a.0 + 1 ==> pitch * a.0 + pitch == pitch * b.0) by (nonlinear_arith);
}

/// The frame count is the number of whole frames in the area, cut to a `u32`. The frames below it
/// are there, and unless it was cut, those from it on are not.
pub proof fn law_len_frames(umem: &Umem, count: u32, idx: BufIdx, chunk: Option<UmemChunk>)
    requires
        umem.wf(),
        call_ensures(Umem::len_frames, (umem,), count),
        call_ensures(Umem::frame, (umem, idx), chunk),
    ensures
        count <= umem.umem_area.len as int / umem.config.frame_size as int,
        count < u32::MAX ==> count == umem.umem_area.len as int / umem.config.frame_size as int,
        idx.0 < count ==> chunk is Some,
        count < u32::MAX && idx.0 >= count ==> chunk is None,
{
    law_frame_count(*umem, idx);
}

/// The descriptor of a packet in a chunk starts where the chunk does and has the length that was
/// asked for. Every length up to that of the chunk can be asked for.
pub proof fn law_descriptor(chunk: UmemChunk, len: u32, desc: XdpDesc)
    requires
        len <= chunk.addr.len,
        call_ensures(UmemChunk::as_xdp_with_len, (chunk, len), desc),
    ensures
        desc.addr == chunk.offset,
        desc.len == len,
        desc.options == 0,
        call_requires(UmemChunk::as_xdp_with_len, (chunk, len)),
{
}

/// The descriptor of a whole chunk is that of a packet as long as the chunk. Of a chunk too long
/// for a descriptor, the low 32 bits of the length are kept.
pub proof fn law_whole_descriptor(chunk: UmemChunk, whole: XdpDesc, len: u32, part: XdpDesc)
    requires
        call_ensures(UmemChunk::as_xdp, (chunk,), whole),
        call_ensures(UmemChunk::as_xdp_with_len, (chunk, len), part),
    ensures
        len == chunk.addr.len ==> whole == part,
        whole.addr == chunk.offset,
        whole.len as int == chunk.addr.len as int % 0x1_0000_0000,
        whole.options == 0,
{
}

/// A packet in a frame lies in the area, at the frame's place.
pub proof fn law_packet_in_area(
    umem: &Umem,
    idx: BufIdx,
    chunk: UmemChunk,
    len: u32,
    desc: XdpDesc,
)
    requires
        umem.wf(),
        len <= umem.config.frame_size,
        call_ensures(Umem::frame, (umem, idx), Some(chunk)),
        call_ensures(UmemChunk::as_xdp_with_len, (chunk, len), desc),
    ensures
        desc.addr == umem.config.frame_size * idx.0,
        desc.len == len,
        desc.addr + desc.len <= umem.umem_area.len,
{
    law_frame(umem, idx, Some(chunk));
}

// ---- Procedures ----

/// Running a procedure is stepping it through the replies; the calls of the run are those that it
/// asks for before each step.
pub proof fn law_run_is_stepping<R, P: Procedure<R>>(
    procedure: P,
    event: Event<R>,
    rest: Seq<Event<R>>,
    call: Call,
    next: Progress<P, P::Output>,
)
    requires
        call_ensures(P::call, (&procedure,), call),
        call_ensures(P::step, (procedure, event), next),
    ensures
        run(procedure, Seq::empty()) == Progress::<P, P::Output>::Waiting(procedure),
        calls(procedure, Seq::<Event<R>>::empty()) == seq![call],
        match next {
            Progress::Waiting(waiting) => {
                &&& run(procedure, seq![event] + rest) == run(waiting, rest)
                &&& calls(procedure, seq![event] + rest) == seq![call] + calls(waiting, rest)
            },
            Progress::Finished(result) => {
                &&& run(procedure, seq![event] + rest) == Progress::<P, P::Output>::Finished(result)
                &&& calls(procedure, seq![event] + rest) == seq![call]
            },
        },
{
    assert((seq![event] + rest).skip(1) =~= rest);
}

/// A reply of another kind than the call asks for leaves a procedure as it is.
pub proof fn law_wrong_reply<R, P: Procedure<R>>(
    procedure: P,
    event: Event<R>,
    call: Call,
    next: Progress<P, P::Output>,
)
    requires
        call_ensures(P::call, (&procedure,), call),
        call_ensures(P::step, (procedure, event), next),
        match call {
            Call::OpenSocket => event !is Opened,
            Call::SetSockOpt(_) => event !is Status,
            Call::Bind { .. } => event !is Status,
            Call::MmapOffsets { .. } => event !is Offsets,
            Call::MapRing { .. } => event !is Mapped,
            Call::Statistics { .. } => event !is Statistics,
            Call::StatisticsV2 { .. } => event !is StatisticsV2,
        },
    ensures
        next == Progress::<P, P::Output>::Waiting(procedure),
{
    procedure.law_stray_event(event);
}

/// A reply of the right kind that says that the call failed ends a procedure with that error.
pub proof fn law_failed_reply<R, P: Procedure<R>>(
    procedure: P,
    event: Event<R>,
    e: Errno,
    call: Call,
    next: Progress<P, P::Output>,
)
    requires
        call_ensures(P::call, (&procedure,), call),
        call_ensures(P::step, (procedure, event), next),
        match (call, event) {
            (Call::OpenSocket, Event::Opened(Err(err))) => e == err,
            (Call::SetSockOpt(_), Event::Status(status)) => status.ret != 0 && e.0 == status.errno,
            (Call::Bind { .. }, Event::Status(status)) => status.ret != 0 && e.0 == status.errno,
            (Call::MmapOffsets { .. }, Event::Offsets(Err(err))) => e == err,
            (Call::MapRing { .. }, Event::Mapped(Err(err))) => e == err,
            (Call::Statistics { .. }, Event::Statistics(Err(err))) => e == err,
            (Call::StatisticsV2 { .. }, Event::StatisticsV2(Err(err))) => e == err,
            _ => false,
        },
    ensures
        next == Progress::<P, P::Output>::Finished(Err(e)),
{
    procedure.law_failure(event);
    assert(event.failure() == Some(e));
}

/// A reply of the right kind that says that the call succeeded never ends a procedure with an
/// error, nor leaves it as it was.
pub proof fn law_good_reply<R, P: Procedure<R>>(
    procedure: P,
    event: Event<R>,
    call: Call,
    next: Progress<P, P::Output>,
)
    requires
        call_ensures(P::call, (&procedure,), call),
        call_ensures(P::step, (procedure, event), next),
        match (call, event) {
            (Call::OpenSocket, Event::Opened(Ok(_))) => true,
            (Call::SetSockOpt(_), Event::Status(status)) => status.ret == 0,
            (Call::Bind { .. }, Event::Status(status)) => status.ret == 0,
            (Call::MmapOffsets { .. }, Event::Offsets(Ok(_))) => true,
            (Call::MapRing { .. }, Event::Mapped(Ok(_))) => true,
            (Call::Statistics { .. }, Event::Statistics(Ok(_))) => true,
            (Call::StatisticsV2 { .. }, Event::StatisticsV2(Ok(_))) => true,
            _ => false,
        },
    ensures
        !(next matches Progress::Finished(Err(_))),
        next != Progress::<P, P::Output>::Waiting(procedure),
{
    procedure.law_failure(event);
    procedure.law_progress(event);
    if let Progress::Finished(Err(e)) = next {
        assert(event.failure() == Some(e));
    }
}

/// Of the options that are still to be set, the one that was added first comes out first.
pub proof fn law_options_in_order(
    first: SetSockOpt,
    second: SetSockOpt,
    one: OptionQueue,
    two: OptionQueue,
    first_out: SetSockOpt,
    rest: OptionQueue,
    second_out: SetSockOpt,
    end: OptionQueue,
    none: Option<(SetSockOpt, OptionQueue)>,
)
    requires
        call_ensures(OptionQueue::push, (OptionQueue::Empty, first), one),
        call_ensures(OptionQueue::push, (one, second), two),
        call_ensures(OptionQueue::split_first, (two,), Some((first_out, rest))),
        call_ensures(OptionQueue::split_first, (rest,), Some((second_out, end))),
        call_ensures(OptionQueue::split_first, (end,), none),
    ensures
        first_out == first,
        second_out == second,
        none is None,
{
}

// ---- Registering an area ----

/// A good configuration with an area at a page boundary is accepted.
pub proof fn law_new_accepted(config: UmemConfig, area: UmemArea, page_size: usize)
    requires
        config.frame_size > 0,
        area.addr != 0,
        area.len <= isize::MAX,
        area.addr + area.len <= usize::MAX,
        page_size > 0,
        area.addr & (page_size - 1) as usize == 0,
    ensures
        call_requires(Umem::new, (config, area, page_size)),
{
}

/// An area is registered with a new socket, once there is one, and as it was configured: its
/// address, its length, the frame size, the headroom and the flags are those that were given, and
/// there is no transmit metadata. The area that comes of it has the given parts and the socket.
pub proof fn law_new<R>(
    config: UmemConfig,
    area: UmemArea,
    page_size: usize,
    procedure: OpenUmem,
    opened: Result<SocketFd, Errno>,
    registered: Status,
)
    requires
        call_ensures(Umem::new, (config, area, page_size), procedure),
    ensures
        ({
            let events = seq![Event::<R>::Opened(opened), Event::<R>::Status(registered)];
            let made = calls(procedure, events);
            let end = run(procedure, events);
            &&& made.len() == if opened is Ok {
                2nat
            } else {
                1
            }
            &&& made[0] is OpenSocket
            &&& opened matches Err(e) ==> end == Progress::<OpenUmem, Umem>::Finished(Err(e))
            &&& opened matches Ok(fd) ==> {
                &&& made[1] matches Call::SetSockOpt(option) && {
                    &&& option.fd == fd
                    &&& option.level == SOL_XDP
                    &&& option.name == Umem::XDP_UMEM_REG
                    &&& option.value matches OptionValue::UmemReg(reg) && {
                        &&& reg.addr == area.addr
                        &&& reg.len == area.len
                        &&& reg.chunk_size == config.frame_size
                        &&& reg.headroom == config.headroom
                        &&& reg.flags == config.flags
                        &&& reg.tx_metadata_len == 0
                    }
                }
                &&& end matches Progress::Finished(result) && {
                    &&& result is Ok <==> registered.ret == 0
                    &&& result matches Err(e) ==> e.0 == registered.errno
                    &&& result matches Ok(umem) ==> {
                        &&& umem.config == config
                        &&& umem.umem_area == area
                        &&& umem.fd == fd
                    }
                }
            }
        }),
{
    law_open_umem::<R>(config, area, opened, registered);
}

/// What is registered for an area is the area as it was configured, with its own socket.
pub proof fn law_registration(umem: Umem)
    ensures
        umem.registration().fd == umem.fd,
        umem.registration().level == SOL_XDP,
        umem.registration().name == Umem::XDP_UMEM_REG,
        umem.registration().value matches OptionValue::UmemReg(reg) && {
            &&& reg.addr == umem.umem_area.addr
            &&& reg.len == umem.umem_area.len
            &&& reg.chunk_size == umem.config.frame_size
            &&& reg.headroom == umem.config.headroom
            &&& reg.flags == umem.config.flags
            &&& reg.tx_metadata_len == 0
        },
{
}

// ---- Setting up a device queue ----

/// The setup of a device queue sets the completion ring and then the fill ring of the interface's
/// socket to the configured sizes, reads where the rings lie, and maps the fill ring and then the
/// completion ring with those sizes: each ring is mapped with the size that the kernel was told.
/// The first call that fails is the last that is made, and gives the error. If none fails, the
/// queue has the interface's socket, the offsets, and the two rings, each in its place.
pub proof fn law_device_queue<R>(
    umem: &Umem,
    interface: &Socket,
    procedure: FqCq<R>,
    completion: Status,
    fill: Status,
    offsets: Result<SocketMmapOffsets, Errno>,
    prod: Result<R, Errno>,
    cons: Result<R, Errno>,
)
    requires
        call_ensures(Umem::fq_cq::<R>, (umem, interface), procedure),
    ensures
        ({
            let events = seq![
                Event::Status(completion),
                Event::Status(fill),
                Event::Offsets(offsets),
                Event::Mapped(prod),
                Event::Mapped(cons),
            ];
            let made = calls(procedure, events);
            let end = run(procedure, events);
            let fd = interface.fd;
            &&& made.len() == if completion.ret != 0 {
                1nat
            } else if fill.ret != 0 {
                2
            } else if offsets is Err {
                3
            } else if prod is Err {
                4
            } else {
                5
            }
            &&& made[0] == Call::SetSockOpt(
                SetSockOpt {
                    fd,
                    level: SOL_XDP,
                    name: Umem::XDP_UMEM_COMPLETION_RING,
                    value: OptionValue::Size(umem.config.complete_size),
                },
            )
            &&& made.len() > 1 ==> made[1] == Call::SetSockOpt(
                SetSockOpt {
                    fd,
                    level: SOL_XDP,
                    name: Umem::XDP_UMEM_FILL_RING,
                    value: OptionValue::Size(umem.config.fill_size),
                },
            )
            &&& made.len() > 2 ==> made[2] == (Call::MmapOffsets { fd })
            &&& made.len() > 3 ==> made[3] == (Call::MapRing {
                fd,
                ring: Ring::Fill,
                map: offsets->Ok_0,
                size: umem.config.fill_size,
            })
            &&& made.len() > 3 ==> made[1]->SetSockOpt_0.value == OptionValue::Size(
                made[3]->MapRing_size,
            )
            &&& made.len() > 4 ==> made[4] == (Call::MapRing {
                fd,
                ring: Ring::Completion,
                map: offsets->Ok_0,
                size: umem.config.complete_size,
            })
            &&& made.len() > 4 ==> made[0]->SetSockOpt_0.value == OptionValue::Size(
                made[4]->MapRing_size,
            )
            &&& end matches Progress::Finished(result) && {
                &&& completion.ret != 0 ==> (result matches Err(e) && e.0 == completion.errno)
                &&& completion.ret == 0 && fill.ret != 0 ==> (result matches Err(e) && e.0
                    == fill.errno)
                &&& made.len() == 3 ==> (result matches Err(e) && offsets == Err::<
                    SocketMmapOffsets,
                    Errno,
                >(e))
                &&& made.len() == 4 ==> (result matches Err(e) && prod == Err::<R, Errno>(e))
                &&& made.len() == 5 ==> match cons {
                    Err(e) => result == Err::<DeviceQueue<R>, Errno>(e),
                    Ok(cons) => result matches Ok(queue) && {
                        &&& queue.socket == *interface
                        &&& queue.fcq.map == offsets->Ok_0
                        &&& queue.fcq.prod.0 == prod->Ok_0
                        &&& queue.fcq.cons.0 == cons
                    },
                }
            }
        }),
{
    law_fq_cq(*interface, umem.config, completion, fill, offsets, prod, cons);
}

// ---- Setting up the packet rings of a socket ----

/// The setup of a socket's packet rings sets those that are configured, the receive ring first, to
/// the configured sizes, and reads where they lie; all with that socket. The first call that fails
/// is the last that is made, and gives the error. What comes of it has the socket, its
/// configuration and the offsets.
pub proof fn law_packet_rings<R>(
    umem: &Umem,
    interface: &Socket,
    config: &SocketConfig,
    procedure: RxTx,
    rx: Status,
    tx: Status,
    offsets: Result<SocketMmapOffsets, Errno>,
)
    requires
        call_ensures(Umem::rx_tx, (umem, interface, config), procedure),
    ensures
        ({
            let rx_events = if config.rx_size is Some {
                seq![Event::<R>::Status(rx)]
            } else {
                seq![]
            };
            let tx_events = if config.tx_size is Some {
                seq![Event::<R>::Status(tx)]
            } else {
                seq![]
            };
            let events = rx_events + tx_events + seq![Event::<R>::Offsets(offsets)];
            let made = calls(procedure, events);
            let end = run(procedure, events);
            let fd = interface.fd;
            let rx_failed = config.rx_size is Some && rx.ret != 0;
            let tx_failed = config.tx_size is Some && tx.ret != 0;
            let rx_count = rx_events.len() as int;
            let tx_count = tx_events.len() as int;
            &&& made.len() == if rx_failed {
                1
            } else if tx_failed {
                rx_count + 1
            } else {
                rx_count + tx_count + 1
            }
            &&& config.rx_size matches Some(size) ==> made[0] == Call::SetSockOpt(
                SetSockOpt {
                    fd,
                    level: SOL_XDP,
                    name: Umem::XDP_RX_RING,
                    value: OptionValue::Size(size@),
                },
            )
            &&& !rx_failed ==> (config.tx_size matches Some(size) ==> made[rx_count]
                == Call::SetSockOpt(
                SetSockOpt {
                    fd,
                    level: SOL_XDP,
                    name: Umem::XDP_TX_RING,
                    value: OptionValue::Size(size@),
                },
            ))
            &&& !rx_failed && !tx_failed ==> made[rx_count + tx_count] == (Call::MmapOffsets { fd })
            &&& end matches Progress::Finished(result) && {
                &&& rx_failed ==> (result matches Err(e) && e.0 == rx.errno)
                &&& !rx_failed && tx_failed ==> (result matches Err(e) && e.0 == tx.errno)
                &&& !rx_failed && !tx_failed ==> match offsets {
                    Err(e) => result == Err::<User, Errno>(e),
                    Ok(map) => result matches Ok(user) && {
                        &&& user.socket == *interface
                        &&& user.config == *config
                        &&& user.map == map
                    },
                }
            }
        }),
{
    law_rx_tx::<R>(*interface, *config, rx, tx, offsets);
}

// ---- Mapping a packet ring ----

/// Mapping the receive ring is refused with the error for an invalid argument if and only if none
/// was configured. Else it makes one call: for the receive ring of the socket, at its offsets and
/// with the configured size. A ring that comes of it is the mapped one, with the socket.
pub proof fn law_receive_ring<R>(
    user: &User,
    res: Result<MapRx, Errno>,
    reply: Result<R, Errno>,
)
    requires
        call_ensures(User::map_rx, (user,), res),
    ensures
        res is Ok <==> user.config.rx_size is Some,
        res matches Err(e) ==> e.0 == -22,
        res matches Ok(procedure) ==> {
            let events = seq![Event::Mapped(reply)];
            &&& calls(procedure, events) == seq![
                Call::MapRing {
                    fd: user.socket.fd,
                    ring: Ring::Rx,
                    map: user.map,
                    size: user.config.rx_size->0@,
                },
            ]
            &&& run(procedure, events) matches Progress::Finished(result) && match reply {
                Err(e) => result == Err::<RingRx<R>, Errno>(e),
                Ok(ring) => result matches Ok(rx) && rx.ring.0 == ring && rx.fd == user.socket.fd,
            }
        },
{
    reveal_with_fuel(run, 2);
    reveal_with_fuel(calls, 2);
}

/// Mapping the transmit ring is refused with the error for an invalid argument if and only if none
/// was configured. Else it makes one call: for the transmit ring of the socket, at its offsets and
/// with the configured size. A ring that comes of it is the mapped one, with the socket.
pub proof fn law_transmit_ring<R>(
    user: &User,
    res: Result<MapTx, Errno>,
    reply: Result<R, Errno>,
)
    requires
        call_ensures(User::map_tx, (user,), res),
    ensures
        res is Ok <==> user.config.tx_size is Some,
        res matches Err(e) ==> e.0 == -22,
        res matches Ok(procedure) ==> {
            let events = seq![Event::Mapped(reply)];
            &&& calls(procedure, events) == seq![
                Call::MapRing {
                    fd: user.socket.fd,
                    ring: Ring::Tx,
                    map: user.map,
                    size: user.config.tx_size->0@,
                },
            ]
            &&& run(procedure, events) matches Progress::Finished(result) && match reply {
                Err(e) => result == Err::<RingTx<R>, Errno>(e),
                Ok(ring) => result matches Ok(tx) && tx.ring.0 == ring && tx.fd == user.socket.fd,
            }
        },
{
    reveal_with_fuel(run, 2);
    reveal_with_fuel(calls, 2);
}

/// A packet ring is mapped with the number of entries that the socket was given for it: the number
/// that its configuration was made from.
pub proof fn law_mapped_size<R>(
    user: &User,
    rx: u32,
    tx: u32,
    rx_map: MapRx,
    tx_map: MapTx,
    rx_call: Call,
    tx_call: Call,
)
    requires
        call_ensures(RingSize::new, (rx,), user.config.rx_size),
        call_ensures(RingSize::new, (tx,), user.config.tx_size),
        call_ensures(User::map_rx, (user,), Ok(rx_map)),
        call_ensures(User::map_tx, (user,), Ok(tx_map)),
        call_ensures(<MapRx as Procedure<R>>::call, (&rx_map,), rx_call),
        call_ensures(<MapTx as Procedure<R>>::call, (&tx_map,), tx_call),
    ensures
        rx_call == (Call::MapRing {
            fd: user.socket.fd,
            ring: Ring::Rx,
            map: user.map,
            size: rx,
        }),
        tx_call == (Call::MapRing {
            fd: user.socket.fd,
            ring: Ring::Tx,
            map: user.map,
            size: tx,
        }),
{
}

// ---- Binding a socket ----

/// What a socket is bound by: one call, for that socket, with an address of the XDP family for its
/// own interface queue. With its own area the flags are the configured ones and no other socket is
/// named; with that of another socket the flag for a shared area is added, and that socket named.
/// The result is that of the call.
pub proof fn law_bind_call<R>(umem: &Umem, user: &User, procedure: Bind, status: Status)
    requires
        call_ensures(Umem::bind, (umem, user), procedure),
    ensures
        ({
            let events = seq![Event::<R>::Status(status)];
            let made = calls(procedure, events);
            &&& made.len() == 1
            &&& made[0] matches Call::Bind { fd, addr } && {
                &&& fd == user.socket.fd
                &&& addr.family == 44
                &&& addr.ifindex == user.socket.info.ctx.ifindex
                &&& addr.queue_id == user.socket.info.ctx.queue_id
                &&& user.socket.fd.0 == umem.fd.0 ==> {
                    &&& addr.flags == user.config.bind_flags
                    &&& addr.shared_umem_fd == 0
                }
                &&& user.socket.fd.0 != umem.fd.0 ==> {
                    &&& addr.flags == user.config.bind_flags | SocketConfig::XDP_BIND_SHARED_UMEM
                    &&& addr.shared_umem_fd == umem.fd.0 as u32
                }
            }
            &&& run(procedure, events) matches Progress::Finished(result) && {
                &&& result is Ok <==> status.ret == 0
                &&& result matches Err(e) ==> e.0 == status.errno
            }
        }),
{
    reveal_with_fuel(run, 2);
    reveal_with_fuel(calls, 2);
}

/// Binding a socket with a device queue is binding it with the area of the queue's socket.
pub proof fn law_bind_device_queue<R>(
    queue: &DeviceQueue<R>,
    umem: &Umem,
    user: &User,
    by_queue: Bind,
    by_umem: Bind,
)
    requires
        umem.fd == queue.socket.fd,
        call_ensures(DeviceQueue::<R>::bind, (queue, user), by_queue),
        call_ensures(Umem::bind, (umem, user), by_umem),
    ensures
        by_queue == by_umem,
{
}

// ---- Reading statistics ----

/// The statistics are read by one call, of the socket; what it gives is the result.
pub proof fn law_user_statistics<R>(
    user: &User,
    procedure: ReadStatistics,
    reply: Result<XdpStatistics, Errno>,
)
    requires
        call_ensures(User::statistics, (user,), procedure),
    ensures
        ({
            let events = seq![Event::<R>::Statistics(reply)];
            &&& calls(procedure, events) == seq![Call::Statistics { fd: user.socket.fd }]
            &&& run(procedure, events) == Progress::<ReadStatistics, XdpStatistics>::Finished(reply)
        }),
{
    reveal_with_fuel(run, 2);
    reveal_with_fuel(calls, 2);
}

/// The extended statistics are read by one call, of the socket; what it gives is the result.
pub proof fn law_user_statistics_v2<R>(
    user: &User,
    procedure: ReadStatisticsV2,
    reply: Result<XdpStatisticsV2, Errno>,
)
    requires
        call_ensures(User::statistics_v2, (user,), procedure),
    ensures
        ({
            let events = seq![Event::<R>::StatisticsV2(reply)];
            &&& calls(procedure, events) == seq![Call::StatisticsV2 { fd: user.socket.fd }]
            &&& run(procedure, events) == Progress::<ReadStatisticsV2, XdpStatisticsV2>::Finished(
                reply,
            )
        }),
{
    reveal_with_fuel(run, 2);
    reveal_with_fuel(calls, 2);
}

/// The statistics of a device queue are those of its socket, read by one call.
pub proof fn law_device_statistics<R>(
    queue: &DeviceQueue<R>,
    procedure: ReadStatistics,
    reply: Result<XdpStatistics, Errno>,
)
    requires
        call_ensures(DeviceQueue::<R>::statistics, (queue,), procedure),
    ensures
        ({
            let events = seq![Event::<R>::Statistics(reply)];
            &&& calls(procedure, events) == seq![Call::Statistics { fd: queue.socket.fd }]
            &&& run(procedure, events) == Progress::<ReadStatistics, XdpStatistics>::Finished(reply)
        }),
{
    reveal_with_fuel(run, 2);
    reveal_with_fuel(calls, 2);
}

/// The extended statistics of a device queue are those of its socket, read by one call.
pub proof fn law_device_statistics_v2<R>(
    queue: &DeviceQueue<R>,
    procedure: ReadStatisticsV2,
    reply: Result<XdpStatisticsV2, Errno>,
)
    requires
        call_ensures(DeviceQueue::<R>::statistics_v2, (queue,), procedure),
    ensures
        ({
            let events = seq![Event::<R>::StatisticsV2(reply)];
            &&& calls(procedure, events) == seq![Call::StatisticsV2 { fd: queue.socket.fd }]
            &&& run(procedure, events) == Progress::<ReadStatisticsV2, XdpStatisticsV2>::Finished(
                reply,
            )
        }),
{
    reveal_with_fuel(run, 2);
    reveal_with_fuel(calls, 2);
}

} // verus!
