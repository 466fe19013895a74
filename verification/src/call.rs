//! The system calls that the procedures of this library wait for.
//!
//! The library makes no system call itself. A procedure names the call that it waits for; its
//! driver makes the call and hands the reply back, until the procedure has finished.
use vstd::prelude::*;

use crate::errno::{Errno, Status};
use crate::socket::SocketFd;
use crate::xdp::{SockAddrXdp, SocketMmapOffsets, XdpStatistics, XdpStatisticsV2, XdpUmemReg};

verus! {

/// Value of a socket option.
#[derive(Clone, Copy, Debug, PartialEq, Eq)]
pub enum OptionValue {
    /// Number of entries in a ring.
    Size(u32),
    /// The packet buffer area to register.
    UmemReg(XdpUmemReg),
}

/// `setsockopt`: set one option of a socket.
#[derive(Clone, Copy, Debug, PartialEq, Eq)]
pub struct SetSockOpt {
    pub fd: SocketFd,
    pub level: i32,
    pub name: i32,
    pub value: OptionValue,
}

/// The rings that an `AF_XDP` socket can have.
#[derive(Clone, Copy, Debug, PartialEq, Eq)]
pub enum Ring {
    /// Frames handed to the kernel to receive into.
    Fill,
    /// Frames handed back by the kernel after transmission.
    Completion,
    /// Received packets.
    Rx,
    /// Packets to transmit.
    Tx,
}

/// A system call, with its arguments.
#[derive(Clone, Copy, Debug, PartialEq, Eq)]
pub enum Call {
    /// Open a new `AF_XDP` socket.
    OpenSocket,
    SetSockOpt(SetSockOpt),
    /// Bind a socket to an address.
    Bind { fd: SocketFd, addr: SockAddrXdp },
    /// Read where the parts of a socket's rings lie.
    MmapOffsets { fd: SocketFd },
    /// Map a ring of a socket, with the given number of entries, into memory.
    MapRing { fd: SocketFd, ring: Ring, map: SocketMmapOffsets, size: u32 },
    Statistics { fd: SocketFd },
    StatisticsV2 { fd: SocketFd },
}

impl Call {
    /// The socket that the call is about, unless it opens a new one.
    pub open spec fn socket(self) -> Option<SocketFd> {
        match self {
            Call::OpenSocket => None,
            Call::SetSockOpt(option) => Some(option.fd),
            Call::Bind { fd, .. } => Some(fd),
            Call::MmapOffsets { fd } => Some(fd),
            Call::MapRing { fd, .. } => Some(fd),
            Call::Statistics { fd } => Some(fd),
            Call::StatisticsV2 { fd } => Some(fd),
        }
    }
}

/// The reply to a system call. A mapped ring is whatever value `R` the driver keeps it in.
#[derive(Debug, PartialEq, Eq)]
pub enum Event<R> {
    /// Reply to `Call::SetSockOpt` and `Call::Bind`.
    Status(Status),
    Opened(Result<SocketFd, Errno>),
    Offsets(Result<SocketMmapOffsets, Errno>),
    Mapped(Result<R, Errno>),
    Statistics(Result<XdpStatistics, Errno>),
    StatisticsV2(Result<XdpStatisticsV2, Errno>),
}

/// The error of a result, if it is one.
pub open spec fn error_of<T>(result: Result<T, Errno>) -> Option<Errno> {
    match result {
        Ok(_) => None,
        Err(e) => Some(e),
    }
}

impl<R> Event<R> {
    /// The event is of the kind that replies to the call.
    pub open spec fn answers(self, call: Call) -> bool {
        match call {
            Call::SetSockOpt(_) | Call::Bind { .. } => self is Status,
            Call::OpenSocket => self is Opened,
            Call::MmapOffsets { .. } => self is Offsets,
            Call::MapRing { .. } => self is Mapped,
            Call::Statistics { .. } => self is Statistics,
            Call::StatisticsV2 { .. } => self is StatisticsV2,
        }
    }

    /// The error with which the call failed, if it did.
    pub open spec fn failure(self) -> Option<Errno> {
        match self {
            Event::Status(status) => error_of(status.result()),
            Event::Opened(res) => error_of(res),
            Event::Offsets(res) => error_of(res),
            Event::Mapped(res) => error_of(res),
            Event::Statistics(res) => error_of(res),
            Event::StatisticsV2(res) => error_of(res),
        }
    }
}

/// Where a procedure stands after a reply.
#[derive(Debug, PartialEq, Eq)]
pub enum Progress<P, T> {
    /// The procedure waits for its next call.
    Waiting(P),
    /// The procedure has ended.
    Finished(Result<T, Errno>),
}

/// A sequence of system calls that depends on their replies. A value of the type is the procedure
/// while it waits for a call.
pub trait Procedure<R>: Sized {
    type Output;

    /// The call that the procedure waits for.
    spec fn pending(self) -> Call;

    /// What a reply makes of the procedure.
    spec fn after(self, event: Event<R>) -> Progress<Self, Self::Output>;

    /// Upper bound on the number of replies that the procedure still takes.
    spec fn calls_left(self) -> nat;

    fn call(&self) -> (call: Call)
        ensures
            call == self.pending(),
    ;

    fn step(self, event: Event<R>) -> (next: Progress<Self, Self::Output>)
        ensures
            next == self.after(event),
    ;

    /// An event that does not reply to the pending call changes nothing.
    proof fn law_stray_event(self, event: Event<R>)
        requires
            !event.answers(self.pending()),
        ensures
            self.after(event) == Progress::<Self, Self::Output>::Waiting(self),
    ;

    /// The procedure fails if and only if the pending call does, at once and with its error.
    proof fn law_failure(self, event: Event<R>)
        requires
            event.answers(self.pending()),
        ensures
            forall|e: Errno|
                event.failure() == Some(e) <==> self.after(event) == Progress::<
                    Self,
                    Self::Output,
                >::Finished(Err(e)),
    ;

    /// There is a call to make, and its reply leaves fewer.
    proof fn law_progress(self, event: Event<R>)
        ensures
            self.calls_left() > 0,
            event.answers(self.pending()) ==> (self.after(event) matches Progress::Waiting(next)
                ==> next.calls_left() < self.calls_left()),
    ;
}

/// Where a procedure stands after a sequence of events. Events after its end are not looked at.
pub open spec fn run<R, P: Procedure<R>>(procedure: P, events: Seq<Event<R>>) -> Progress<
    P,
    P::Output,
>
    decreases events.len(),
{
    if events.len() == 0 {
        Progress::Waiting(procedure)
    } else {
        match procedure.after(events[0]) {
            Progress::Waiting(next) => run(next, events.skip(1)),
            Progress::Finished(result) => Progress::Finished(result),
        }
    }
}

/// The calls that a procedure asks for as the events come in, in their order.
pub open spec fn calls<R, P: Procedure<R>>(procedure: P, events: Seq<Event<R>>) -> Seq<Call>
    decreases events.len(),
{
    if events.len() == 0 {
        seq![procedure.pending()]
    } else {
        seq![procedure.pending()] + match procedure.after(events[0]) {
            Progress::Waiting(next) => calls(next, events.skip(1)),
            Progress::Finished(_) => Seq::empty(),
        }
    }
}

/// Each of the events replies to the call that the procedure waits for when it comes.
pub open spec fn answered<R, P: Procedure<R>>(procedure: P, events: Seq<Event<R>>) -> bool
    decreases events.len(),
{
    events.len() > 0 ==> {
        &&& events[0].answers(procedure.pending())
        &&& match procedure.after(events[0]) {
            Progress::Waiting(next) => answered(next, events.skip(1)),
            Progress::Finished(_) => true,
        }
    }
}

/// Once a procedure has finished, it asks for no further call, and no event changes its result.
pub proof fn law_finished<R, P: Procedure<R>>(
    procedure: P,
    events: Seq<Event<R>>,
    more: Seq<Event<R>>,
)
    requires
        run(procedure, events) is Finished,
    ensures
        run(procedure, events + more) == run(procedure, events),
        calls(procedure, events + more) == calls(procedure, events),
    decreases events.len(),
{
    if let Progress::Waiting(next) = procedure.after(events[0]) {
        assert((events + more).skip(1) =~= events.skip(1) + more);
        law_finished(next, events.skip(1), more);
    }
}

/// A procedure ends with an error only if a call that it waited for has failed with that error.
pub proof fn law_error_of_a_call<R, P: Procedure<R>>(procedure: P, events: Seq<Event<R>>, e: Errno)
    requires
        run(procedure, events) == Progress::<P, P::Output>::Finished(Err(e)),
    ensures
        exists|i: int|
            0 <= i < events.len() && (#[trigger] events[i]).failure() == Some(e) && (run(
                procedure,
                events.take(i),
            ) matches Progress::Waiting(next) && events[i].answers(next.pending())),
    decreases events.len(),
{
    if !events[0].answers(procedure.pending()) {
        procedure.law_stray_event(events[0]);
    } else {
        procedure.law_failure(events[0]);
    }
    match procedure.after(events[0]) {
        Progress::Waiting(next) => {
            let rest = events.skip(1);
            law_error_of_a_call(next, rest, e);
            let i = choose|i: int|
                0 <= i < rest.len() && (#[trigger] rest[i]).failure() == Some(e) && (run(
                    next,
                    rest.take(i),
                ) matches Progress::Waiting(last) && rest[i].answers(last.pending()));
            assert(events.take(i + 1).skip(1) =~= rest.take(i));
            assert(events[i + 1] == rest[i]);
        },
        Progress::Finished(_) => {
            assert(run(procedure, events.take(0)) == Progress::<P, P::Output>::Waiting(procedure));
            assert(events[0].failure() == Some(e));
        },
    }
}

/// A procedure whose calls are replied to ends after a bounded number of replies.
pub proof fn law_ends<R, P: Procedure<R>>(procedure: P, events: Seq<Event<R>>)
    requires
        answered(procedure, events),
        events.len() >= procedure.calls_left(),
    ensures
        run(procedure, events) is Finished,
    decreases events.len(),
{
    procedure.law_progress(events[0]);
    if let Progress::Waiting(next) = procedure.after(events[0]) {
        law_ends(next, events.skip(1));
    }
}

} // verus!
