//! The connection-lifecycle state machine.
//!
//! One session runs `CONNECTING → HANDSHAKING → ACTIVE → CLOSED`; the
//! supervisor part of the same machine turns every `CLOSED` session into a
//! fresh connect attempt, backing off only when the previous attempt failed
//! at the connect step itself. While ACTIVE, the machine interleaves
//! keep-alive emission with bounded reads in one cooperative loop, frames
//! the inbound stream into newline-delimited messages, and fans resolved
//! directives out as fire-and-forget dispatch actions, in the order they
//! were read.
//!
//! The machine is pure: [`step`] maps the current phase and one observed
//! event to the next phase and the single action the driver must perform
//! next. An unverified driver owns the socket, the clock and the HTTP
//! client; it executes each action and reports the outcome back as the next
//! event. Every transition is pinned down by the specification function
//! [`next`].

use vstd::prelude::*;
use crate::dispatch::{url_for, url_spec};
use crate::message::{directive_labels, extract_messages, labels_model, line_remainder};
use crate::registry::{registry_model, resolve, resolve_spec, Entry, EntryModel};

verus! {

/// A keep-alive probe is owed after this many time units without one.
pub const KEEP_ALIVE_INTERVAL: u64 = 30;

/// Bound, in time units, on how long one read may block.
pub const READ_TIMEOUT: u64 = 10;

/// Pause, in time units, after a read timed out with nothing to do.
pub const IDLE_PAUSE: u64 = 100;

/// Sleep, in time units, at the end of every ACTIVE iteration.
pub const LOOP_THROTTLE: u64 = 1;

/// Wait, in time units, before retrying a failed connect attempt.
pub const CONNECT_BACKOFF: u64 = 5;

/// What an ACTIVE session is waiting on.
#[derive(Debug, PartialEq, Eq, Clone)]
pub enum Duty {
    /// A keep-alive probe was sent; awaiting the write result.
    AwaitKaWrite,
    /// A bounded read was issued; awaiting its outcome.
    AwaitRead,
    /// A directive for `label` arrived; awaiting the registry contents.
    /// `rest` holds the labels of later directives from the same read,
    /// still to be processed in order.
    AwaitRegistry { label: Vec<u8>, rest: Vec<Vec<u8>> },
    /// A dispatch was handed off; awaiting the driver's acknowledgement
    /// that the fire-and-forget task was spawned.
    AwaitDispatch { rest: Vec<Vec<u8>> },
    /// Sleeping the fixed interval at the end of an iteration.
    Throttling,
    /// Sleeping the idle pause after a read timeout.
    Pausing,
}

/// The phase of the connection lifecycle.
#[derive(Debug, PartialEq, Eq, Clone)]
pub enum Phase {
    /// A connect attempt is in flight.
    Connecting,
    /// The last connect attempt failed; waiting out the backoff.
    BackingOff,
    /// Connected; the identity payload was sent, awaiting the write result.
    Handshaking,
    /// The main loop: `last_ka` is when a keep-alive was last recorded, and
    /// `carry` is the unfinished tail of the inbound line being assembled.
    Active { last_ka: u64, carry: Vec<u8>, duty: Duty },
    /// Terminal for this session; the socket is being released.
    Closed,
}

/// What the driver observed: the outcome of the action it last performed.
#[derive(Debug, PartialEq, Eq, Clone)]
pub enum Event {
    /// The connect attempt succeeded.
    ConnectOk,
    /// The connect attempt failed.
    ConnectErr,
    /// The pending write succeeded.
    WriteOk,
    /// The pending write failed.
    WriteErr,
    /// The read returned these bytes.
    ReadData { bytes: Vec<u8> },
    /// The read returned zero bytes: the peer closed the connection.
    ReadClosed,
    /// The read timed out or would block.
    ReadTimeout,
    /// The read failed outright.
    ReadErr,
    /// The registry was loaded and parsed.
    RegistryOk { entries: Vec<Entry> },
    /// The registry could not be read or parsed.
    RegistryErr,
    /// The dispatch task was spawned.
    Dispatched,
    /// The requested sleep elapsed.
    Slept,
    /// The socket was released.
    SocketClosed,
}

/// The single action the driver must perform next.
#[derive(Debug, PartialEq, Eq, Clone)]
pub enum Action {
    /// Attempt a socket connection to the fixed server address.
    Connect,
    /// Send the identity payload of [`crate::identity::identity_payload`].
    SendIdentity,
    /// Send the keep-alive probe of [`crate::identity::keep_alive_bytes`].
    SendKeepAlive,
    /// Read from the socket, blocking at most [`READ_TIMEOUT`] units.
    Read,
    /// Load and parse the registry.
    LoadRegistry,
    /// Spawn one fire-and-forget GET to `url`; never report its outcome.
    Dispatch { url: Vec<u8> },
    /// Release the socket.
    CloseSocket,
    /// Sleep for `units` time units.
    Sleep { units: u64 },
    /// Nothing to do: the event did not answer what this phase awaits.
    Wait,
}

/// Model of [`Duty`], over mathematical sequences.
pub enum DutyModel {
    AwaitKaWrite,
    AwaitRead,
    AwaitRegistry { label: Seq<u8>, rest: Seq<Seq<u8>> },
    AwaitDispatch { rest: Seq<Seq<u8>> },
    Throttling,
    Pausing,
}

/// Model of [`Phase`].
pub enum PhaseModel {
    Connecting,
    BackingOff,
    Handshaking,
    Active { last_ka: u64, carry: Seq<u8>, duty: DutyModel },
    Closed,
}

/// Model of [`Event`].
pub enum EventModel {
    ConnectOk,
    ConnectErr,
    WriteOk,
    WriteErr,
    ReadData { bytes: Seq<u8> },
    ReadClosed,
    ReadTimeout,
    ReadErr,
    RegistryOk { entries: Seq<EntryModel> },
    RegistryErr,
    Dispatched,
    Slept,
    SocketClosed,
}

/// Model of [`Action`].
pub enum ActionModel {
    Connect,
    SendIdentity,
    SendKeepAlive,
    Read,
    LoadRegistry,
    Dispatch { url: Seq<u8> },
    CloseSocket,
    Sleep { units: u64 },
    Wait,
}

impl View for Duty {
    type V = DutyModel;

    open spec fn view(&self) -> DutyModel {
        match self {
            Duty::AwaitKaWrite => DutyModel::AwaitKaWrite,
            Duty::AwaitRead => DutyModel::AwaitRead,
            Duty::AwaitRegistry { label, rest } => DutyModel::AwaitRegistry {
                label: label@,
                rest: labels_model(rest@),
            },
            Duty::AwaitDispatch { rest } => DutyModel::AwaitDispatch {
                rest: labels_model(rest@),
            },
            Duty::Throttling => DutyModel::Throttling,
            Duty::Pausing => DutyModel::Pausing,
        }
    }
}

impl View for Phase {
    type V = PhaseModel;

    open spec fn view(&self) -> PhaseModel {
        match self {
            Phase::Connecting => PhaseModel::Connecting,
            Phase::BackingOff => PhaseModel::BackingOff,
            Phase::Handshaking => PhaseModel::Handshaking,
            Phase::Active { last_ka, carry, duty } => PhaseModel::Active {
                last_ka: *last_ka,
                carry: carry@,
                duty: duty@,
            },
            Phase::Closed => PhaseModel::Closed,
        }
    }
}

impl View for Event {
    type V = EventModel;

    open spec fn view(&self) -> EventModel {
        match self {
            Event::ConnectOk => EventModel::ConnectOk,
            Event::ConnectErr => EventModel::ConnectErr,
            Event::WriteOk => EventModel::WriteOk,
            Event::WriteErr => EventModel::WriteErr,
            Event::ReadData { bytes } => EventModel::ReadData { bytes: bytes@ },
            Event::ReadClosed => EventModel::ReadClosed,
            Event::ReadTimeout => EventModel::ReadTimeout,
            Event::ReadErr => EventModel::ReadErr,
            Event::RegistryOk { entries } => EventModel::RegistryOk {
                entries: registry_model(entries@),
            },
            Event::RegistryErr => EventModel::RegistryErr,
            Event::Dispatched => EventModel::Dispatched,
            Event::Slept => EventModel::Slept,
            Event::SocketClosed => EventModel::SocketClosed,
        }
    }
}

impl View for Action {
    type V = ActionModel;

    open spec fn view(&self) -> ActionModel {
        match self {
            Action::Connect => ActionModel::Connect,
            Action::SendIdentity => ActionModel::SendIdentity,
            Action::SendKeepAlive => ActionModel::SendKeepAlive,
            Action::Read => ActionModel::Read,
            Action::LoadRegistry => ActionModel::LoadRegistry,
            Action::Dispatch { url } => ActionModel::Dispatch { url: url@ },
            Action::CloseSocket => ActionModel::CloseSocket,
            Action::Sleep { units } => ActionModel::Sleep { units: *units },
            Action::Wait => ActionModel::Wait,
        }
    }
}

/// A keep-alive probe is owed once `KEEP_ALIVE_INTERVAL` or more time units
/// have passed since the last recorded emission.
pub open spec fn keep_alive_due(last_ka: u64, now: u64) -> bool {
    now >= last_ka + KEEP_ALIVE_INTERVAL
}

/// The start of one ACTIVE iteration: emit a keep-alive first if one is
/// owed, otherwise turn directly to reading.
pub open spec fn iteration_start(last_ka: u64, carry: Seq<u8>, now: u64) -> (
    PhaseModel,
    ActionModel,
) {
    if keep_alive_due(last_ka, now) {
        (
            PhaseModel::Active { last_ka, carry, duty: DutyModel::AwaitKaWrite },
            ActionModel::SendKeepAlive,
        )
    } else {
        (PhaseModel::Active { last_ka, carry, duty: DutyModel::AwaitRead }, ActionModel::Read)
    }
}

/// Turns to the next pending directive label, in read order; with none
/// left, the iteration ends in the throttle sleep.
pub open spec fn continue_with(last_ka: u64, carry: Seq<u8>, pending: Seq<Seq<u8>>) -> (
    PhaseModel,
    ActionModel,
) {
    if pending.len() == 0 {
        (
            PhaseModel::Active { last_ka, carry, duty: DutyModel::Throttling },
            ActionModel::Sleep { units: LOOP_THROTTLE },
        )
    } else {
        (
            PhaseModel::Active {
                last_ka,
                carry,
                duty: DutyModel::AwaitRegistry {
                    label: pending[0],
                    rest: pending.drop_first(),
                },
            },
            ActionModel::LoadRegistry,
        )
    }
}

/// The transition relation of the whole machine: from the current phase,
/// the observed event, and the current time, to the next phase and the
/// next action. An event that does not answer what the phase awaits leaves
/// the phase unchanged and asks for nothing.
pub open spec fn next(st: PhaseModel, ev: EventModel, now: u64) -> (PhaseModel, ActionModel) {
    match st {
        PhaseModel::Connecting => match ev {
            EventModel::ConnectOk => (PhaseModel::Handshaking, ActionModel::SendIdentity),
            EventModel::ConnectErr => (
                PhaseModel::BackingOff,
                ActionModel::Sleep { units: CONNECT_BACKOFF },
            ),
            _ => (st, ActionModel::Wait),
        },
        PhaseModel::BackingOff => match ev {
            EventModel::Slept => (PhaseModel::Connecting, ActionModel::Connect),
            _ => (st, ActionModel::Wait),
        },
        PhaseModel::Handshaking => match ev {
            EventModel::WriteOk => (
                PhaseModel::Active {
                    last_ka: now,
                    carry: Seq::empty(),
                    duty: DutyModel::AwaitRead,
                },
                ActionModel::Read,
            ),
            EventModel::WriteErr => (PhaseModel::Closed, ActionModel::CloseSocket),
            _ => (st, ActionModel::Wait),
        },
        PhaseModel::Active { last_ka, carry, duty } => match duty {
            DutyModel::AwaitKaWrite => match ev {
                EventModel::WriteOk => (
                    PhaseModel::Active { last_ka: now, carry, duty: DutyModel::AwaitRead },
                    ActionModel::Read,
                ),
                EventModel::WriteErr => (PhaseModel::Closed, ActionModel::CloseSocket),
                _ => (st, ActionModel::Wait),
            },
            DutyModel::AwaitRead => match ev {
                EventModel::ReadData { bytes } => {
                    let data = carry + bytes;
                    continue_with(last_ka, line_remainder(data), directive_labels(data))
                },
                EventModel::ReadClosed => (PhaseModel::Closed, ActionModel::CloseSocket),
                EventModel::ReadErr => (PhaseModel::Closed, ActionModel::CloseSocket),
                EventModel::ReadTimeout => (
                    PhaseModel::Active { last_ka, carry, duty: DutyModel::Pausing },
                    ActionModel::Sleep { units: IDLE_PAUSE },
                ),
                _ => (st, ActionModel::Wait),
            },
            DutyModel::AwaitRegistry { label, rest } => match ev {
                EventModel::RegistryOk { entries } => match resolve_spec(entries, label) {
                    Some(addr) => (
                        PhaseModel::Active {
                            last_ka,
                            carry,
                            duty: DutyModel::AwaitDispatch { rest },
                        },
                        ActionModel::Dispatch { url: url_spec(addr) },
                    ),
                    None => continue_with(last_ka, carry, rest),
                },
                EventModel::RegistryErr => continue_with(last_ka, carry, rest),
                _ => (st, ActionModel::Wait),
            },
            DutyModel::AwaitDispatch { rest } => match ev {
                EventModel::Dispatched => continue_with(last_ka, carry, rest),
                _ => (st, ActionModel::Wait),
            },
            DutyModel::Throttling => match ev {
                EventModel::Slept => iteration_start(last_ka, carry, now),
                _ => (st, ActionModel::Wait),
            },
            DutyModel::Pausing => match ev {
                EventModel::Slept => iteration_start(last_ka, carry, now),
                _ => (st, ActionModel::Wait),
            },
        },
        PhaseModel::Closed => match ev {
            EventModel::SocketClosed => (PhaseModel::Connecting, ActionModel::Connect),
            _ => (st, ActionModel::Wait),
        },
    }
}

/// The machine's starting point: a connect attempt is owed at once.
pub fn start() -> (r: (Phase, Action))
    ensures
        r.0@ == PhaseModel::Connecting,
        r.1@ == ActionModel::Connect,
{
    (Phase::Connecting, Action::Connect)
}

/// The start of one ACTIVE iteration, executable form.
fn begin_iteration(last_ka: u64, carry: Vec<u8>, now: u64) -> (r: (Phase, Action))
    ensures
        r.0@ == iteration_start(last_ka, carry@, now).0,
        r.1@ == iteration_start(last_ka, carry@, now).1,
{
    if now >= last_ka && now - last_ka >= KEEP_ALIVE_INTERVAL {
        (Phase::Active { last_ka, carry, duty: Duty::AwaitKaWrite }, Action::SendKeepAlive)
    } else {
        (Phase::Active { last_ka, carry, duty: Duty::AwaitRead }, Action::Read)
    }
}

/// Turning to the next pending directive, executable form.
fn continue_session(last_ka: u64, carry: Vec<u8>, queue: Vec<Vec<u8>>) -> (r: (Phase, Action))
    ensures
        r.0@ == continue_with(last_ka, carry@, labels_model(queue@)).0,
        r.1@ == continue_with(last_ka, carry@, labels_model(queue@)).1,
{
    let mut queue = queue;
    if queue.len() == 0 {
        (
            Phase::Active { last_ka, carry, duty: Duty::Throttling },
            Action::Sleep { units: LOOP_THROTTLE },
        )
    } else {
        let ghost before = queue@;
        let label = queue.remove(0);
        proof {
            assert(labels_model(queue@) =~= labels_model(before).drop_first());
        }
        (
            Phase::Active { last_ka, carry, duty: Duty::AwaitRegistry { label, rest: queue } },
            Action::LoadRegistry,
        )
    }
}

/// Advances the machine by one observed event at time `now`, returning the
/// next phase and the action the driver must perform next. The result is
/// exactly what the transition relation [`next`] prescribes.
pub fn step(st: Phase, ev: Event, now: u64) -> (r: (Phase, Action))
    ensures
        r.0@ == next(st@, ev@, now).0,
        r.1@ == next(st@, ev@, now).1,
{
    match (st, ev) {
        (Phase::Connecting, Event::ConnectOk) => (Phase::Handshaking, Action::SendIdentity),
        (Phase::Connecting, Event::ConnectErr) => (
            Phase::BackingOff,
            Action::Sleep { units: CONNECT_BACKOFF },
        ),
        (Phase::BackingOff, Event::Slept) => (Phase::Connecting, Action::Connect),
        (Phase::Handshaking, Event::WriteOk) => {
            let r = (
                Phase::Active { last_ka: now, carry: Vec::new(), duty: Duty::AwaitRead },
                Action::Read,
            );
            proof {
                assert(r.0@->Active_carry =~= Seq::<u8>::empty());
            }
            r
        },
        (Phase::Handshaking, Event::WriteErr) => (Phase::Closed, Action::CloseSocket),
        (Phase::Active { last_ka: _, carry, duty: Duty::AwaitKaWrite }, Event::WriteOk) => (
            Phase::Active { last_ka: now, carry, duty: Duty::AwaitRead },
            Action::Read,
        ),
        (Phase::Active { last_ka: _, carry: _, duty: Duty::AwaitKaWrite }, Event::WriteErr) => (
            Phase::Closed,
            Action::CloseSocket,
        ),
        (Phase::Active { last_ka, carry, duty: Duty::AwaitRead }, Event::ReadData { bytes }) => {
            let mut data = carry;
            let mut tail = bytes;
            data.append(&mut tail);
            let (queue, new_carry) = extract_messages(data.as_slice());
            continue_session(last_ka, new_carry, queue)
        },
        (Phase::Active { last_ka: _, carry: _, duty: Duty::AwaitRead }, Event::ReadClosed) => (
            Phase::Closed,
            Action::CloseSocket,
        ),
        (Phase::Active { last_ka: _, carry: _, duty: Duty::AwaitRead }, Event::ReadErr) => (
            Phase::Closed,
            Action::CloseSocket,
        ),
        (Phase::Active { last_ka, carry, duty: Duty::AwaitRead }, Event::ReadTimeout) => (
            Phase::Active { last_ka, carry, duty: Duty::Pausing },
            Action::Sleep { units: IDLE_PAUSE },
        ),
        (
            Phase::Active { last_ka, carry, duty: Duty::AwaitRegistry { label, rest } },
            Event::RegistryOk { entries },
        ) => {
            match resolve(&entries, label.as_slice()) {
                Some(addr) => (
                    Phase::Active { last_ka, carry, duty: Duty::AwaitDispatch { rest } },
                    Action::Dispatch { url: url_for(addr.as_slice()) },
                ),
                None => continue_session(last_ka, carry, rest),
            }
        },
        (
            Phase::Active { last_ka, carry, duty: Duty::AwaitRegistry { label: _, rest } },
            Event::RegistryErr,
        ) => continue_session(last_ka, carry, rest),
        (
            Phase::Active { last_ka, carry, duty: Duty::AwaitDispatch { rest } },
            Event::Dispatched,
        ) => continue_session(last_ka, carry, rest),
        (Phase::Active { last_ka, carry, duty: Duty::Throttling }, Event::Slept) => {
            begin_iteration(last_ka, carry, now)
        },
        (Phase::Active { last_ka, carry, duty: Duty::Pausing }, Event::Slept) => {
            begin_iteration(last_ka, carry, now)
        },
        (Phase::Closed, Event::SocketClosed) => (Phase::Connecting, Action::Connect),
        (s, _) => (s, Action::Wait),
    }
}

/// Keep-alive precedence. At the start of an ACTIVE iteration (the wake-up
/// after the throttle or the idle pause), if `KEEP_ALIVE_INTERVAL` or more
/// time units have passed since the last recorded emission, the machine
/// emits exactly one keep-alive probe before it attempts any read; once the
/// probe's write succeeds, the emission time is recorded and the machine
/// turns to reading, and no second probe is owed at that instant.
pub proof fn lemma_keep_alive_before_read(
    last_ka: u64,
    carry: Seq<u8>,
    duty: DutyModel,
    now: u64,
    now2: u64,
)
    requires
        duty == DutyModel::Throttling || duty == DutyModel::Pausing,
    ensures
        keep_alive_due(last_ka, now) ==> next(
            PhaseModel::Active { last_ka, carry, duty },
            EventModel::Slept,
            now,
        ) == (
            PhaseModel::Active { last_ka, carry, duty: DutyModel::AwaitKaWrite },
            ActionModel::SendKeepAlive,
        ),
        !keep_alive_due(last_ka, now) ==> next(
            PhaseModel::Active { last_ka, carry, duty },
            EventModel::Slept,
            now,
        ) == (
            PhaseModel::Active { last_ka, carry, duty: DutyModel::AwaitRead },
            ActionModel::Read,
        ),
        next(
            PhaseModel::Active { last_ka, carry, duty: DutyModel::AwaitKaWrite },
            EventModel::WriteOk,
            now2,
        ) == (
            PhaseModel::Active { last_ka: now2, carry, duty: DutyModel::AwaitRead },
            ActionModel::Read,
        ),
        !keep_alive_due(now2, now2),
{
}

/// Reconnection. A closed session is always followed by a fresh connect
/// attempt: immediately once the socket of a dropped session is released,
/// and after the fixed backoff exactly when the preceding attempt failed at
/// the connect step itself.
pub proof fn lemma_reconnect(now: u64)
    ensures
        next(PhaseModel::Closed, EventModel::SocketClosed, now) == (
            PhaseModel::Connecting,
            ActionModel::Connect,
        ),
        next(PhaseModel::Connecting, EventModel::ConnectErr, now) == (
            PhaseModel::BackingOff,
            ActionModel::Sleep { units: CONNECT_BACKOFF },
        ),
        next(PhaseModel::BackingOff, EventModel::Slept, now) == (
            PhaseModel::Connecting,
            ActionModel::Connect,
        ),
{
}

/// Directive idempotence. Delivering the same directive twice in sequence,
/// against the same registry, yields two independent dispatch actions with
/// the same URL; the second is never suppressed on account of the first.
pub proof fn lemma_directive_idempotent(
    last_ka: u64,
    msg: Seq<u8>,
    entries: Seq<EntryModel>,
    label: Seq<u8>,
    now1: u64,
    now2: u64,
    now3: u64,
)
    requires
        directive_labels(msg) == seq![label],
        line_remainder(msg) == Seq::<u8>::empty(),
        resolve_spec(entries, label) is Some,
        !keep_alive_due(last_ka, now2),
    ensures
        ({
            let addr = resolve_spec(entries, label)->Some_0;
            let s0 = PhaseModel::Active {
                last_ka,
                carry: Seq::empty(),
                duty: DutyModel::AwaitRead,
            };
            let s1 = next(s0, EventModel::ReadData { bytes: msg }, now1);
            let s2 = next(s1.0, EventModel::RegistryOk { entries }, now1);
            let s3 = next(s2.0, EventModel::Dispatched, now1);
            let s4 = next(s3.0, EventModel::Slept, now2);
            let s5 = next(s4.0, EventModel::ReadData { bytes: msg }, now3);
            let s6 = next(s5.0, EventModel::RegistryOk { entries }, now3);
            &&& s2.1 == ActionModel::Dispatch { url: url_spec(addr) }
            &&& s4.1 == ActionModel::Read
            &&& s6.1 == ActionModel::Dispatch { url: url_spec(addr) }
        }),
{
    assert(Seq::<u8>::empty() + msg =~= msg);
    assert(seq![label].drop_first() =~= Seq::<Seq<u8>>::empty());
}

} // verus!
