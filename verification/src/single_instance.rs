//! One running instance: how a second invocation hands its path to the first.
//!
//! The transport carries at most one path per frame and touches no document.
use std::collections::VecDeque;

use vstd::prelude::*;
use vstd::string::*;

use crate::file_path::FilePath;
use crate::little_endian::{push_le16, push_le32, push_units, read_units};

verus! {

pub const WIRE_VERSION: u16 = 1;

pub const MAX_PATH_UTF16_UNITS: usize = 32_768;

pub const MAX_PENDING_ACTIVATIONS: usize = 8;

pub const ROUTE_RETRY_COUNT: u32 = 20;

/// The time within which a whole frame has to arrive, in nanoseconds.
pub const FRAME_TIMEOUT_NS: u128 = 2_000_000_000;

/// The window message that announces an activation.
pub const ACTIVATION_MESSAGE: u32 = 34_018;

pub fn activation_message() -> (r: u32)
    ensures
        r == ACTIVATION_MESSAGE,
{
    ACTIVATION_MESSAGE
}

/// The mark at the start of a frame.
pub open spec fn wire_magic() -> Seq<u8> {
    seq![78, 84, 68, 65]
}

/// A frame: mark, version, number of units, units. An empty path asks for
/// attention only.
pub open spec fn frame(units: Seq<u16>) -> Seq<u8> {
    wire_magic() + crate::little_endian::le16(WIRE_VERSION as int) + crate::little_endian::le32(
        units.len() as int,
    ) + crate::little_endian::unit_bytes(units)
}

#[derive(Clone, Copy, Debug, PartialEq, Eq, Structural)]
pub enum FrameError {
    PathTooLong,
    MagicMismatch,
    VersionUnsupported(u16),
    LengthAboveLimit(u32),
}

impl FrameError {
    /// The message, or what precedes the number in it.
    pub fn text(self) -> (r: &'static str)
        ensures
            self is PathTooLong ==> r@ == "activation path exceeds 32768 UTF-16 units"@,
            self is MagicMismatch ==> r@ == "activation wire magic mismatch"@,
            self is VersionUnsupported ==> r@ == "activation wire version unsupported: "@,
            self is LengthAboveLimit ==> r@ == "activation path is above bounded limit: "@,
    {
        match self {
            FrameError::PathTooLong => "activation path exceeds 32768 UTF-16 units",
            FrameError::MagicMismatch => "activation wire magic mismatch",
            FrameError::VersionUnsupported(_) => "activation wire version unsupported: ",
            FrameError::LengthAboveLimit(_) => "activation path is above bounded limit: ",
        }
    }
}

pub open spec fn path_units(path: Option<Vec<u16>>) -> Seq<u16> {
    match path {
        Some(units) => units@,
        None => Seq::empty(),
    }
}

/// The frame of an invocation. A path that is too long is refused before
/// anything is sent.
pub fn encode_frame(path: &Option<Vec<u16>>) -> (r: Result<Vec<u8>, FrameError>)
    ensures
        path_units(*path).len() <= MAX_PATH_UTF16_UNITS ==> (r matches Ok(bytes) && bytes@ == frame(
            path_units(*path),
        )),
        path_units(*path).len() > MAX_PATH_UTF16_UNITS ==> r == Err::<Vec<u8>, _>(
            FrameError::PathTooLong,
        ),
{
    let length: usize = match path {
        Some(units) => units.len(),
        None => 0,
    };
    if length > MAX_PATH_UTF16_UNITS {
        return Err(FrameError::PathTooLong);
    }
    let mut bytes: Vec<u8> = vec![78, 84, 68, 65];
    assert(bytes@ =~= wire_magic());
    push_le16(&mut bytes, WIRE_VERSION);
    push_le32(&mut bytes, length as u32);
    if let Some(units) = path {
        push_units(&mut bytes, units);
    }
    assert(crate::little_endian::unit_bytes(Seq::empty()) =~= Seq::empty());
    assert(bytes@ =~= frame(path_units(*path)));
    Ok(bytes)
}

/// What a header announces.
#[derive(Clone, Copy, Debug, PartialEq, Eq)]
pub enum FrameBody {
    /// Attention only.
    Empty,
    /// A path of this many bytes follows.
    Path { byte_len: usize },
}

pub open spec fn announced(header: Seq<u8>) -> Result<FrameBody, FrameError> {
    let version = header[4] as int + 256 * header[5] as int;
    let count = header[6] as int + 256 * header[7] as int + 65536 * header[8] as int + 16777216
        * header[9] as int;
    if header.take(4) != wire_magic() {
        Err(FrameError::MagicMismatch)
    } else if version != WIRE_VERSION {
        Err(FrameError::VersionUnsupported(version as u16))
    } else if count > MAX_PATH_UTF16_UNITS {
        Err(FrameError::LengthAboveLimit(count as u32))
    } else if count == 0 {
        Ok(FrameBody::Empty)
    } else {
        Ok(FrameBody::Path { byte_len: (2 * count) as usize })
    }
}

/// Reads the first ten bytes of a frame.
pub fn read_frame(header: &Vec<u8>) -> (r: Result<FrameBody, FrameError>)
    requires
        header@.len() == 10,
    ensures
        r == announced(header@),
{
    if !(header[0] == 78 && header[1] == 84 && header[2] == 68 && header[3] == 65) {
        proof {
            if header@.take(4) == wire_magic() {
                assert(header@.take(4)[0] == header@[0]);
                assert(header@.take(4)[1] == header@[1]);
                assert(header@.take(4)[2] == header@[2]);
                assert(header@.take(4)[3] == header@[3]);
            }
        }
        return Err(FrameError::MagicMismatch);
    }
    assert(header@.take(4) =~= wire_magic());
    let version: u16 = header[4] as u16 + 256 * header[5] as u16;
    if version != WIRE_VERSION {
        return Err(FrameError::VersionUnsupported(version));
    }
    let count: u32 = header[6] as u32 + 256 * header[7] as u32 + 65536 * header[8] as u32 + 16777216
        * header[9] as u32;
    if count > 32_768 {
        return Err(FrameError::LengthAboveLimit(count));
    }
    if count == 0 {
        return Ok(FrameBody::Empty);
    }
    Ok(FrameBody::Path { byte_len: 2 * count as usize })
}

/// The units of a frame's body.
pub fn frame_path(body: &Vec<u8>) -> (r: Vec<u16>)
    requires
        body@.len() % 2 == 0,
    ensures
        crate::little_endian::unit_bytes(r@) == body@,
{
    let units = read_units(body, 0, body.len() / 2);
    assert(body@.subrange(0, 2 * (body@.len() as int / 2)) =~= body@);
    units
}

/// The sixteen-bit units of a character.
pub open spec fn char_units(c: char) -> Seq<u16> {
    let code = c as int;
    if code < 0x10000 {
        seq![code as u16]
    } else {
        seq![
            (0xD800 + (code - 0x10000) / 0x400) as u16,
            (0xDC00 + (code - 0x10000) % 0x400) as u16,
        ]
    }
}

/// The UTF-16 form of a text.
pub open spec fn utf16(text: Seq<char>) -> Seq<u16>
    decreases text.len(),
{
    if text.len() == 0 {
        Seq::empty()
    } else {
        utf16(text.drop_last()) + char_units(text.last())
    }
}

/// The UTF-16 form of a text, ended by a zero.
pub fn wide_null(value: &str) -> (r: Vec<u16>)
    ensures
        r@ == utf16(value@).push(0),
{
    let mut units: Vec<u16> = Vec::new();
    let length: usize = value.unicode_len();
    let mut index: usize = 0;
    assert(value@.take(0) =~= Seq::empty());
    while index < length
        invariant
            index <= length,
            length == value@.len(),
            units@ == utf16(value@.take(index as int)),
        decreases length - index,
    {
        let ghost before = units@;
        let c = value.get_char(index);
        let code: u32 = c as u32;
        if code < 0x10000 {
            units.push(code as u16);
        } else {
            let rest: u32 = code - 0x10000;
            units.push((0xD800 + rest / 0x400) as u16);
            units.push((0xDC00 + rest % 0x400) as u16);
        }
        assert(value@.take(index + 1).drop_last() =~= value@.take(index as int));
        assert(units@ =~= before + char_units(value@[index as int]));
        index = index + 1;
    }
    assert(value@.take(length as int) =~= value@);
    units.push(0);
    units
}

/// A pipe operation is given up: the instance shuts down or its time is over.
pub fn operation_cancelled(shutdown: bool, deadline_ns: Option<u128>, now_ns: u128) -> (r: bool)
    ensures
        r == (shutdown || (deadline_ns matches Some(deadline) && now_ns >= deadline)),
{
    shutdown || match deadline_ns {
        Some(deadline) => now_ns >= deadline,
        None => false,
    }
}

/// How a partial transfer goes on.
#[derive(Clone, Copy, Debug, PartialEq, Eq)]
pub enum TransferStep {
    Done,
    /// Go on from here.
    Continue(usize),
    /// The other side is gone.
    Closed,
}

/// Takes how many bytes moved from `offset` on. One deadline covers the whole
/// frame, so that a trickling client cannot renew its hold.
pub fn transferred(offset: usize, length: usize, moved: usize) -> (r: TransferStep)
    ensures
        r == (if moved == 0 {
            TransferStep::Closed
        } else if offset + moved >= length {
            TransferStep::Done
        } else {
            TransferStep::Continue((offset + moved) as usize)
        }),
{
    if moved == 0 {
        return TransferStep::Closed;
    }
    let next: usize = offset.saturating_add(moved);
    if next >= length {
        TransferStep::Done
    } else {
        TransferStep::Continue(next)
    }
}

/// What happened to an overlapped pipe operation.
#[derive(Clone, Copy, Debug, PartialEq, Eq, Structural)]
pub enum PipeEvent {
    /// Before anything was issued.
    Start { cancelled: bool },
    /// It completed at once, with this many bytes.
    Transferred(u32),
    /// It completed at once; its result has to be asked for.
    Completed,
    Pending,
    IssueFailed,
    /// The operation is under way.
    Watch { cancelled: bool },
    Signaled,
    TimedOut,
    WaitFailed,
    /// Cancellation has come to its end.
    CancelRetired { waited: bool },
    Result(Option<u32>),
}

#[derive(Clone, Copy, Debug, PartialEq, Eq, Structural)]
pub enum PipeFailure {
    Cancelled,
    Issue,
    Wait,
    Result,
}

#[derive(Clone, Copy, Debug, PartialEq, Eq, Structural)]
pub enum PipeStep {
    Issue,
    /// Look whether the operation is to be given up.
    CheckCancelled,
    Wait,
    /// Cancel the operation and wait until the system has let go of it.
    /// `waited` tells that waiting itself failed.
    Cancel { waited: bool },
    AskResult,
    Done(u32),
    Fail(PipeFailure),
}

impl PipeFailure {
    /// The message, or what precedes the host's.
    pub fn text(self) -> (r: &'static str)
        ensures
            self is Cancelled ==> r@ == "activation operation cancelled or timed out"@,
            self is Issue ==> r@ == "activation I/O failed: "@,
            self is Wait ==> r@ == "activation I/O wait failed"@,
            self is Result ==> r@ == "activation I/O result: "@,
    {
        match self {
            PipeFailure::Cancelled => "activation operation cancelled or timed out",
            PipeFailure::Issue => "activation I/O failed: ",
            PipeFailure::Wait => "activation I/O wait failed",
            PipeFailure::Result => "activation I/O result: ",
        }
    }
}

pub open spec fn pipe_stepped(event: PipeEvent) -> PipeStep {
    match event {
        PipeEvent::Start { cancelled } => if cancelled {
            PipeStep::Fail(PipeFailure::Cancelled)
        } else {
            PipeStep::Issue
        },
        PipeEvent::Transferred(count) => PipeStep::Done(count),
        PipeEvent::Completed => PipeStep::AskResult,
        PipeEvent::Pending => PipeStep::CheckCancelled,
        PipeEvent::IssueFailed => PipeStep::Fail(PipeFailure::Issue),
        PipeEvent::Watch { cancelled } => if cancelled {
            PipeStep::Cancel { waited: false }
        } else {
            PipeStep::Wait
        },
        PipeEvent::Signaled => PipeStep::AskResult,
        PipeEvent::TimedOut => PipeStep::CheckCancelled,
        PipeEvent::WaitFailed => PipeStep::Cancel { waited: true },
        PipeEvent::CancelRetired { waited } => PipeStep::Fail(
            if waited {
                PipeFailure::Wait
            } else {
                PipeFailure::Cancelled
            },
        ),
        PipeEvent::Result(Some(count)) => PipeStep::Done(count),
        PipeEvent::Result(None) => PipeStep::Fail(PipeFailure::Result),
    }
}

/// One step of an overlapped operation. An operation that was issued is left
/// only once it has completed or its cancellation has been retired, so that
/// its buffer is never used afterwards.
pub fn pipe_operation(event: PipeEvent) -> (r: PipeStep)
    ensures
        r == pipe_stepped(event),
{
    match event {
        PipeEvent::Start { cancelled } => {
            if cancelled {
                PipeStep::Fail(PipeFailure::Cancelled)
            } else {
                PipeStep::Issue
            }
        },
        PipeEvent::Transferred(count) => PipeStep::Done(count),
        PipeEvent::Completed => PipeStep::AskResult,
        PipeEvent::Pending => PipeStep::CheckCancelled,
        PipeEvent::IssueFailed => PipeStep::Fail(PipeFailure::Issue),
        PipeEvent::Watch { cancelled } => {
            if cancelled {
                PipeStep::Cancel { waited: false }
            } else {
                PipeStep::Wait
            }
        },
        PipeEvent::Signaled => PipeStep::AskResult,
        PipeEvent::TimedOut => PipeStep::CheckCancelled,
        PipeEvent::WaitFailed => PipeStep::Cancel { waited: true },
        PipeEvent::CancelRetired { waited } => {
            if waited {
                PipeStep::Fail(PipeFailure::Wait)
            } else {
                PipeStep::Fail(PipeFailure::Cancelled)
            }
        },
        PipeEvent::Result(Some(count)) => PipeStep::Done(count),
        PipeEvent::Result(None) => PipeStep::Fail(PipeFailure::Result),
    }
}

/// How a second invocation goes on.
#[derive(Clone, Copy, Debug, PartialEq, Eq, Structural)]
pub enum RouteStep {
    Routed,
    /// Wait and try again; the first refusal is noted.
    Retry { attempt: u32, note: bool },
    /// The first instance did not answer. No second writer is started.
    Failed,
}

/// Takes how an attempt to reach the first instance went.
pub fn route_secondary_invocation(attempt: u32, succeeded: bool) -> (r: RouteStep)
    ensures
        r == (if succeeded {
            RouteStep::Routed
        } else if attempt < ROUTE_RETRY_COUNT {
            RouteStep::Retry { attempt: (attempt + 1) as u32, note: attempt == 1 }
        } else {
            RouteStep::Failed
        }),
{
    if succeeded {
        return RouteStep::Routed;
    }
    if attempt < ROUTE_RETRY_COUNT {
        return RouteStep::Retry { attempt: attempt + 1, note: attempt == 1 };
    }
    RouteStep::Failed
}

/// How an invocation finds its place.
#[derive(Clone, Copy, Debug, PartialEq, Eq, Structural)]
pub enum InstanceEvent {
    /// Whether the named mutex could be made, and whether it was there.
    Mutex { created: bool, already_exists: bool },
    Routed(bool),
    ListenerStarted(bool),
}

#[derive(Clone, Copy, Debug, PartialEq, Eq, Structural)]
pub enum InstanceStep {
    /// Release the mutex and hand the path to the first instance.
    Route,
    StartListener,
    Primary,
    SecondaryRouted,
    MutexFailed,
    RouteFailed,
    /// The mutex has to be released.
    ListenerFailed,
}

/// Becomes the first instance or hands over to it. A second one never falls
/// back to a competing writer.
pub fn acquire_or_route(event: InstanceEvent) -> (r: InstanceStep)
    ensures
        r == (match event {
            InstanceEvent::Mutex { created, already_exists } => if !created {
                InstanceStep::MutexFailed
            } else if already_exists {
                InstanceStep::Route
            } else {
                InstanceStep::StartListener
            },
            InstanceEvent::Routed(ok) => if ok {
                InstanceStep::SecondaryRouted
            } else {
                InstanceStep::RouteFailed
            },
            InstanceEvent::ListenerStarted(ok) => if ok {
                InstanceStep::Primary
            } else {
                InstanceStep::ListenerFailed
            },
        }),
{
    match event {
        InstanceEvent::Mutex { created, already_exists } => {
            if !created {
                InstanceStep::MutexFailed
            } else if already_exists {
                InstanceStep::Route
            } else {
                InstanceStep::StartListener
            }
        },
        InstanceEvent::Routed(ok) => {
            if ok {
                InstanceStep::SecondaryRouted
            } else {
                InstanceStep::RouteFailed
            }
        },
        InstanceEvent::ListenerStarted(ok) => {
            if ok {
                InstanceStep::Primary
            } else {
                InstanceStep::ListenerFailed
            }
        },
    }
}

/// One round of the listener.
#[derive(Clone, Copy, Debug, PartialEq, Eq, Structural)]
pub enum ListenerEvent {
    Round,
    PipeCreated(bool),
    Connected(bool),
    FrameRead(bool),
    Disconnected,
}

#[derive(Clone, Copy, Debug, PartialEq, Eq, Structural)]
pub enum ListenerStep {
    CreatePipe,
    Connect,
    ReadFrame,
    /// Put what was read into the inbox.
    Accept,
    Disconnect,
    Stop,
}

/// What the listener does next. What arrives during a shutdown is dropped.
pub fn activation_listener(event: ListenerEvent, shutdown: bool) -> (r: ListenerStep)
    ensures
        r == (match event {
            ListenerEvent::Round | ListenerEvent::Disconnected => if shutdown {
                ListenerStep::Stop
            } else {
                ListenerStep::CreatePipe
            },
            ListenerEvent::PipeCreated(ok) => if ok {
                ListenerStep::Connect
            } else {
                ListenerStep::Stop
            },
            ListenerEvent::Connected(ok) => if ok && !shutdown {
                ListenerStep::ReadFrame
            } else {
                ListenerStep::Disconnect
            },
            ListenerEvent::FrameRead(ok) => if ok && !shutdown {
                ListenerStep::Accept
            } else {
                ListenerStep::Disconnect
            },
        }),
{
    match event {
        ListenerEvent::Round | ListenerEvent::Disconnected => {
            if shutdown {
                ListenerStep::Stop
            } else {
                ListenerStep::CreatePipe
            }
        },
        ListenerEvent::PipeCreated(ok) => {
            if ok {
                ListenerStep::Connect
            } else {
                ListenerStep::Stop
            }
        },
        ListenerEvent::Connected(ok) => {
            if ok && !shutdown {
                ListenerStep::ReadFrame
            } else {
                ListenerStep::Disconnect
            }
        },
        ListenerEvent::FrameRead(ok) => {
            if ok && !shutdown {
                ListenerStep::Accept
            } else {
                ListenerStep::Disconnect
            }
        },
    }
}

/// Paths that wait for the canvas, and the windows that are told of them. `T`
/// is a path.
pub struct ActivationInbox<T> {
    pub pending: VecDeque<T>,
    pub parent: Option<u64>,
    pub child: Option<u64>,
}

/// The mathematical content of an [`ActivationInbox`].
pub struct Inbox<T> {
    pub pending: Seq<T>,
    pub parent: Option<u64>,
    pub child: Option<u64>,
}

impl<T> View for ActivationInbox<T> {
    type V = Inbox<T>;

    open spec fn view(&self) -> Inbox<T> {
        Inbox { pending: self.pending@, parent: self.parent, child: self.child }
    }
}

impl<T> Inbox<T> {
    pub open spec fn wf(self) -> bool {
        self.pending.len() <= MAX_PENDING_ACTIVATIONS
    }

    pub open spec fn has_room(self) -> bool {
        self.pending.len() < MAX_PENDING_ACTIVATIONS
    }

    pub open spec fn with_path(self, path: T) -> Inbox<T> {
        Inbox { pending: self.pending.push(path), ..self }
    }

    /// The windows to bring forward and to notify.
    pub open spec fn dispatch(self) -> Dispatch {
        Dispatch { foreground: self.parent, notify: self.child }
    }
}

/// Which window is brought forward and which one is notified.
#[derive(Clone, Copy, Debug, PartialEq, Eq, Structural)]
pub struct Dispatch {
    pub foreground: Option<u64>,
    pub notify: Option<u64>,
}

impl<T> ActivationInbox<T> {
    pub fn new() -> (r: Self)
        ensures
            r@ == (Inbox::<T> { pending: Seq::empty(), parent: None, child: None }),
            r@.wf(),
    {
        let r = ActivationInbox { pending: VecDeque::new(), parent: None, child: None };
        assert(r@.pending =~= Seq::<T>::empty());
        r
    }

    /// Takes a path from the window's own dialog. Returns the window to notify;
    /// none is brought forward. A full inbox refuses.
    pub fn open_from_dialog(&mut self, path: T) -> (r: Result<Option<u64>, InboxFull>)
        ensures
            old(self)@.has_room() ==> r == Ok::<_, InboxFull>(old(self)@.child) && final(self)@
                == old(self)@.with_path(path),
            !old(self)@.has_room() ==> r == Err::<Option<u64>, _>(InboxFull) && final(self)@ == old(
                self,
            )@,
            old(self)@.wf() ==> final(self)@.wf(),
    {
        if self.pending.len() >= MAX_PENDING_ACTIVATIONS {
            return Err(InboxFull);
        }
        self.pending.push_back(path);
        Ok(self.child)
    }

    /// Binds the windows. What came before is announced now.
    pub fn attach_windows(&mut self, parent: u64, child: u64) -> (r: Dispatch)
        ensures
            final(self)@ == (Inbox { parent: Some(parent), child: Some(child), ..old(self)@ }),
            r == final(self)@.dispatch(),
    {
        self.parent = Some(parent);
        self.child = Some(child);
        self.request_foreground_and_dispatch()
    }

    /// The oldest waiting path.
    pub fn take_activation(&mut self) -> (r: Option<T>)
        ensures
            old(self)@.pending.len() > 0 ==> r == Some(old(self)@.pending.first()) && final(self)@
                == (Inbox { pending: old(self)@.pending.drop_first(), ..old(self)@ }),
            old(self)@.pending.len() == 0 ==> r is None && final(self)@ == old(self)@,
            old(self)@.wf() ==> final(self)@.wf(),
    {
        let r = self.pending.pop_front();
        proof {
            if old(self)@.pending.len() > 0 {
                assert(self@.pending =~= old(self)@.pending.drop_first());
            } else {
                assert(self@.pending =~= old(self)@.pending);
            }
        }
        r
    }

    /// Takes a frame from another invocation. A path that finds no room is
    /// dropped; the window is brought forward in any case.
    pub fn accept(&mut self, path: Option<T>) -> (r: (bool, Dispatch))
        ensures
            r.0 == (path is None || old(self)@.has_room()),
            r.1 == old(self)@.dispatch(),
            final(self)@ == (match path {
                Some(path) => if old(self)@.has_room() {
                    old(self)@.with_path(path)
                } else {
                    old(self)@
                },
                None => old(self)@,
            }),
            old(self)@.wf() ==> final(self)@.wf(),
    {
        let mut accepted = true;
        if let Some(path) = path {
            if self.pending.len() >= MAX_PENDING_ACTIVATIONS {
                accepted = false;
            } else {
                self.pending.push_back(path);
            }
        }
        (accepted, self.request_foreground_and_dispatch())
    }

    pub fn request_foreground_and_dispatch(&self) -> (r: Dispatch)
        ensures
            r == self@.dispatch(),
    {
        Dispatch { foreground: self.parent, notify: self.child }
    }
}

/// The inbox took no more.
#[derive(Clone, Copy, Debug, PartialEq, Eq, Structural)]
pub struct InboxFull;

impl InboxFull {
    pub fn message(self) -> (r: &'static str)
        ensures
            r@ == "파일 열기 요청을 처리 중입니다. 잠시 뒤 다시 시도해주세요"@,
    {
        "파일 열기 요청을 처리 중입니다. 잠시 뒤 다시 시도해주세요"
    }
}

/// The absolute form of an invocation's path: its canonical form where it has
/// one, else itself, else itself below the current directory. It is resolved
/// before it is sent, since the first instance may run elsewhere.
pub fn absolute_invocation_path(
    path: FilePath,
    canonical: Option<FilePath>,
    is_absolute: bool,
    below_current: Option<FilePath>,
) -> (r: FilePath)
    ensures
        r@ == (if canonical is Some {
            canonical->0@
        } else if is_absolute || below_current is None {
            path@
        } else {
            below_current->0@
        }),
{
    crate::project_location::absolute_activation_path(path, canonical, is_absolute, below_current)
}

/// A frame reads back as the path it was made of.
pub proof fn frames_round_trip(units: Seq<u16>)
    requires
        units.len() <= MAX_PATH_UTF16_UNITS,
    ensures
        frame(units).len() == 10 + 2 * units.len(),
        frame(units).take(10).len() == 10,
        announced(frame(units).take(10)) == (if units.len() == 0 {
            Ok::<_, FrameError>(FrameBody::Empty)
        } else {
            Ok(FrameBody::Path { byte_len: (2 * units.len()) as usize })
        }),
        frame(units).skip(10) == crate::little_endian::unit_bytes(units),
        forall|other: Seq<u16>|
            #[trigger] crate::little_endian::unit_bytes(other)
                == crate::little_endian::unit_bytes(units) ==> other == units,
{
    let bytes = frame(units);
    crate::little_endian::lemma_unit_bytes(units);
    crate::little_endian::lemma_le32_value(units.len() as int);
    let header = bytes.take(10);
    let count = crate::little_endian::le32(units.len() as int);
    assert(header.take(4) =~= wire_magic());
    assert(header[6] == count[0]);
    assert(header[7] == count[1]);
    assert(header[8] == count[2]);
    assert(header[9] == count[3]);
    assert(bytes.skip(10) =~= crate::little_endian::unit_bytes(units));
    assert forall|other: Seq<u16>|
        #[trigger] crate::little_endian::unit_bytes(other) == crate::little_endian::unit_bytes(
            units,
        ) implies other == units by {
        crate::little_endian::lemma_unit_bytes(other);
        assert forall|i: int| 0 <= i < units.len() implies #[trigger] units[i] == other[i] by {
            crate::little_endian::lemma_u16_parts(units[i]);
            crate::little_endian::lemma_u16_parts(other[i]);
        }
        assert(other =~= units);
    }
}

/// The inbox hands paths out in the order in which they were accepted.
pub proof fn activations_keep_their_order<T>(inbox: Inbox<T>, path: T)
    requires
        inbox.wf(),
        inbox.has_room(),
    ensures
        inbox.with_path(path).wf(),
        inbox.with_path(path).pending.take(inbox.pending.len() as int) == inbox.pending,
        inbox.with_path(path).pending.last() == path,
{
    assert(inbox.pending.push(path).take(inbox.pending.len() as int) =~= inbox.pending);
}

/// An operation that is under way fails only after its cancellation was
/// retired.
pub proof fn pending_operations_are_retired(event: PipeEvent)
    requires
        event is Pending || event is Watch || event is Signaled || event is TimedOut || event
            is WaitFailed,
    ensures
        !(pipe_stepped(event) is Fail),
        !(pipe_stepped(event) is Done),
{
}

} // verus!
