use vstd::prelude::*;

use crate::frame::{buffer_view, frame_from_native, VideoFrame};
use crate::queue::FrameQueue;

verus! {

/// Where a session stands in its lifecycle.
#[derive(Clone, Copy, Debug, PartialEq, Eq, Structural)]
pub enum Phase {
    Idle,
    Starting,
    Running,
    Stopping,
}

/// Why a lifecycle operation failed.
#[derive(Clone, Copy, Debug, PartialEq, Eq, Structural)]
pub enum SessionError {
    /// The engine's init entry point returned a null handle.
    InitError,
    /// The engine's start entry point reported failure; the handle was released.
    StartError,
    /// Shared session state could not be reached.
    LockError,
}

/// What the host has to do next on behalf of the session.
#[derive(Clone, Copy, Debug, PartialEq, Eq)]
pub enum SessionStep {
    /// Call the engine's init entry point with the three callbacks, then
    /// report the handle it returned (zero for null) to `init_returned`.
    CallInit,
    /// Call the engine's start entry point on this handle, then report the
    /// outcome to `start_returned`.
    CallStart(u64),
    /// Call the engine's deinit entry point on this handle, then report
    /// `SessionError::StartError`.
    DeinitAndFail(u64),
    /// Call the engine's stop and then its deinit entry point on this handle,
    /// then report to `stop_completed`.
    StopAndDeinit(u64),
    /// The operation is over, with this outcome.
    Done(Result<(), SessionError>),
}

/// What became of a frame that the engine handed over.
#[derive(Clone, Copy, Debug, PartialEq, Eq, Structural)]
pub enum FrameDelivery {
    /// The frame waits in the queue.
    Queued,
    /// The buffer was null or empty: there was no frame.
    Ignored,
    /// No producer was registered: the frame was dropped, which is worth a
    /// diagnostic.
    Dropped,
}

/// One poll of the frame queue by a consumer that waits up to a timeout.
#[derive(Debug)]
pub enum FramePoll {
    /// The frame at the front of the queue.
    Ready(VideoFrame),
    /// Nothing yet, and time is left: wait a little and poll again.
    Pending,
    /// Nothing came within the timeout, or no queue is registered.
    Expired,
}

/// A touch gesture, with the code the engine expects.
#[derive(Clone, Copy, Debug, PartialEq, Eq, Structural)]
pub enum TouchAction {
    Down,
    Up,
    Move,
}

/// A hardware button, with the code the engine expects.
#[derive(Clone, Copy, Debug, PartialEq, Eq, Structural)]
pub enum ButtonCode {
    Left,
    Right,
    Up,
    Down,
    Enter,
    Back,
    Home,
    Phone,
    CallEnd,
    Microphone,
}

impl TouchAction {
    pub open spec fn spec_code(self) -> i32 {
        match self {
            TouchAction::Down => 0,
            TouchAction::Up => 1,
            TouchAction::Move => 2,
        }
    }

    pub fn code(self) -> (r: i32)
        ensures
            r == self.spec_code(),
    {
        match self {
            TouchAction::Down => 0,
            TouchAction::Up => 1,
            TouchAction::Move => 2,
        }
    }
}

impl ButtonCode {
    pub open spec fn spec_code(self) -> i32 {
        match self {
            ButtonCode::Left => 0,
            ButtonCode::Right => 1,
            ButtonCode::Up => 2,
            ButtonCode::Down => 3,
            ButtonCode::Enter => 4,
            ButtonCode::Back => 5,
            ButtonCode::Home => 6,
            ButtonCode::Phone => 7,
            ButtonCode::CallEnd => 8,
            ButtonCode::Microphone => 9,
        }
    }

    pub fn code(self) -> (r: i32)
        ensures
            r == self.spec_code(),
    {
        match self {
            ButtonCode::Left => 0,
            ButtonCode::Right => 1,
            ButtonCode::Up => 2,
            ButtonCode::Down => 3,
            ButtonCode::Enter => 4,
            ButtonCode::Back => 5,
            ButtonCode::Home => 6,
            ButtonCode::Phone => 7,
            ButtonCode::CallEnd => 8,
            ButtonCode::Microphone => 9,
        }
    }
}

/// A touch event to hand to the engine's touch entry point.
#[derive(Clone, Copy, Debug, PartialEq, Eq, Structural)]
pub struct TouchCommand {
    pub handle: u64,
    pub x: i32,
    pub y: i32,
    pub action: i32,
}

/// A button event to hand to the engine's button entry point.
#[derive(Clone, Copy, Debug, PartialEq, Eq, Structural)]
pub struct ButtonCommand {
    pub handle: u64,
    pub code: i32,
    pub pressed: bool,
}

/// What the session is made of, as plain values.
pub struct SessionModel {
    pub phase: Phase,
    /// The live engine handle, if any.
    pub handle: Option<u64>,
    /// The frames waiting in the queue while a producer is registered.
    pub queue: Option<Seq<VideoFrame>>,
    pub connected: bool,
}

/// A report that drives the lifecycle forward.
pub enum SessionEvent {
    StartRequested,
    InitReturned(u64),
    StartReturned(bool),
    StopRequested,
    StopCompleted,
}

impl SessionModel {
    /// The shape every reachable session has.
    pub open spec fn wf(self) -> bool {
        match self.phase {
            Phase::Idle => self.handle is None && self.queue is None,
            Phase::Starting => self.queue is Some && (self.handle matches Some(h) ==> h != 0),
            Phase::Running => self.queue is Some && (self.handle matches Some(h) && h != 0),
            Phase::Stopping => self.handle is None && self.queue is None,
        }
    }

    /// Whether no lifecycle operation is under way.
    pub open spec fn at_rest(self) -> bool {
        self.phase == Phase::Idle || self.phase == Phase::Running
    }

    /// Whether `event` is the report that the session waits for (or, at
    /// rest, a request).
    pub open spec fn accepts(self, event: SessionEvent) -> bool {
        match event {
            SessionEvent::StartRequested => self.at_rest(),
            SessionEvent::StopRequested => self.at_rest(),
            SessionEvent::InitReturned(_) => self.phase == Phase::Starting && self.handle is None,
            SessionEvent::StartReturned(_) => self.phase == Phase::Starting && self.handle is Some,
            SessionEvent::StopCompleted => self.phase == Phase::Stopping,
        }
    }

    /// The same session with no handle and no registered producer.
    pub open spec fn released(self, phase: Phase) -> SessionModel {
        SessionModel { phase, handle: None, queue: None, connected: self.connected }
    }

    /// The session after `frame` came in from the engine.
    pub open spec fn deliver(self, frame: VideoFrame) -> (SessionModel, FrameDelivery) {
        match self.queue {
            None => (self, FrameDelivery::Dropped),
            Some(q) => (SessionModel { queue: Some(q.push(frame)), ..self }, FrameDelivery::Queued),
        }
    }

    /// The session after the consumer took the frame at the front, if any.
    pub open spec fn take_frame(self) -> (SessionModel, Option<VideoFrame>) {
        match self.queue {
            Some(q) => if q.len() > 0 {
                (SessionModel { queue: Some(q.drop_first()), ..self }, Some(q[0]))
            } else {
                (self, None)
            },
            None => (self, None),
        }
    }

    /// One poll by a consumer that has waited `waited_ms` of `timeout_ms`.
    pub open spec fn poll(self, waited_ms: u64, timeout_ms: u64) -> (SessionModel, FramePoll) {
        match self.queue {
            Some(q) => if q.len() > 0 {
                (SessionModel { queue: Some(q.drop_first()), ..self }, FramePoll::Ready(q[0]))
            } else if waited_ms < timeout_ms {
                (self, FramePoll::Pending)
            } else {
                (self, FramePoll::Expired)
            },
            None => (self, FramePoll::Expired),
        }
    }

    /// The touch command to forward, while a session runs.
    pub open spec fn touch_command(self, x: i32, y: i32, action: TouchAction) -> Option<TouchCommand> {
        if self.phase == Phase::Running {
            Some(TouchCommand { handle: self.handle->0, x, y, action: action.spec_code() })
        } else {
            None
        }
    }

    /// The button command to forward, while a session runs.
    pub open spec fn button_command(self, button: ButtonCode, pressed: bool) -> Option<ButtonCommand> {
        if self.phase == Phase::Running {
            Some(ButtonCommand { handle: self.handle->0, code: button.spec_code(), pressed })
        } else {
            None
        }
    }

    /// The next session and the step to take, on `event`.
    pub open spec fn transition(self, event: SessionEvent) -> (SessionModel, SessionStep) {
        match event {
            SessionEvent::StartRequested => if self.phase == Phase::Running {
                (self, SessionStep::Done(Ok(())))
            } else {
                (
                    SessionModel {
                        phase: Phase::Starting,
                        handle: None,
                        queue: Some(Seq::empty()),
                        connected: self.connected,
                    },
                    SessionStep::CallInit,
                )
            },
            SessionEvent::InitReturned(h) => if h == 0 {
                (self.released(Phase::Idle), SessionStep::Done(Err(SessionError::InitError)))
            } else {
                (SessionModel { handle: Some(h), ..self }, SessionStep::CallStart(h))
            },
            SessionEvent::StartReturned(started) => if started {
                (SessionModel { phase: Phase::Running, ..self }, SessionStep::Done(Ok(())))
            } else {
                (self.released(Phase::Idle), SessionStep::DeinitAndFail(self.handle->0))
            },
            SessionEvent::StopRequested => if self.phase == Phase::Running {
                (self.released(Phase::Stopping), SessionStep::StopAndDeinit(self.handle->0))
            } else {
                (self, SessionStep::Done(Ok(())))
            },
            SessionEvent::StopCompleted => (
                SessionModel { phase: Phase::Idle, ..self },
                SessionStep::Done(Ok(())),
            ),
        }
    }
}

/// The session bridge: owns the engine handle, the frame queue and the
/// connection flag, and decides every lifecycle step.
///
/// The engine itself is driven by the host: each lifecycle method returns the
/// engine call to make, and the outcome of that call comes back as the
/// argument of the next method.
pub struct OpenAutoManager {
    phase: Phase,
    handle: Option<u64>,
    video: Option<FrameQueue>,
    connected: bool,
}

impl View for OpenAutoManager {
    type V = SessionModel;

    closed spec fn view(&self) -> SessionModel {
        SessionModel {
            phase: self.phase,
            handle: self.handle,
            queue: match self.video {
                None => None,
                Some(q) => Some(q@),
            },
            connected: self.connected,
        }
    }
}

impl Default for OpenAutoManager {
    fn default() -> (r: OpenAutoManager)
        ensures
            r@ == (SessionModel { phase: Phase::Idle, handle: None, queue: None, connected: false }),
    {
        OpenAutoManager::new()
    }
}

impl OpenAutoManager {
    pub fn new() -> (r: OpenAutoManager)
        ensures
            r@ == (SessionModel { phase: Phase::Idle, handle: None, queue: None, connected: false }),
            r@.wf(),
    {
        OpenAutoManager { phase: Phase::Idle, handle: None, video: None, connected: false }
    }

    /// Begins a session: success at once when one is running, else a fresh
    /// frame queue is registered and the engine is to be initialised.
    pub fn start(&mut self) -> (r: SessionStep)
        requires
            old(self)@.wf(),
            old(self)@.at_rest(),
        ensures
            (final(self)@, r) == old(self)@.transition(SessionEvent::StartRequested),
            final(self)@.wf(),
    {
        if self.phase == Phase::Running {
            return SessionStep::Done(Ok(()));
        }
        self.video = Some(FrameQueue::new());
        self.handle = None;
        self.phase = Phase::Starting;
        SessionStep::CallInit
    }

    /// Takes the handle that the engine's init returned, zero standing for null.
    pub fn init_returned(&mut self, handle: u64) -> (r: SessionStep)
        requires
            old(self)@.wf(),
            old(self)@.accepts(SessionEvent::InitReturned(handle)),
        ensures
            (final(self)@, r) == old(self)@.transition(SessionEvent::InitReturned(handle)),
            final(self)@.wf(),
    {
        if handle == 0 {
            self.video = None;
            self.phase = Phase::Idle;
            return SessionStep::Done(Err(SessionError::InitError));
        }
        self.handle = Some(handle);
        SessionStep::CallStart(handle)
    }

    /// Takes what the engine's start returned. On failure the handle is to be
    /// released and the producer is gone.
    pub fn start_returned(&mut self, started: bool) -> (r: SessionStep)
        requires
            old(self)@.wf(),
            old(self)@.accepts(SessionEvent::StartReturned(started)),
        ensures
            (final(self)@, r) == old(self)@.transition(SessionEvent::StartReturned(started)),
            final(self)@.wf(),
    {
        if started {
            self.phase = Phase::Running;
            return SessionStep::Done(Ok(()));
        }
        let h = match self.handle {
            Some(h) => h,
            None => 0,
        };
        self.handle = None;
        self.video = None;
        self.phase = Phase::Idle;
        SessionStep::DeinitAndFail(h)
    }

    /// Ends a session: success at once when none is running, else the
    /// producer is deregistered first and the handle is to be stopped and
    /// released.
    pub fn stop(&mut self) -> (r: SessionStep)
        requires
            old(self)@.wf(),
            old(self)@.at_rest(),
        ensures
            (final(self)@, r) == old(self)@.transition(SessionEvent::StopRequested),
            final(self)@.wf(),
    {
        if self.phase != Phase::Running {
            return SessionStep::Done(Ok(()));
        }
        self.video = None;
        let h = match self.handle.take() {
            Some(h) => h,
            None => 0,
        };
        self.phase = Phase::Stopping;
        SessionStep::StopAndDeinit(h)
    }

    /// Records that the engine was stopped and released.
    pub fn stop_completed(&mut self) -> (r: SessionStep)
        requires
            old(self)@.wf(),
            old(self)@.accepts(SessionEvent::StopCompleted),
        ensures
            (final(self)@, r) == old(self)@.transition(SessionEvent::StopCompleted),
            final(self)@.wf(),
    {
        self.phase = Phase::Idle;
        SessionStep::Done(Ok(()))
    }

    pub fn phase(&self) -> (r: Phase)
        ensures
            r == self@.phase,
    {
        self.phase
    }

    pub fn is_running(&self) -> (r: bool)
        ensures
            r == (self@.phase == Phase::Running),
    {
        self.phase == Phase::Running
    }

    /// The last connection state the engine reported; a session that ended
    /// leaves it as it was.
    pub fn is_connected(&self) -> (r: bool)
        ensures
            r == self@.connected,
    {
        self.connected
    }

    /// The video frame callback: copies the native buffer into a frame and
    /// queues it, or drops it where no producer is registered. Never blocks.
    pub fn on_video_frame(&mut self, data: Option<&[u8]>, width: u32, height: u32, buffer_size: u32) -> (r:
        FrameDelivery)
        requires
            old(self)@.wf(),
            data matches Some(b) ==> b@.len() == buffer_size,
        ensures
            final(self)@.wf(),
            frame_from_native(buffer_view(data), width, height, buffer_size) is None ==> r
                == FrameDelivery::Ignored && final(self)@ == old(self)@,
            frame_from_native(buffer_view(data), width, height, buffer_size) matches Some(p) ==> exists|
                f: VideoFrame,
            | f.parts() == p && (final(self)@, r) == old(self)@.deliver(f),
    {
        match VideoFrame::from_native(data, width, height, buffer_size) {
            None => FrameDelivery::Ignored,
            Some(frame) => self.deliver_frame(frame),
        }
    }

    /// Queues a frame where a producer is registered, else drops it.
    pub fn deliver_frame(&mut self, frame: VideoFrame) -> (r: FrameDelivery)
        requires
            old(self)@.wf(),
        ensures
            (final(self)@, r) == old(self)@.deliver(frame),
            final(self)@.wf(),
    {
        match &mut self.video {
            None => FrameDelivery::Dropped,
            Some(q) => {
                q.push(frame);
                FrameDelivery::Queued
            },
        }
    }

    /// The connection status callback.
    pub fn on_connection_status(&mut self, connected: bool)
        requires
            old(self)@.wf(),
        ensures
            final(self)@ == (SessionModel { connected, ..old(self)@ }),
            final(self)@.wf(),
    {
        self.connected = connected;
    }

    /// Takes the next frame without waiting.
    pub fn get_video_frame(&mut self) -> (r: Option<VideoFrame>)
        requires
            old(self)@.wf(),
        ensures
            (final(self)@, r) == old(self)@.take_frame(),
            final(self)@.wf(),
    {
        match &mut self.video {
            None => None,
            Some(q) => q.pop(),
        }
    }

    /// One poll of a wait for the next frame that gives up after
    /// `timeout_ms`, the caller having waited `waited_ms` so far.
    pub fn recv_video_frame_timeout(&mut self, waited_ms: u64, timeout_ms: u64) -> (r: FramePoll)
        requires
            old(self)@.wf(),
        ensures
            (final(self)@, r) == old(self)@.poll(waited_ms, timeout_ms),
            final(self)@.wf(),
    {
        match &mut self.video {
            None => FramePoll::Expired,
            Some(q) => match q.pop() {
                Some(frame) => FramePoll::Ready(frame),
                None => if waited_ms < timeout_ms {
                    FramePoll::Pending
                } else {
                    FramePoll::Expired
                },
            },
        }
    }

    /// The touch event to forward to the engine; none while no session runs,
    /// so that input then is accepted and ignored.
    pub fn send_touch(&self, x: i32, y: i32, action: TouchAction) -> (r: Option<TouchCommand>)
        requires
            self@.wf(),
        ensures
            r == self@.touch_command(x, y, action),
    {
        match (self.phase, self.handle) {
            (Phase::Running, Some(h)) => Some(TouchCommand { handle: h, x, y, action: action.code() }),
            _ => None,
        }
    }

    /// The button event to forward to the engine; none while no session runs.
    pub fn send_button(&self, button: ButtonCode, pressed: bool) -> (r: Option<ButtonCommand>)
        requires
            self@.wf(),
        ensures
            r == self@.button_command(button, pressed),
    {
        match (self.phase, self.handle) {
            (Phase::Running, Some(h)) => Some(ButtonCommand { handle: h, code: button.code(), pressed }),
            _ => None,
        }
    }
}

/// The session after a run of events, with the steps taken on the way.
pub open spec fn run(s: SessionModel, events: Seq<SessionEvent>) -> (SessionModel, Seq<SessionStep>)
    decreases events.len(),
{
    if events.len() == 0 {
        (s, Seq::empty())
    } else {
        let (next, step) = s.transition(events[0]);
        let (last, rest) = run(next, events.drop_first());
        (last, seq![step] + rest)
    }
}

/// Whether each event of the run is one that the session accepts where it
/// comes.
pub open spec fn accepted_run(s: SessionModel, events: Seq<SessionEvent>) -> bool
    decreases events.len(),
{
    events.len() == 0 || (s.accepts(events[0]) && accepted_run(
        s.transition(events[0]).0,
        events.drop_first(),
    ))
}

/// How many of the steps release an engine handle.
pub open spec fn releases(steps: Seq<SessionStep>) -> nat
    decreases steps.len(),
{
    if steps.len() == 0 {
        0
    } else {
        (if steps[0] is DeinitAndFail || steps[0] is StopAndDeinit {
            1nat
        } else {
            0nat
        }) + releases(steps.drop_first())
    }
}

/// The session after each of `frames` came in, with what became of each.
pub open spec fn deliver_all(s: SessionModel, frames: Seq<VideoFrame>) -> (SessionModel, Seq<FrameDelivery>)
    decreases frames.len(),
{
    if frames.len() == 0 {
        (s, Seq::empty())
    } else {
        let (next, d) = s.deliver(frames[0]);
        let (last, rest) = deliver_all(next, frames.drop_first());
        (last, seq![d] + rest)
    }
}

/// Starting a session that runs succeeds and changes nothing.
pub proof fn lemma_start_while_running(s: SessionModel)
    requires
        s.wf(),
        s.phase == Phase::Running,
    ensures
        s.transition(SessionEvent::StartRequested) == (s, SessionStep::Done(Ok(()))),
{
}

/// Two starts in a row, the engine giving handle `h` to the first, both
/// succeed; the engine is initialised once and `h` is the one live handle,
/// with nothing released.
pub proof fn lemma_start_twice(s: SessionModel, h: u64)
    requires
        s.wf(),
        s.phase == Phase::Idle,
        h != 0,
    ensures
        ({
            let events = seq![
                SessionEvent::StartRequested,
                SessionEvent::InitReturned(h),
                SessionEvent::StartReturned(true),
                SessionEvent::StartRequested,
            ];
            let (last, steps) = run(s, events);
            &&& accepted_run(s, events)
            &&& steps == seq![
                SessionStep::CallInit,
                SessionStep::CallStart(h),
                SessionStep::Done(Ok(())),
                SessionStep::Done(Ok(())),
            ]
            &&& releases(steps) == 0
            &&& last.wf()
            &&& last.phase == Phase::Running
            &&& last.handle == Some(h)
        }),
{
    let events = seq![
        SessionEvent::StartRequested,
        SessionEvent::InitReturned(h),
        SessionEvent::StartReturned(true),
        SessionEvent::StartRequested,
    ];
    reveal_with_fuel(run, 5);
    reveal_with_fuel(accepted_run, 5);
    reveal_with_fuel(releases, 5);
    assert(events.drop_first() =~= seq![
        SessionEvent::InitReturned(h),
        SessionEvent::StartReturned(true),
        SessionEvent::StartRequested,
    ]);
    assert(events.drop_first().drop_first() =~= seq![
        SessionEvent::StartReturned(true),
        SessionEvent::StartRequested,
    ]);
    assert(events.drop_first().drop_first().drop_first() =~= seq![SessionEvent::StartRequested]);
    assert(events.drop_first().drop_first().drop_first().drop_first() =~= Seq::<SessionEvent>::empty());
    let steps = run(s, events).1;
    assert(steps =~= seq![
        SessionStep::CallInit,
        SessionStep::CallStart(h),
        SessionStep::Done(Ok(())),
        SessionStep::Done(Ok(())),
    ]);
    assert(steps.drop_first() =~= seq![
        SessionStep::CallStart(h),
        SessionStep::Done(Ok(())),
        SessionStep::Done(Ok(())),
    ]);
    assert(steps.drop_first().drop_first() =~= seq![SessionStep::Done(Ok(())), SessionStep::Done(Ok(()))]);
    assert(steps.drop_first().drop_first().drop_first() =~= seq![SessionStep::Done(Ok(()))]);
    assert(steps.drop_first().drop_first().drop_first().drop_first() =~= Seq::<SessionStep>::empty());
}

/// Stopping an idle session succeeds and changes nothing.
pub proof fn lemma_stop_while_idle(s: SessionModel)
    requires
        s.wf(),
        s.phase == Phase::Idle,
    ensures
        s.transition(SessionEvent::StopRequested) == (s, SessionStep::Done(Ok(()))),
{
}

/// Where the engine's init returns null, starting fails with `InitError`,
/// nothing is released and the session is idle again.
pub proof fn lemma_init_null(s: SessionModel)
    requires
        s.wf(),
        s.phase == Phase::Idle,
    ensures
        ({
            let events = seq![SessionEvent::StartRequested, SessionEvent::InitReturned(0)];
            let (last, steps) = run(s, events);
            &&& accepted_run(s, events)
            &&& steps == seq![SessionStep::CallInit, SessionStep::Done(Err(SessionError::InitError))]
            &&& releases(steps) == 0
            &&& last == s
        }),
{
    let events = seq![SessionEvent::StartRequested, SessionEvent::InitReturned(0)];
    reveal_with_fuel(run, 3);
    reveal_with_fuel(accepted_run, 3);
    reveal_with_fuel(releases, 3);
    assert(events.drop_first() =~= seq![SessionEvent::InitReturned(0)]);
    assert(events.drop_first().drop_first() =~= Seq::<SessionEvent>::empty());
    let steps = run(s, events).1;
    assert(steps =~= seq![SessionStep::CallInit, SessionStep::Done(Err(SessionError::InitError))]);
    assert(steps.drop_first() =~= seq![SessionStep::Done(Err(SessionError::InitError))]);
    assert(steps.drop_first().drop_first() =~= Seq::<SessionStep>::empty());
}

/// Where the engine's start fails on handle `h`, that handle is released
/// exactly once, no producer stays registered and the session is idle again.
pub proof fn lemma_start_failure_releases_once(s: SessionModel, h: u64)
    requires
        s.wf(),
        s.phase == Phase::Idle,
        h != 0,
    ensures
        ({
            let events = seq![
                SessionEvent::StartRequested,
                SessionEvent::InitReturned(h),
                SessionEvent::StartReturned(false),
            ];
            let (last, steps) = run(s, events);
            &&& accepted_run(s, events)
            &&& steps == seq![SessionStep::CallInit, SessionStep::CallStart(h), SessionStep::DeinitAndFail(h)]
            &&& releases(steps) == 1
            &&& last == s
            &&& last.phase == Phase::Idle
            &&& last.handle is None
            &&& last.queue is None
        }),
{
    let events = seq![
        SessionEvent::StartRequested,
        SessionEvent::InitReturned(h),
        SessionEvent::StartReturned(false),
    ];
    reveal_with_fuel(run, 4);
    reveal_with_fuel(accepted_run, 4);
    reveal_with_fuel(releases, 4);
    assert(events.drop_first() =~= seq![SessionEvent::InitReturned(h), SessionEvent::StartReturned(false)]);
    assert(events.drop_first().drop_first() =~= seq![SessionEvent::StartReturned(false)]);
    assert(events.drop_first().drop_first().drop_first() =~= Seq::<SessionEvent>::empty());
    let steps = run(s, events).1;
    assert(steps =~= seq![SessionStep::CallInit, SessionStep::CallStart(h), SessionStep::DeinitAndFail(h)]);
    assert(steps.drop_first() =~= seq![SessionStep::CallStart(h), SessionStep::DeinitAndFail(h)]);
    assert(steps.drop_first().drop_first() =~= seq![SessionStep::DeinitAndFail(h)]);
    assert(steps.drop_first().drop_first().drop_first() =~= Seq::<SessionStep>::empty());
}

/// Once a running session is told to stop, a frame that the engine hands
/// over late, before or after the engine was released, is dropped: it
/// reaches no handle and changes nothing.
pub proof fn lemma_late_frame_after_stop(s: SessionModel, frame: VideoFrame)
    requires
        s.wf(),
        s.phase == Phase::Running,
    ensures
        ({
            let (stopping, step) = s.transition(SessionEvent::StopRequested);
            let idle = stopping.transition(SessionEvent::StopCompleted).0;
            &&& step == SessionStep::StopAndDeinit(s.handle->0)
            &&& stopping.handle is None
            &&& stopping.deliver(frame) == (stopping, FrameDelivery::Dropped)
            &&& idle.handle is None
            &&& idle.deliver(frame) == (idle, FrameDelivery::Dropped)
        }),
{
}

/// Handing over any number of frames never waits and gives each an outcome:
/// with a producer registered all of them are queued, after what was there,
/// in order; without one each is dropped, and reported as such.
pub proof fn lemma_deliver_many(s: SessionModel, frames: Seq<VideoFrame>)
    requires
        s.wf(),
    ensures
        deliver_all(s, frames).1.len() == frames.len(),
        s.queue matches Some(q) ==> deliver_all(s, frames).0 == (SessionModel {
            queue: Some(q + frames),
            ..s
        }) && forall|i: int|
            0 <= i < frames.len() ==> deliver_all(s, frames).1[i] == FrameDelivery::Queued,
        s.queue is None ==> deliver_all(s, frames).0 == s && forall|i: int|
            0 <= i < frames.len() ==> deliver_all(s, frames).1[i] == FrameDelivery::Dropped,
    decreases frames.len(),
{
    if frames.len() > 0 {
        let next = s.deliver(frames[0]).0;
        lemma_deliver_many(next, frames.drop_first());
        if let Some(q) = s.queue {
            assert(q.push(frames[0]) + frames.drop_first() =~= q + frames);
        }
        let ds = deliver_all(s, frames).1;
        assert forall|i: int| 0 < i < frames.len() implies ds[i] == deliver_all(
            next,
            frames.drop_first(),
        ).1[i - 1] by {}
    }
}

/// The connection state that the callback last stored is what is read,
/// whatever lifecycle events follow.
pub proof fn lemma_connection_observed(s: SessionModel, connected: bool, events: Seq<SessionEvent>)
    ensures
        run(SessionModel { connected, ..s }, events).0.connected == connected,
    decreases events.len(),
{
    if events.len() > 0 {
        let next = (SessionModel { connected, ..s }).transition(events[0]).0;
        lemma_connection_observed(next, connected, events.drop_first());
        assert((SessionModel { connected, ..next }) == next);
    }
}

/// A consumer that has waited its whole timeout gets a frame or gives up:
/// it never waits longer.
pub proof fn lemma_poll_wait_bounded(s: SessionModel, waited_ms: u64, timeout_ms: u64)
    requires
        waited_ms >= timeout_ms,
    ensures
        !(s.poll(waited_ms, timeout_ms).1 is Pending),
{
}

} // verus!
