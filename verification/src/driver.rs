//! The driver: what it reports, what it tells its worker, and the state
//! machines on either side of the control channel.

use crate::config::LayoutConfig;
use crate::error::Error;
use vstd::prelude::*;
use vstd::string::*;

verus! {

/// What a driver reports of itself.
#[derive(Debug, Clone, Copy, PartialEq, Eq, Structural)]
pub enum Status {
    NotPlaying,
    Playing,
    Paused,
}

/// What the driver tells its worker over the control channel.
#[derive(Debug, Clone, Copy, PartialEq, Eq, Structural)]
pub enum CtrlAction {
    Play,
    Pause,
    Exit,
}

impl Status {
    /// The name under which a status goes over the wire.
    pub open spec fn name_spec(self) -> Seq<char> {
        match self {
            Status::NotPlaying => "NotPlaying"@,
            Status::Playing => "Playing"@,
            Status::Paused => "Paused"@,
        }
    }

    /// The JSON text of a status: its name as a string literal.
    pub open spec fn json_spec(self) -> Seq<char> {
        "\""@ + self.name_spec() + "\""@
    }

    /// The name under which the status goes over the wire.
    pub fn name(&self) -> (name: &'static str)
        ensures
            name@ == self.name_spec(),
    {
        match self {
            Status::NotPlaying => "NotPlaying",
            Status::Playing => "Playing",
            Status::Paused => "Paused",
        }
    }

    /// The JSON text of the status.
    pub fn to_json(&self) -> (text: String)
        ensures
            text@ == self.json_spec(),
    {
        let mut text = String::from_str("\"");
        text.append(self.name());
        text.append("\"");
        text
    }
}

/// The operations of a driver, as the controller sees them. Whoever runs
/// programs implements this; the dispatcher is written against it.
///
/// The contract is that of every driver: between operations it shows the
/// status that its last operation reported, and an operation changes that
/// status only as [`permitted`]. Nothing here says that an operation
/// succeeds. An implementation that carries each operation of a
/// [`DriverImpl`] to its end meets the contract, by
/// [`lemma_status_is_last_reported`]; of any other, the contract is taken on
/// trust.
pub trait Driver {
    /// The status that the driver shows.
    spec fn shown(&self) -> Status;

    /// The current status: a read that changes nothing.
    fn status(&self) -> (status: Status)
        ensures
            status == self.shown(),
    ;

    /// Runs the program in `wasm_bin`, stopping whatever ran before. A start
    /// that succeeds reports `Playing`, which the driver then shows; where
    /// the start fails nothing runs any more.
    fn start(&mut self, wasm_bin: Vec<u8>) -> (r: Result<Status, Error>)
        ensures
            r matches Ok(status) ==> status == final(self).shown(),
            r is Ok ==> final(self).shown() == Status::Playing,
            r is Err ==> final(self).shown() == Status::NotPlaying,
            permitted(old(self).shown(), DriverOp::Start, final(self).shown()),
    ;

    /// Stops the program, if one runs. The driver is `NotPlaying` afterwards
    /// and says so.
    fn stop(&mut self) -> (status: Status)
        ensures
            status == final(self).shown(),
            permitted(old(self).shown(), DriverOp::Stop, status),
    ;

    /// Resumes rendering. Where nothing runs, nothing changes; else the
    /// driver is `Playing` or, its worker being gone, `NotPlaying`, and says
    /// which.
    fn play(&mut self) -> (status: Status)
        ensures
            status == final(self).shown(),
            permitted(old(self).shown(), DriverOp::Play, status),
    ;

    /// Suspends rendering. Where nothing runs, nothing changes; else the
    /// driver is `Paused` or, its worker being gone, `NotPlaying`, and says
    /// which.
    fn pause(&mut self) -> (status: Status)
        ensures
            status == final(self).shown(),
            permitted(old(self).shown(), DriverOp::Pause, status),
    ;
}

/// An operation asked of the driver.
#[derive(Debug, Clone, Copy, PartialEq, Eq, Structural)]
pub enum DriverOp {
    Start,
    Stop,
    Play,
    Pause,
}

/// How a worker ended, as joining it tells.
#[derive(Debug)]
pub enum WorkerExit {
    /// It returned without an error.
    Finished,
    /// It returned this error.
    Failed(Error),
    /// It panicked.
    Panicked,
}

/// What the outside did about the driver's last action.
#[derive(Debug)]
pub enum DriverEvent {
    /// A new worker runs.
    Spawned,
    /// The worker took the control action.
    Sent,
    /// The control channel is closed: the worker is gone.
    SendFailed,
    /// The worker has ended and is joined.
    Joined(WorkerExit),
}

/// What the driver wants done next.
#[derive(Debug)]
pub enum DriverAction {
    /// Open a control channel without buffer and spawn a worker on its
    /// receiving end that renders once per period.
    Spawn { render_period_ms: u64 },
    /// Send the control action to the worker and wait until it is taken.
    Send(CtrlAction),
    /// Wait for the worker to end.
    Join,
    /// The operation is over, with this result.
    Done(Result<Status, Error>),
}

/// What is to follow once the old worker is joined.
#[derive(Debug, Clone, Copy, PartialEq, Eq, Structural)]
pub enum Then {
    /// Report that the driver has stopped.
    Report,
    /// Spawn the next worker.
    Start,
}

/// Where the driver stands within an operation.
#[derive(Debug, Clone, Copy, PartialEq, Eq, Structural)]
pub enum Phase {
    /// Between operations.
    Idle,
    /// `Exit` is on its way to the worker.
    Stopping(Then),
    /// The worker is being joined.
    Joining(Then),
    /// A new worker is being spawned.
    Spawning,
    /// The first `Play` is on its way to the new worker.
    Handshaking,
    /// The new worker did not take the first `Play` and is being joined.
    Reaping,
    /// `Play` or `Pause` is on its way to the worker: this is the status that
    /// the driver has once it is taken.
    Signalling(Status),
}

/// The driver's state: the status it shows, and where it stands.
#[derive(Debug, Clone, Copy, PartialEq, Eq, Structural)]
pub struct DriverCore {
    pub status: Status,
    pub phase: Phase,
}

impl DriverCore {
    /// The state of a driver that has not run anything yet.
    pub open spec fn initial() -> DriverCore {
        DriverCore { status: Status::NotPlaying, phase: Phase::Idle }
    }

    /// Whether a worker stands behind the status shown. Between operations a
    /// worker exists exactly when the status is not `NotPlaying`.
    pub open spec fn wf(self) -> bool {
        match self.phase {
            Phase::Idle => true,
            Phase::Stopping(_) | Phase::Joining(_) => self.status != Status::NotPlaying,
            Phase::Spawning | Phase::Handshaking | Phase::Reaping => self.status
                == Status::NotPlaying,
            Phase::Signalling(target) => self.status != Status::NotPlaying && target
                != Status::NotPlaying,
        }
    }

    /// Whether a worker is yet to be spawned in the course of the operation
    /// at hand.
    pub open spec fn respawns(self) -> bool {
        self.phase == Phase::Stopping(Then::Start) || self.phase == Phase::Joining(Then::Start)
    }

    /// Whether `event` answers the action that led to this phase.
    pub open spec fn awaits(self, event: DriverEvent) -> bool {
        match self.phase {
            Phase::Idle => false,
            Phase::Stopping(_) | Phase::Handshaking | Phase::Signalling(_) => event is Sent
                || event is SendFailed,
            Phase::Joining(_) | Phase::Reaping => event is Joined,
            Phase::Spawning => event is Spawned,
        }
    }

    /// The first step of an operation, taken between operations.
    ///
    /// `stop`, `play` and `pause` are over at once where no worker runs.
    /// `start` stops a running worker first.
    pub open spec fn begin(self, op: DriverOp, render_period_ms: u64) -> (
        DriverCore,
        DriverAction,
    ) {
        if self.status == Status::NotPlaying {
            match op {
                DriverOp::Start => (
                    DriverCore { phase: Phase::Spawning, ..self },
                    DriverAction::Spawn { render_period_ms },
                ),
                _ => (self, DriverAction::Done(Ok(self.status))),
            }
        } else {
            match op {
                DriverOp::Start => (
                    DriverCore { phase: Phase::Stopping(Then::Start), ..self },
                    DriverAction::Send(CtrlAction::Exit),
                ),
                DriverOp::Stop => (
                    DriverCore { phase: Phase::Stopping(Then::Report), ..self },
                    DriverAction::Send(CtrlAction::Exit),
                ),
                DriverOp::Play => (
                    DriverCore { phase: Phase::Signalling(Status::Playing), ..self },
                    DriverAction::Send(CtrlAction::Play),
                ),
                DriverOp::Pause => (
                    DriverCore { phase: Phase::Signalling(Status::Paused), ..self },
                    DriverAction::Send(CtrlAction::Pause),
                ),
            }
        }
    }

    /// The next step of an operation, on the event that answers the last
    /// action.
    ///
    /// - A worker that is told to exit is joined, whether or not it took the
    ///   message; how it ended changes nothing. Then the driver is
    ///   `NotPlaying`.
    /// - A new worker is sent `Play` at once. Taking it, the worker shows
    ///   that it is set up: the driver is `Playing`. Not taking it, the
    ///   worker has ended: it is joined, and the start has failed, with the
    ///   worker's error if it left one and with `ThreadPanicked` if not.
    /// - A worker that does not take `Play` or `Pause` is gone: the driver
    ///   stops.
    pub open spec fn resume(self, event: DriverEvent, render_period_ms: u64) -> (
        DriverCore,
        DriverAction,
    ) {
        let idle = DriverCore { status: Status::NotPlaying, phase: Phase::Idle };
        match self.phase {
            Phase::Stopping(then) => (
                DriverCore { phase: Phase::Joining(then), ..self },
                DriverAction::Join,
            ),
            Phase::Joining(Then::Report) => (idle, DriverAction::Done(Ok(Status::NotPlaying))),
            Phase::Joining(Then::Start) => (
                DriverCore { status: Status::NotPlaying, phase: Phase::Spawning },
                DriverAction::Spawn { render_period_ms },
            ),
            Phase::Spawning => (
                DriverCore { phase: Phase::Handshaking, ..self },
                DriverAction::Send(CtrlAction::Play),
            ),
            Phase::Handshaking => match event {
                DriverEvent::Sent => (
                    DriverCore { status: Status::Playing, phase: Phase::Idle },
                    DriverAction::Done(Ok(Status::Playing)),
                ),
                _ => (DriverCore { phase: Phase::Reaping, ..self }, DriverAction::Join),
            },
            Phase::Reaping => match event {
                DriverEvent::Joined(WorkerExit::Failed(error)) => (
                    idle,
                    DriverAction::Done(Err(error)),
                ),
                _ => (idle, DriverAction::Done(Err(Error::ThreadPanicked))),
            },
            Phase::Signalling(target) => match event {
                DriverEvent::Sent => (
                    DriverCore { status: target, phase: Phase::Idle },
                    DriverAction::Done(Ok(target)),
                ),
                _ => (
                    DriverCore { phase: Phase::Stopping(Then::Report), ..self },
                    DriverAction::Send(CtrlAction::Exit),
                ),
            },
            Phase::Idle => (self, DriverAction::Done(Ok(self.status))),
        }
    }
}

/// The time between two frames, in milliseconds, at `render_freq` frames a
/// second.
pub open spec fn period_ms(render_freq: usize) -> u64 {
    (1000int / (render_freq as int)) as u64
}

/// What an operation led to: the state it left the driver in, and the
/// actions it called for, in order.
pub struct Run {
    pub end: DriverCore,
    pub actions: Seq<DriverAction>,
}

impl Run {
    /// The result of the operation, once it is over.
    pub open spec fn result(self) -> Option<Result<Status, Error>> {
        match self.actions.last() {
            DriverAction::Done(result) => Some(result),
            _ => None,
        }
    }
}

/// Carries an operation on from `state`, where `pending` is the action last
/// called for, through the events that answer its actions one by one. It
/// ends where the operation is over, or the events are used up, or one does
/// not answer the action before it.
pub open spec fn feed(
    state: DriverCore,
    pending: DriverAction,
    events: Seq<DriverEvent>,
    render_period_ms: u64,
) -> Run
    decreases events.len(),
{
    if pending is Done || events.len() == 0 || !state.awaits(events[0]) {
        Run { end: state, actions: seq![pending] }
    } else {
        let (next, action) = state.resume(events[0], render_period_ms);
        let rest = feed(next, action, events.drop_first(), render_period_ms);
        Run { end: rest.end, actions: seq![pending] + rest.actions }
    }
}

/// Carries out the operation `op` from `state`, given the events that answer
/// its actions.
pub open spec fn run(
    state: DriverCore,
    op: DriverOp,
    events: Seq<DriverEvent>,
    render_period_ms: u64,
) -> Run {
    let (next, action) = state.begin(op, render_period_ms);
    feed(next, action, events, render_period_ms)
}

/// The changes of status that an operation may bring about: `start` leads to
/// `Playing` or, failing, to `NotPlaying`; `stop` leads to `NotPlaying`;
/// `play` and `pause` change nothing where nothing runs, and else lead to
/// `Playing` or `Paused` or, the worker being gone, to `NotPlaying`.
pub open spec fn permitted(before: Status, op: DriverOp, after: Status) -> bool {
    match op {
        DriverOp::Start => after == Status::Playing || after == Status::NotPlaying,
        DriverOp::Stop => after == Status::NotPlaying,
        DriverOp::Play => if before == Status::NotPlaying {
            after == Status::NotPlaying
        } else {
            after == Status::Playing || after == Status::NotPlaying
        },
        DriverOp::Pause => if before == Status::NotPlaying {
            after == Status::NotPlaying
        } else {
            after == Status::Paused || after == Status::NotPlaying
        },
    }
}

/// What holds of the driver once an operation that began at status `before`
/// is over with `result`.
pub open spec fn settled(
    end: DriverCore,
    result: Result<Status, Error>,
    op: DriverOp,
    before: Status,
) -> bool {
    &&& end.phase is Idle
    &&& result matches Ok(status) ==> end.status == status
    &&& result is Ok && op == DriverOp::Start ==> end.status == Status::Playing
    &&& result is Err ==> end.status == Status::NotPlaying && op == DriverOp::Start
    &&& permitted(before, op, end.status)
}

/// What holds of the driver in the middle of the operation `op` that began
/// at status `before`.
spec fn serves(state: DriverCore, pending: DriverAction, op: DriverOp, before: Status) -> bool {
    match pending {
        DriverAction::Done(result) => settled(state, result, op, before),
        _ => match state.phase {
            Phase::Idle => false,
            Phase::Stopping(Then::Report) | Phase::Joining(Then::Report) => op != DriverOp::Start
                && before != Status::NotPlaying,
            Phase::Stopping(Then::Start) | Phase::Joining(Then::Start) | Phase::Spawning
            | Phase::Handshaking | Phase::Reaping => op == DriverOp::Start,
            Phase::Signalling(target) => before != Status::NotPlaying && (op == DriverOp::Play
                && target == Status::Playing || op == DriverOp::Pause && target
                == Status::Paused),
        },
    }
}

proof fn lemma_feed_settles(
    state: DriverCore,
    pending: DriverAction,
    events: Seq<DriverEvent>,
    render_period_ms: u64,
    op: DriverOp,
    before: Status,
)
    requires
        serves(state, pending, op, before),
    ensures
        feed(state, pending, events, render_period_ms).actions.len() > 0,
        feed(state, pending, events, render_period_ms).result() matches Some(result) ==> settled(
            feed(state, pending, events, render_period_ms).end,
            result,
            op,
            before,
        ),
    decreases events.len(),
{
    if pending is Done || events.len() == 0 || !state.awaits(events[0]) {
        assert(seq![pending].last() == pending);
    } else {
        let (next, action) = state.resume(events[0], render_period_ms);
        lemma_feed_settles(next, action, events.drop_first(), render_period_ms, op, before);
        let rest = feed(next, action, events.drop_first(), render_period_ms);
        assert((seq![pending] + rest.actions).last() == rest.actions.last());
    }
}

/// The status that a driver shows between operations is the one that its
/// last operation reported, and each operation changes it only as the state
/// machine allows. A `start` that succeeds reports `Playing`. Where `start`
/// fails, nothing is reported and the status is `NotPlaying`.
pub proof fn lemma_status_is_last_reported(
    state: DriverCore,
    op: DriverOp,
    events: Seq<DriverEvent>,
    render_period_ms: u64,
)
    requires
        state.phase is Idle,
    ensures
        run(state, op, events, render_period_ms).result() matches Some(result) ==> settled(
            run(state, op, events, render_period_ms).end,
            result,
            op,
            state.status,
        ),
{
    let (next, action) = state.begin(op, render_period_ms);
    lemma_feed_settles(next, action, events, render_period_ms, op, state.status);
}

/// To start while a program runs is to stop and then to start: the old
/// worker is told to exit and is joined before the new one is spawned, and
/// from there on everything goes as it does for a driver that had stopped.
pub proof fn lemma_start_stops_first(
    state: DriverCore,
    events: Seq<DriverEvent>,
    render_period_ms: u64,
)
    requires
        state.phase is Idle,
        state.status != Status::NotPlaying,
        events.len() >= 2,
        events[0] is Sent || events[0] is SendFailed,
        events[1] is Joined,
    ensures
        ({
            let stopped = run(state, DriverOp::Stop, events.take(2), render_period_ms);
            let started = run(state, DriverOp::Start, events, render_period_ms);
            let restarted = run(stopped.end, DriverOp::Start, events.skip(2), render_period_ms);
            &&& stopped.end == DriverCore::initial()
            &&& stopped.actions == seq![
                DriverAction::Send(CtrlAction::Exit),
                DriverAction::Join,
                DriverAction::Done(Ok(Status::NotPlaying)),
            ]
            &&& started.end == restarted.end
            &&& started.actions == stopped.actions.drop_last() + restarted.actions
        }),
{
    reveal_with_fuel(feed, 4);
    let first = events.take(2);
    assert(first.len() == 2 && first[0] == events[0] && first[1] == events[1]);
    assert(first.drop_first().len() == 1 && first.drop_first()[0] == events[1]);
    assert(first.drop_first().drop_first().len() == 0);
    assert(events.drop_first()[0] == events[1]);
    assert(events.drop_first().drop_first() =~= events.skip(2));
    let stopped = run(state, DriverOp::Stop, first, render_period_ms);
    let started = run(state, DriverOp::Start, events, render_period_ms);
    let restarted = run(stopped.end, DriverOp::Start, events.skip(2), render_period_ms);
    assert(stopped.actions =~= seq![
        DriverAction::Send(CtrlAction::Exit),
        DriverAction::Join,
        DriverAction::Done(Ok(Status::NotPlaying)),
    ]);
    assert(started.actions =~= stopped.actions.drop_last() + restarted.actions);
}

/// The driver's side of the control channel: a state machine that is told
/// what is asked of it and what became of its last action, and says what to
/// do next. Whoever holds it spawns, sends and joins on its behalf.
pub struct DriverImpl {
    render_freq: usize,
    layout: LayoutConfig,
    state: DriverCore,
}

impl DriverImpl {
    #[verifier::type_invariant]
    spec fn inv(self) -> bool {
        self.state.wf() && (self.state.respawns() ==> self.render_freq > 0)
    }

    /// The status shown and the phase.
    pub closed spec fn state(&self) -> DriverCore {
        self.state
    }

    /// Frames a second.
    pub closed spec fn render_freq_spec(&self) -> usize {
        self.render_freq
    }

    /// Where the lights are.
    pub closed spec fn layout_spec(&self) -> LayoutConfig {
        self.layout
    }

    /// A driver that runs nothing.
    pub fn new(render_freq: usize, layout: LayoutConfig) -> (driver: Self)
        ensures
            driver.state() == DriverCore::initial(),
            driver.render_freq_spec() == render_freq,
            driver.layout_spec() == layout,
    {
        DriverImpl {
            render_freq,
            layout,
            state: DriverCore { status: Status::NotPlaying, phase: Phase::Idle },
        }
    }

    /// The status, as last reported.
    pub fn status(&self) -> (status: Status)
        ensures
            status == self.state().status,
    {
        self.state.status
    }

    /// Where the driver stands within an operation.
    pub fn phase(&self) -> (phase: Phase)
        ensures
            phase == self.state().phase,
    {
        self.state.phase
    }

    /// Where the lights are.
    pub fn layout(&self) -> (layout: &LayoutConfig)
        ensures
            *layout == self.layout_spec(),
    {
        &self.layout
    }

    /// Frames a second.
    pub fn render_freq(&self) -> (render_freq: usize)
        ensures
            render_freq == self.render_freq_spec(),
    {
        self.render_freq
    }

    /// The time between two frames, in milliseconds: a second divided by the
    /// frequency, rounded down. A frequency of zero has no period.
    pub fn render_period_ms(&self) -> (period: u64)
        requires
            self.render_freq_spec() > 0,
        ensures
            period == period_ms(self.render_freq_spec()),
            period == 1000int / (self.render_freq_spec() as int),
    {
        (1000 / self.render_freq) as u64
    }

    /// Whether `event` answers the driver's last action.
    pub fn awaits(&self, event: &DriverEvent) -> (ok: bool)
        ensures
            ok == self.state().awaits(*event),
    {
        match self.state.phase {
            Phase::Idle => false,
            Phase::Stopping(_) | Phase::Handshaking | Phase::Signalling(_) => match event {
                DriverEvent::Sent => true,
                DriverEvent::SendFailed => true,
                _ => false,
            },
            Phase::Joining(_) | Phase::Reaping => match event {
                DriverEvent::Joined(_) => true,
                _ => false,
            },
            Phase::Spawning => match event {
                DriverEvent::Spawned => true,
                _ => false,
            },
        }
    }

    /// Takes up an operation and says what to do first. To start, the
    /// driver needs a period, so its frequency must not be zero.
    pub fn begin(&mut self, op: DriverOp) -> (action: DriverAction)
        requires
            old(self).state().phase is Idle,
            op == DriverOp::Start ==> old(self).render_freq_spec() > 0,
        ensures
            (final(self).state(), action) == old(self).state().begin(
                op,
                period_ms(old(self).render_freq_spec()),
            ),
            final(self).state().wf(),
            final(self).render_freq_spec() == old(self).render_freq_spec(),
            final(self).layout_spec() == old(self).layout_spec(),
    {
        proof {
            use_type_invariant(&*self);
        }
        if self.state.status == Status::NotPlaying {
            match op {
                DriverOp::Start => {
                    let render_period_ms = self.render_period_ms();
                    self.state.phase = Phase::Spawning;
                    DriverAction::Spawn { render_period_ms }
                },
                _ => DriverAction::Done(Ok(self.state.status)),
            }
        } else {
            match op {
                DriverOp::Start => {
                    self.state.phase = Phase::Stopping(Then::Start);
                    DriverAction::Send(CtrlAction::Exit)
                },
                DriverOp::Stop => {
                    self.state.phase = Phase::Stopping(Then::Report);
                    DriverAction::Send(CtrlAction::Exit)
                },
                DriverOp::Play => {
                    self.state.phase = Phase::Signalling(Status::Playing);
                    DriverAction::Send(CtrlAction::Play)
                },
                DriverOp::Pause => {
                    self.state.phase = Phase::Signalling(Status::Paused);
                    DriverAction::Send(CtrlAction::Pause)
                },
            }
        }
    }

    /// Takes note of what became of the last action and says what to do
    /// next.
    pub fn resume(&mut self, event: DriverEvent) -> (action: DriverAction)
        requires
            old(self).state().awaits(event),
        ensures
            (final(self).state(), action) == old(self).state().resume(
                event,
                period_ms(old(self).render_freq_spec()),
            ),
            final(self).state().wf(),
            final(self).render_freq_spec() == old(self).render_freq_spec(),
            final(self).layout_spec() == old(self).layout_spec(),
    {
        proof {
            use_type_invariant(&*self);
        }
        let idle = DriverCore { status: Status::NotPlaying, phase: Phase::Idle };
        match self.state.phase {
            Phase::Stopping(then) => {
                self.state.phase = Phase::Joining(then);
                DriverAction::Join
            },
            Phase::Joining(Then::Report) => {
                self.state = idle;
                DriverAction::Done(Ok(Status::NotPlaying))
            },
            Phase::Joining(Then::Start) => {
                let render_period_ms = self.render_period_ms();
                self.state = DriverCore { status: Status::NotPlaying, phase: Phase::Spawning };
                DriverAction::Spawn { render_period_ms }
            },
            Phase::Spawning => {
                self.state.phase = Phase::Handshaking;
                DriverAction::Send(CtrlAction::Play)
            },
            Phase::Handshaking => match event {
                DriverEvent::Sent => {
                    self.state = DriverCore { status: Status::Playing, phase: Phase::Idle };
                    DriverAction::Done(Ok(Status::Playing))
                },
                _ => {
                    self.state.phase = Phase::Reaping;
                    DriverAction::Join
                },
            },
            Phase::Reaping => {
                self.state = idle;
                match event {
                    DriverEvent::Joined(WorkerExit::Failed(error)) => DriverAction::Done(
                        Err(error),
                    ),
                    _ => DriverAction::Done(Err(Error::ThreadPanicked)),
                }
            },
            Phase::Signalling(target) => match event {
                DriverEvent::Sent => {
                    self.state = DriverCore { status: target, phase: Phase::Idle };
                    DriverAction::Done(Ok(target))
                },
                _ => {
                    self.state.phase = Phase::Stopping(Then::Report);
                    DriverAction::Send(CtrlAction::Exit)
                },
            },
            Phase::Idle => DriverAction::Done(Ok(self.state.status)),
        }
    }
}

/// Where the worker stands.
#[derive(Debug, Clone, Copy, PartialEq, Eq, Structural)]
pub enum LoopPhase {
    /// The output is being set up.
    SinkWanted,
    /// The program is being loaded into its sandbox.
    ProgramWanted,
    /// The worker waits for a control action or for the next deadline.
    Waiting,
    /// The program computes a frame.
    Ticking,
    /// The frame is being written out.
    Writing,
    /// The lights are being cleared.
    Clearing,
    /// The worker is done.
    Exited,
}

/// What the outside did about the worker's last action. Times are counts of
/// one unit on a clock that never goes back; the render period is given in
/// the same unit.
#[derive(Debug)]
pub enum LoopEvent {
    SinkReady,
    SinkFailed(Error),
    /// The program is loaded, at time `now`.
    ProgramReady { now: u64 },
    ProgramFailed(Error),
    /// A control action arrived before the deadline; it is `now`.
    Received { action: CtrlAction, now: u64 },
    /// The driver's end of the control channel is gone.
    Disconnected,
    /// The deadline has passed; it is `now`.
    TimedOut { now: u64 },
    /// The program has computed its frame.
    Ticked,
    /// The program failed to compute its frame.
    TickFailed(Error),
    /// The frame is out; it is `now`.
    Written { now: u64 },
    /// The output failed to take the frame.
    WriteFailed(Error),
    Cleared,
    ClearFailed(Error),
}

/// What the worker wants done next.
#[derive(Debug)]
pub enum LoopAction {
    /// Set the output up for the layout.
    MakeSink,
    /// Create a sandbox and load the program into it.
    LoadProgram,
    /// Wait on the control channel, `timeout` at most.
    Wait { timeout: u64 },
    /// Let the program compute a frame.
    Tick,
    /// Write the program's frame out.
    Write,
    /// Write a frame that is all black, and pass over a failure to do so.
    Clear,
    /// End the worker with this result.
    Exit(Result<(), Error>),
}

/// The worker's state.
pub struct LoopState {
    pub phase: LoopPhase,
    /// Whether frames are rendered as their deadlines pass.
    pub playing: bool,
    /// The next deadline.
    pub render_at: u64,
    /// The time from one deadline to the next.
    pub render_period: u64,
    /// Why the loop ended, if in failure.
    pub failure: Option<Error>,
}

impl LoopState {
    /// The state of a worker that has just been spawned.
    pub open spec fn initial(render_period: u64) -> LoopState {
        LoopState {
            phase: LoopPhase::SinkWanted,
            playing: false,
            render_at: 0,
            render_period,
            failure: None,
        }
    }

    /// A failure is on record only while the lights are being cleared after
    /// it.
    pub open spec fn wf(self) -> bool {
        self.phase is Clearing || self.failure is None
    }

    /// Whether the worker is in its loop: waiting, or rendering a frame.
    pub open spec fn in_loop(self) -> bool {
        self.phase is Waiting || self.phase is Ticking || self.phase is Writing
    }

    /// Whether `event` answers the action that led to this phase.
    pub open spec fn awaits(self, event: LoopEvent) -> bool {
        match self.phase {
            LoopPhase::SinkWanted => event is SinkReady || event is SinkFailed,
            LoopPhase::ProgramWanted => event is ProgramReady || event is ProgramFailed,
            LoopPhase::Waiting => event is Received || event is Disconnected || event is TimedOut,
            LoopPhase::Ticking => event is Ticked || event is TickFailed,
            LoopPhase::Writing => event is Written || event is WriteFailed,
            LoopPhase::Clearing => event is Cleared || event is ClearFailed,
            LoopPhase::Exited => false,
        }
    }

    /// The time left until the next deadline: none where it has passed.
    pub open spec fn timeout(self, now: u64) -> u64 {
        if self.render_at > now {
            (self.render_at - now) as u64
        } else {
            0
        }
    }

    /// Whether the deadline after the next can still be told.
    pub open spec fn can_advance(self) -> bool {
        self.render_at + self.render_period <= u64::MAX
    }

    /// Whether the worker can take `event` now.
    pub open spec fn accepts(self, event: LoopEvent) -> bool {
        self.awaits(event) && (event is TimedOut ==> self.can_advance())
    }

    /// The worker's reaction to an event.
    ///
    /// - Setting up comes first: the output, then the program. A failure of
    ///   either ends the worker at once, with that error.
    /// - The first deadline is the moment the program is loaded. Nothing is
    ///   rendered until `Play` arrives.
    /// - `Play` and `Pause` switch rendering on and off; `Exit`, or the loss
    ///   of the channel, ends the loop.
    /// - When a deadline passes, the next one is a period later, whatever the
    ///   time is, and a frame is rendered if rendering is on.
    /// - To render is to let the program compute its frame and then to write
    ///   that frame out. If the program fails, nothing is written. A failure
    ///   of either ends the loop with that error.
    /// - However the loop ended, the lights are cleared once, and whether
    ///   that worked does not change the result.
    pub open spec fn step(self, event: LoopEvent) -> (LoopState, LoopAction) {
        let exited = LoopState { phase: LoopPhase::Exited, failure: None, ..self };
        let clearing = LoopState { phase: LoopPhase::Clearing, ..self };
        match self.phase {
            LoopPhase::SinkWanted => match event {
                LoopEvent::SinkFailed(error) => (exited, LoopAction::Exit(Err(error))),
                _ => (
                    LoopState { phase: LoopPhase::ProgramWanted, ..self },
                    LoopAction::LoadProgram,
                ),
            },
            LoopPhase::ProgramWanted => match event {
                LoopEvent::ProgramReady { now } => (
                    LoopState {
                        phase: LoopPhase::Waiting,
                        playing: false,
                        render_at: now,
                        ..self
                    },
                    LoopAction::Wait { timeout: 0 },
                ),
                LoopEvent::ProgramFailed(error) => (exited, LoopAction::Exit(Err(error))),
                _ => (self, LoopAction::LoadProgram),
            },
            LoopPhase::Waiting => match event {
                LoopEvent::Received { action: CtrlAction::Play, now } => (
                    LoopState { playing: true, ..self },
                    LoopAction::Wait { timeout: self.timeout(now) },
                ),
                LoopEvent::Received { action: CtrlAction::Pause, now } => (
                    LoopState { playing: false, ..self },
                    LoopAction::Wait { timeout: self.timeout(now) },
                ),
                LoopEvent::TimedOut { now } => {
                    let next = LoopState {
                        render_at: (self.render_at + self.render_period) as u64,
                        ..self
                    };
                    if self.playing {
                        (LoopState { phase: LoopPhase::Ticking, ..next }, LoopAction::Tick)
                    } else {
                        (next, LoopAction::Wait { timeout: next.timeout(now) })
                    }
                },
                _ => (clearing, LoopAction::Clear),
            },
            LoopPhase::Ticking => match event {
                LoopEvent::TickFailed(error) => (
                    LoopState { phase: LoopPhase::Clearing, failure: Some(error), ..self },
                    LoopAction::Clear,
                ),
                _ => (LoopState { phase: LoopPhase::Writing, ..self }, LoopAction::Write),
            },
            LoopPhase::Writing => match event {
                LoopEvent::Written { now } => (
                    LoopState { phase: LoopPhase::Waiting, ..self },
                    LoopAction::Wait { timeout: self.timeout(now) },
                ),
                LoopEvent::WriteFailed(error) => (
                    LoopState { phase: LoopPhase::Clearing, failure: Some(error), ..self },
                    LoopAction::Clear,
                ),
                _ => (self, LoopAction::Write),
            },
            LoopPhase::Clearing => (
                exited,
                LoopAction::Exit(
                    match self.failure {
                        Some(error) => Err(error),
                        None => Ok(()),
                    },
                ),
            ),
            LoopPhase::Exited => (self, LoopAction::Exit(Ok(()))),
        }
    }

    /// Whether the worker can take these events one after the other.
    pub open spec fn accepts_all(self, events: Seq<LoopEvent>) -> bool
        decreases events.len(),
    {
        events.len() == 0 || (self.accepts(events[0]) && self.step(events[0]).0.accepts_all(
            events.drop_first(),
        ))
    }

    /// The state after these events.
    pub open spec fn after(self, events: Seq<LoopEvent>) -> LoopState
        decreases events.len(),
    {
        if events.len() == 0 {
            self
        } else {
            self.step(events[0]).0.after(events.drop_first())
        }
    }
}

/// The number of deadlines that pass in the course of these events.
pub open spec fn deadlines_passed(events: Seq<LoopEvent>) -> nat
    decreases events.len(),
{
    if events.len() == 0 {
        0
    } else {
        (if events[0] is TimedOut {
            1nat
        } else {
            0nat
        }) + deadlines_passed(events.drop_first())
    }
}

/// Deadlines are absolute: once the program is loaded, the next deadline is
/// the first one plus one period for every deadline that has passed, at
/// whatever times the events came and however long rendering took. A frame
/// that is late makes the wait that follows shorter, not the next deadline
/// later.
pub proof fn lemma_deadlines_are_absolute(state: LoopState, events: Seq<LoopEvent>)
    requires
        state.in_loop(),
        state.accepts_all(events),
    ensures
        state.after(events).render_at == state.render_at + deadlines_passed(events)
            * state.render_period,
        state.after(events).render_period == state.render_period,
    decreases events.len(),
{
    if events.len() == 0 {
        assert(0 * state.render_period == 0);
    } else {
        let next = state.step(events[0]).0;
        let rest = events.drop_first();
        if next.in_loop() {
            lemma_deadlines_are_absolute(next, rest);
        } else {
            lemma_tail_keeps_deadline(next, rest);
        }
        let k = deadlines_passed(rest);
        assert((1 + k) * state.render_period == state.render_period + k * state.render_period)
            by (nonlinear_arith);
    }
}

/// A deadline that has passed leaves at most one period to wait: the worker
/// is never idle for longer than a period between two deadlines.
pub proof fn lemma_wait_is_at_most_a_period(state: LoopState, now: u64)
    requires
        state.phase is Waiting,
        state.can_advance(),
        now >= state.render_at,
    ensures
        state.step(LoopEvent::TimedOut { now }).0.timeout(now) <= state.render_period,
        state.step(LoopEvent::TimedOut { now }).0.render_at == state.render_at
            + state.render_period,
{
}

/// The first frame is due at once: the first deadline is the moment the
/// program is loaded, so a worker that is told to play waits no longer, and
/// when its wait is over it has the program compute a frame and then writes
/// it out.
pub proof fn lemma_first_frame_is_due_at_once(
    render_period: u64,
    ready: u64,
    played: u64,
    due: u64,
)
    requires
        ready <= played,
        ready + render_period <= u64::MAX,
    ensures
        ({
            let set_up = LoopState::initial(render_period).step(LoopEvent::SinkReady).0;
            let loaded = set_up.step(LoopEvent::ProgramReady { now: ready });
            let playing = loaded.0.step(
                LoopEvent::Received { action: CtrlAction::Play, now: played },
            );
            let ticking = playing.0.step(LoopEvent::TimedOut { now: due });
            let writing = ticking.0.step(LoopEvent::Ticked);
            &&& loaded.1 == LoopAction::Wait { timeout: 0 }
            &&& playing.1 == LoopAction::Wait { timeout: 0 }
            &&& playing.0.accepts(LoopEvent::TimedOut { now: due })
            &&& ticking.1 == LoopAction::Tick
            &&& writing.1 == LoopAction::Write
        }),
{
}

/// Once the loop has ended no deadline passes any more.
proof fn lemma_tail_keeps_deadline(state: LoopState, events: Seq<LoopEvent>)
    requires
        state.phase is Clearing || state.phase is Exited,
        state.accepts_all(events),
    ensures
        state.after(events).render_at == state.render_at,
        state.after(events).render_period == state.render_period,
        deadlines_passed(events) == 0,
    decreases events.len(),
{
    if events.len() > 0 {
        lemma_tail_keeps_deadline(state.step(events[0]).0, events.drop_first());
    }
}

/// No step puts a failure on record but one that goes on to clear the
/// lights.
pub proof fn lemma_step_keeps_wf(state: LoopState, event: LoopEvent)
    requires
        state.wf(),
    ensures
        state.step(event).0.wf(),
{
}

/// Whatever happens to a worker from the moment it is spawned, a failure is
/// on record only while the lights are being cleared after it.
pub proof fn lemma_worker_stays_wf(render_period: u64, events: Seq<LoopEvent>)
    ensures
        LoopState::initial(render_period).after(events).wf(),
{
    lemma_after_keeps_wf(LoopState::initial(render_period), events);
}

proof fn lemma_after_keeps_wf(state: LoopState, events: Seq<LoopEvent>)
    requires
        state.wf(),
    ensures
        state.after(events).wf(),
    decreases events.len(),
{
    if events.len() > 0 {
        lemma_step_keeps_wf(state, events[0]);
        lemma_after_keeps_wf(state.step(events[0]).0, events.drop_first());
    }
}

/// A worker that has entered its loop does not end without clearing the
/// lights first, and what it ends with is what ended the loop: the error of
/// the program or of the output, or nothing where it was told to exit or
/// lost its channel. Only a failure to set up ends it without.
pub proof fn lemma_exit_follows_clear(state: LoopState, event: LoopEvent, cleared: LoopEvent)
    requires
        state.wf(),
        state.awaits(event),
        cleared is Cleared || cleared is ClearFailed,
    ensures
        state.step(event).1 is Exit ==> state.phase is Clearing || event is SinkFailed
            || event is ProgramFailed,
        state.step(event).1 is Clear <==> state.step(event).0.phase is Clearing,
        state.in_loop() ==> !(state.step(event).0.phase is Exited),
        state.in_loop() && state.step(event).1 is Clear ==> state.step(event).0.step(cleared).1
            == LoopAction::Exit(
            match event {
                LoopEvent::TickFailed(error) => Err(error),
                LoopEvent::WriteFailed(error) => Err(error),
                _ => Ok(()),
            },
        ),
{
}

/// The worker's side of the control channel: a state machine that is told
/// what became of its last action and says what to do next. Whoever holds it
/// waits, renders and clears on its behalf.
pub struct RenderLoop {
    state: LoopState,
}

impl RenderLoop {
    /// The worker's state.
    pub closed spec fn state(&self) -> LoopState {
        self.state
    }

    /// A worker that has just been spawned, and its first action.
    pub fn new(render_period: u64) -> (started: (Self, LoopAction))
        ensures
            started.0.state() == LoopState::initial(render_period),
            started.1 == LoopAction::MakeSink,
    {
        (
            RenderLoop {
                state: LoopState {
                    phase: LoopPhase::SinkWanted,
                    playing: false,
                    render_at: 0,
                    render_period,
                    failure: None,
                },
            },
            LoopAction::MakeSink,
        )
    }

    /// Where the worker stands.
    pub fn phase(&self) -> (phase: LoopPhase)
        ensures
            phase == self.state().phase,
    {
        self.state.phase
    }

    /// Whether frames are rendered as their deadlines pass.
    pub fn is_playing(&self) -> (playing: bool)
        ensures
            playing == self.state().playing,
    {
        self.state.playing
    }

    /// The next deadline.
    pub fn render_at(&self) -> (at: u64)
        ensures
            at == self.state().render_at,
    {
        self.state.render_at
    }

    /// The time left until the next deadline: none where it has passed.
    pub fn timeout(&self, now: u64) -> (timeout: u64)
        ensures
            timeout == self.state().timeout(now),
    {
        if self.state.render_at > now {
            self.state.render_at - now
        } else {
            0
        }
    }

    /// Whether the worker can take `event` now.
    pub fn accepts(&self, event: &LoopEvent) -> (ok: bool)
        ensures
            ok == self.state().accepts(*event),
    {
        match self.state.phase {
            LoopPhase::SinkWanted => match event {
                LoopEvent::SinkReady => true,
                LoopEvent::SinkFailed(_) => true,
                _ => false,
            },
            LoopPhase::ProgramWanted => match event {
                LoopEvent::ProgramReady { .. } => true,
                LoopEvent::ProgramFailed(_) => true,
                _ => false,
            },
            LoopPhase::Waiting => match event {
                LoopEvent::Received { .. } => true,
                LoopEvent::Disconnected => true,
                LoopEvent::TimedOut { .. } => self.state.render_period <= u64::MAX
                    - self.state.render_at,
                _ => false,
            },
            LoopPhase::Ticking => match event {
                LoopEvent::Ticked => true,
                LoopEvent::TickFailed(_) => true,
                _ => false,
            },
            LoopPhase::Writing => match event {
                LoopEvent::Written { .. } => true,
                LoopEvent::WriteFailed(_) => true,
                _ => false,
            },
            LoopPhase::Clearing => match event {
                LoopEvent::Cleared => true,
                LoopEvent::ClearFailed(_) => true,
                _ => false,
            },
            LoopPhase::Exited => false,
        }
    }

    /// Takes note of what became of the last action and says what to do
    /// next.
    pub fn step(&mut self, event: LoopEvent) -> (action: LoopAction)
        requires
            old(self).state().accepts(event),
        ensures
            (final(self).state(), action) == old(self).state().step(event),
            old(self).state().wf() ==> final(self).state().wf(),
    {
        match self.state.phase {
            LoopPhase::SinkWanted => match event {
                LoopEvent::SinkFailed(error) => {
                    self.state.phase = LoopPhase::Exited;
                    self.state.failure = None;
                    LoopAction::Exit(Err(error))
                },
                _ => {
                    self.state.phase = LoopPhase::ProgramWanted;
                    LoopAction::LoadProgram
                },
            },
            LoopPhase::ProgramWanted => match event {
                LoopEvent::ProgramReady { now } => {
                    self.state.phase = LoopPhase::Waiting;
                    self.state.playing = false;
                    self.state.render_at = now;
                    LoopAction::Wait { timeout: 0 }
                },
                LoopEvent::ProgramFailed(error) => {
                    self.state.phase = LoopPhase::Exited;
                    self.state.failure = None;
                    LoopAction::Exit(Err(error))
                },
                _ => LoopAction::LoadProgram,
            },
            LoopPhase::Waiting => match event {
                LoopEvent::Received { action: CtrlAction::Play, now } => {
                    self.state.playing = true;
                    LoopAction::Wait { timeout: self.timeout(now) }
                },
                LoopEvent::Received { action: CtrlAction::Pause, now } => {
                    self.state.playing = false;
                    LoopAction::Wait { timeout: self.timeout(now) }
                },
                LoopEvent::TimedOut { now } => {
                    self.state.render_at = self.state.render_at + self.state.render_period;
                    if self.state.playing {
                        self.state.phase = LoopPhase::Ticking;
                        LoopAction::Tick
                    } else {
                        LoopAction::Wait { timeout: self.timeout(now) }
                    }
                },
                _ => {
                    self.state.phase = LoopPhase::Clearing;
                    LoopAction::Clear
                },
            },
            LoopPhase::Ticking => match event {
                LoopEvent::TickFailed(error) => {
                    self.state.phase = LoopPhase::Clearing;
                    self.state.failure = Some(error);
                    LoopAction::Clear
                },
                _ => {
                    self.state.phase = LoopPhase::Writing;
                    LoopAction::Write
                },
            },
            LoopPhase::Writing => match event {
                LoopEvent::Written { now } => {
                    self.state.phase = LoopPhase::Waiting;
                    LoopAction::Wait { timeout: self.timeout(now) }
                },
                LoopEvent::WriteFailed(error) => {
                    self.state.phase = LoopPhase::Clearing;
                    self.state.failure = Some(error);
                    LoopAction::Clear
                },
                _ => LoopAction::Write,
            },
            LoopPhase::Clearing => {
                let failure = self.state.failure.take();
                self.state.phase = LoopPhase::Exited;
                match failure {
                    Some(error) => LoopAction::Exit(Err(error)),
                    None => LoopAction::Exit(Ok(())),
                }
            },
            LoopPhase::Exited => LoopAction::Exit(Ok(())),
        }
    }
}

} // verus!
