use ledbetter_client::config::{LayoutConfig, PixelLoc};
use ledbetter_client::driver::{
    CtrlAction, DriverAction, DriverEvent, DriverImpl, DriverOp, LoopAction, LoopEvent, LoopPhase,
    Phase, RenderLoop, Status, WorkerExit,
};
use ledbetter_client::error::Error;
use ledbetter_client::program::{clear_leds, PixelVal};

fn layout_config() -> LayoutConfig {
    let ys = (0..150).map(|i| (i as f32) / 60.0).collect::<Vec<_>>();
    let strip = |x: f32| -> Vec<PixelLoc> {
        ys.iter().map(|&y| PixelLoc { x_bits: x.to_bits(), y_bits: y.to_bits() }).collect()
    };
    LayoutConfig { pixel_locations: vec![strip(-10.0), strip(10.0)] }
}

/// A worker as the machine sees it: whether it is alive, whether it takes
/// messages, and how it ends.
struct Worker {
    takes_messages: bool,
    exit: Option<WorkerExit>,
    received: Vec<CtrlAction>,
}

/// Carries an operation out against a scripted worker and keeps a record of
/// the actions.
fn carry_out(
    driver: &mut DriverImpl,
    op: DriverOp,
    worker: &mut Worker,
    actions: &mut Vec<String>,
) -> Result<Status, Error> {
    assert_eq!(driver.phase(), Phase::Idle);
    let mut action = driver.begin(op);
    loop {
        actions.push(format!("{:?}", action));
        let event = match action {
            DriverAction::Done(result) => {
                assert_eq!(driver.phase(), Phase::Idle);
                return result;
            }
            DriverAction::Spawn { .. } => DriverEvent::Spawned,
            DriverAction::Send(message) => {
                if worker.takes_messages {
                    worker.received.push(message);
                    DriverEvent::Sent
                } else {
                    DriverEvent::SendFailed
                }
            }
            DriverAction::Join => {
                DriverEvent::Joined(worker.exit.take().unwrap_or(WorkerExit::Finished))
            }
        };
        assert!(driver.awaits(&event));
        action = driver.resume(event);
    }
}

fn good_worker() -> Worker {
    Worker { takes_messages: true, exit: None, received: Vec::new() }
}

#[test]
fn test_driver_start_with_good_wam() {
    let layout = layout_config();
    let mut driver = DriverImpl::new(1000, layout);
    let mut worker = good_worker();
    let mut actions = Vec::new();
    assert!(matches!(
        carry_out(&mut driver, DriverOp::Start, &mut worker, &mut actions),
        Ok(Status::Playing)
    ));
    assert_eq!(driver.status(), Status::Playing);
    assert_eq!(
        carry_out(&mut driver, DriverOp::Stop, &mut worker, &mut actions).unwrap(),
        Status::NotPlaying
    );
    assert_eq!(driver.status(), Status::NotPlaying);
    assert_eq!(worker.received, vec![CtrlAction::Play, CtrlAction::Exit]);
    assert_eq!(
        actions,
        vec![
            "Spawn { render_period_ms: 1 }",
            "Send(Play)",
            "Done(Ok(Playing))",
            "Send(Exit)",
            "Join",
            "Done(Ok(NotPlaying))",
        ]
    );
}

#[test]
fn test_driver_start_with_bad_wam() {
    let layout = layout_config();
    let mut driver = DriverImpl::new(1000, layout);
    let mut worker = Worker {
        takes_messages: false,
        exit: Some(WorkerExit::Failed(Error::Wasm3(
            "underrun while parsing Wasm binary".to_string(),
        ))),
        received: Vec::new(),
    };
    let mut actions = Vec::new();
    assert!(matches!(
        carry_out(&mut driver, DriverOp::Start, &mut worker, &mut actions),
        Err(Error::Wasm3(msg)) if msg == "underrun while parsing Wasm binary"
    ));
    assert_eq!(driver.status(), Status::NotPlaying);
    assert_eq!(actions[..3], ["Spawn { render_period_ms: 1 }", "Send(Play)", "Join"]);
}

/// Runs a worker's loop against scripted events and keeps a record of the
/// actions.
fn run_worker(render_period: u64, events: Vec<LoopEvent>) -> (RenderLoop, Vec<String>) {
    let (mut worker, first) = RenderLoop::new(render_period);
    let mut actions = vec![format!("{:?}", first)];
    for event in events {
        assert!(worker.accepts(&event), "{:?} does not fit {:?}", event, worker.phase());
        actions.push(format!("{:?}", worker.step(event)));
    }
    (worker, actions)
}

#[test]
fn test_driver_clears_leds_on_stop() {
    let layout = layout_config();
    let (worker, actions) = run_worker(
        1000,
        vec![
            LoopEvent::SinkReady,
            LoopEvent::ProgramReady { now: 0 },
            LoopEvent::Received { action: CtrlAction::Play, now: 0 },
            LoopEvent::TimedOut { now: 0 },
            LoopEvent::Ticked,
            LoopEvent::Written { now: 2 },
            LoopEvent::Received { action: CtrlAction::Exit, now: 10 },
            LoopEvent::Cleared,
        ],
    );
    assert_eq!(worker.phase(), LoopPhase::Exited);
    assert_eq!(
        actions,
        vec![
            "MakeSink",
            "LoadProgram",
            "Wait { timeout: 0 }",
            "Wait { timeout: 0 }",
            "Tick",
            "Write",
            "Wait { timeout: 998 }",
            "Clear",
            "Exit(Ok(()))",
        ]
    );
    assert_eq!(actions.iter().filter(|action| *action == "Write").count(), 1);
    assert_eq!(actions.iter().filter(|action| *action == "Clear").count(), 1);
    assert_eq!(clear_leds(&layout), vec![PixelVal { red: 0, green: 0, blue: 0 }; 300]);
}

#[test]
fn play_and_pause_follow_the_state_machine() {
    let mut driver = DriverImpl::new(25, layout_config());
    let mut worker = good_worker();
    let mut actions = Vec::new();
    assert_eq!(driver.render_period_ms(), 40);
    for op in [DriverOp::Play, DriverOp::Pause, DriverOp::Stop] {
        assert_eq!(
            carry_out(&mut driver, op, &mut worker, &mut actions).unwrap(),
            Status::NotPlaying
        );
    }
    assert!(worker.received.is_empty());
    assert_eq!(
        carry_out(&mut driver, DriverOp::Start, &mut worker, &mut actions).unwrap(),
        Status::Playing
    );
    assert_eq!(
        carry_out(&mut driver, DriverOp::Pause, &mut worker, &mut actions).unwrap(),
        Status::Paused
    );
    assert_eq!(driver.status(), Status::Paused);
    assert_eq!(
        carry_out(&mut driver, DriverOp::Play, &mut worker, &mut actions).unwrap(),
        Status::Playing
    );
    assert_eq!(driver.status(), Status::Playing);
    assert_eq!(worker.received, vec![CtrlAction::Play, CtrlAction::Pause, CtrlAction::Play]);
}

#[test]
fn a_worker_that_is_gone_stops_the_driver() {
    for op in [DriverOp::Play, DriverOp::Pause] {
        let mut driver = DriverImpl::new(1, layout_config());
        let mut worker = good_worker();
        let mut actions = Vec::new();
        carry_out(&mut driver, DriverOp::Start, &mut worker, &mut actions).unwrap();
        worker.takes_messages = false;
        worker.exit = Some(WorkerExit::Failed(Error::Wasm3("trap".to_string())));
        actions.clear();
        assert_eq!(
            carry_out(&mut driver, op, &mut worker, &mut actions).unwrap(),
            Status::NotPlaying
        );
        assert_eq!(driver.status(), Status::NotPlaying);
        assert_eq!(actions[1..], ["Send(Exit)", "Join", "Done(Ok(NotPlaying))"]);
    }
}

#[test]
fn start_while_running_stops_first() {
    let mut driver = DriverImpl::new(1, layout_config());
    let mut worker = good_worker();
    let mut actions = Vec::new();
    carry_out(&mut driver, DriverOp::Start, &mut worker, &mut actions).unwrap();
    actions.clear();
    assert_eq!(
        carry_out(&mut driver, DriverOp::Start, &mut worker, &mut actions).unwrap(),
        Status::Playing
    );
    let restart = actions.clone();

    let mut other = DriverImpl::new(1, layout_config());
    let mut other_worker = good_worker();
    let mut other_actions = Vec::new();
    carry_out(&mut other, DriverOp::Start, &mut other_worker, &mut other_actions).unwrap();
    other_actions.clear();
    carry_out(&mut other, DriverOp::Stop, &mut other_worker, &mut other_actions).unwrap();
    assert_eq!(other_actions.pop().unwrap(), "Done(Ok(NotPlaying))");
    carry_out(&mut other, DriverOp::Start, &mut other_worker, &mut other_actions).unwrap();

    assert_eq!(restart, other_actions);
    assert_eq!(
        restart,
        vec![
            "Send(Exit)",
            "Join",
            "Spawn { render_period_ms: 1000 }",
            "Send(Play)",
            "Done(Ok(Playing))",
        ]
    );
    assert_eq!(driver.status(), other.status());
}

#[test]
fn a_worker_that_ends_during_setup_without_an_error_fails_the_start() {
    let mut driver = DriverImpl::new(1, layout_config());
    let mut worker =
        Worker { takes_messages: false, exit: Some(WorkerExit::Panicked), received: Vec::new() };
    let mut actions = Vec::new();
    assert!(matches!(
        carry_out(&mut driver, DriverOp::Start, &mut worker, &mut actions),
        Err(Error::ThreadPanicked)
    ));
    assert_eq!(driver.status(), Status::NotPlaying);

    let mut worker =
        Worker { takes_messages: false, exit: Some(WorkerExit::Finished), received: Vec::new() };
    assert!(matches!(
        carry_out(&mut driver, DriverOp::Start, &mut worker, &mut actions),
        Err(Error::ThreadPanicked)
    ));
    assert_eq!(driver.status(), Status::NotPlaying);
}

#[test]
fn events_that_do_not_answer_are_told_apart() {
    let mut driver = DriverImpl::new(1, layout_config());
    assert!(!driver.awaits(&DriverEvent::Sent));
    assert!(matches!(
        driver.begin(DriverOp::Start),
        DriverAction::Spawn { render_period_ms: 1000 }
    ));
    assert_eq!(driver.phase(), Phase::Spawning);
    assert!(!driver.awaits(&DriverEvent::Sent));
    assert!(!driver.awaits(&DriverEvent::Joined(WorkerExit::Finished)));
    assert!(driver.awaits(&DriverEvent::Spawned));
    assert!(matches!(driver.resume(DriverEvent::Spawned), DriverAction::Send(CtrlAction::Play)));
    assert!(!driver.awaits(&DriverEvent::Spawned));
    assert!(driver.awaits(&DriverEvent::SendFailed));
}

#[test]
fn deadlines_are_absolute() {
    let (mut worker, _) = RenderLoop::new(40);
    worker.step(LoopEvent::SinkReady);
    worker.step(LoopEvent::ProgramReady { now: 1000 });
    assert_eq!(worker.render_at(), 1000);
    assert!(!worker.is_playing());
    worker.step(LoopEvent::Received { action: CtrlAction::Play, now: 1000 });
    assert!(worker.is_playing());
    let mut now = 1000;
    for k in 1..=10u64 {
        assert!(matches!(worker.step(LoopEvent::TimedOut { now }), LoopAction::Tick));
        assert_eq!(worker.render_at(), 1000 + k * 40);
        assert!(matches!(worker.step(LoopEvent::Ticked), LoopAction::Write));
        // the third frame takes three periods to render
        now += if k == 3 { 120 } else { 7 };
        let wait = worker.step(LoopEvent::Written { now });
        let expected = (1000 + k * 40).saturating_sub(now);
        assert!(matches!(wait, LoopAction::Wait { timeout } if timeout == expected));
        assert_eq!(worker.timeout(now), expected);
        now = now.max(1000 + k * 40);
    }
    assert_eq!(worker.render_at(), 1400);
}

#[test]
fn a_paused_worker_keeps_its_deadlines_and_renders_nothing() {
    let (worker, actions) = run_worker(
        10,
        vec![
            LoopEvent::SinkReady,
            LoopEvent::ProgramReady { now: 5 },
            LoopEvent::TimedOut { now: 5 },
            LoopEvent::Received { action: CtrlAction::Play, now: 6 },
            LoopEvent::Received { action: CtrlAction::Pause, now: 7 },
            LoopEvent::TimedOut { now: 15 },
            LoopEvent::TimedOut { now: 40 },
            LoopEvent::Disconnected,
            LoopEvent::ClearFailed(Error::TerminalOutput("gone".to_string())),
        ],
    );
    assert_eq!(worker.render_at(), 35);
    assert_eq!(
        actions,
        vec![
            "MakeSink",
            "LoadProgram",
            "Wait { timeout: 0 }",
            "Wait { timeout: 10 }",
            "Wait { timeout: 9 }",
            "Wait { timeout: 8 }",
            "Wait { timeout: 10 }",
            "Wait { timeout: 0 }",
            "Clear",
            "Exit(Ok(()))",
        ]
    );
}

#[test]
fn a_failed_tick_ends_the_worker_with_its_error_after_a_clear_and_writes_nothing() {
    let (worker, actions) = run_worker(
        10,
        vec![
            LoopEvent::SinkReady,
            LoopEvent::ProgramReady { now: 0 },
            LoopEvent::Received { action: CtrlAction::Play, now: 0 },
            LoopEvent::TimedOut { now: 0 },
            LoopEvent::TickFailed(Error::Wasm3("trap".to_string())),
            LoopEvent::ClearFailed(Error::TerminalOutput("gone".to_string())),
        ],
    );
    assert_eq!(worker.phase(), LoopPhase::Exited);
    assert_eq!(actions[actions.len() - 3..], ["Tick", "Clear", "Exit(Err(Wasm3(\"trap\")))"]);
    assert!(!actions.contains(&"Write".to_string()));
}

#[test]
fn a_failed_write_ends_the_worker_with_its_error_after_a_clear() {
    let (worker, actions) = run_worker(
        10,
        vec![
            LoopEvent::SinkReady,
            LoopEvent::ProgramReady { now: 0 },
            LoopEvent::Received { action: CtrlAction::Play, now: 0 },
            LoopEvent::TimedOut { now: 0 },
            LoopEvent::Ticked,
            LoopEvent::WriteFailed(Error::TerminalOutput("broken pipe".to_string())),
            LoopEvent::Cleared,
        ],
    );
    assert_eq!(worker.phase(), LoopPhase::Exited);
    assert_eq!(
        actions[actions.len() - 4..],
        ["Tick", "Write", "Clear", "Exit(Err(TerminalOutput(\"broken pipe\")))"]
    );
}

#[test]
fn the_first_frame_is_due_as_soon_as_the_worker_plays() {
    let (_, actions) = run_worker(
        1_000_000_000,
        vec![
            LoopEvent::SinkReady,
            LoopEvent::ProgramReady { now: 5_000 },
            LoopEvent::Received { action: CtrlAction::Play, now: 6_000 },
            LoopEvent::TimedOut { now: 6_100 },
            LoopEvent::Ticked,
            LoopEvent::Written { now: 9_000 },
        ],
    );
    assert_eq!(
        actions[2..],
        [
            "Wait { timeout: 0 }",
            "Wait { timeout: 0 }",
            "Tick",
            "Write",
            "Wait { timeout: 999996000 }",
        ]
    );
}

#[test]
fn a_failed_setup_ends_the_worker_without_a_clear() {
    let (worker, actions) =
        run_worker(10, vec![LoopEvent::SinkFailed(Error::RpiWS2111x("no dma".to_string()))]);
    assert_eq!(worker.phase(), LoopPhase::Exited);
    assert_eq!(actions, vec!["MakeSink", "Exit(Err(RpiWS2111x(\"no dma\")))"]);
    let (worker, actions) = run_worker(
        10,
        vec![
            LoopEvent::SinkReady,
            LoopEvent::ProgramFailed(Error::Wasm3(
                "underrun while parsing Wasm binary".to_string(),
            )),
        ],
    );
    assert_eq!(worker.phase(), LoopPhase::Exited);
    assert_eq!(
        actions,
        vec![
            "MakeSink",
            "LoadProgram",
            "Exit(Err(Wasm3(\"underrun while parsing Wasm binary\")))",
        ]
    );
    assert!(!worker.accepts(&LoopEvent::Cleared));
}

#[test]
fn a_deadline_that_cannot_be_told_is_not_accepted() {
    let (mut worker, _) = RenderLoop::new(10);
    worker.step(LoopEvent::SinkReady);
    worker.step(LoopEvent::ProgramReady { now: u64::MAX - 9 });
    assert!(!worker.accepts(&LoopEvent::TimedOut { now: u64::MAX }));
    assert!(worker.accepts(&LoopEvent::Disconnected));
    let (mut worker, _) = RenderLoop::new(10);
    worker.step(LoopEvent::SinkReady);
    worker.step(LoopEvent::ProgramReady { now: u64::MAX - 10 });
    assert!(worker.accepts(&LoopEvent::TimedOut { now: u64::MAX }));
    worker.step(LoopEvent::TimedOut { now: u64::MAX });
    assert_eq!(worker.render_at(), u64::MAX);
}

#[test]
fn test_status_serialization() {
    assert_eq!(
        serde_json::from_str::<serde_json::Value>(&Status::NotPlaying.to_json()).unwrap(),
        serde_json::Value::String("NotPlaying".into())
    );
    assert_eq!(
        serde_json::from_str::<serde_json::Value>(&Status::Playing.to_json()).unwrap(),
        serde_json::Value::String("Playing".into())
    );
    assert_eq!(
        serde_json::from_str::<serde_json::Value>(&Status::Paused.to_json()).unwrap(),
        serde_json::Value::String("Paused".into())
    );
}

#[test]
fn the_render_period_is_a_second_over_the_frequency() {
    let period =
        |render_freq: usize| DriverImpl::new(render_freq, layout_config()).render_period_ms();
    assert_eq!(period(1), 1000);
    assert_eq!(period(3), 333);
    assert_eq!(period(60), 16);
    assert_eq!(period(1000), 1);
    assert_eq!(period(1001), 0);
    let mut idle = DriverImpl::new(0, layout_config());
    assert_eq!(idle.render_freq(), 0);
    assert!(matches!(idle.begin(DriverOp::Stop), DriverAction::Done(Ok(Status::NotPlaying))));
}

#[test]
fn statuses_have_their_names() {
    assert_eq!(Status::NotPlaying.name(), "NotPlaying");
    assert_eq!(Status::Playing.name(), "Playing");
    assert_eq!(Status::Paused.name(), "Paused");
    assert_eq!(Status::Playing.to_json(), "\"Playing\"");
}
