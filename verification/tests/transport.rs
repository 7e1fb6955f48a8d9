use nmea_simulator::bridge::{
    ForwardAction, ForwardingTask, ReadOutcome, BUFFER_SIZE, READ_WAIT_MS,
};
use nmea_simulator::pty_handler::{CleanupStep, PtyHandler, SetupAction, SetupEvent, SetupStage};
use nmea_simulator::shutdown::ShutdownFlag;
use nmea_simulator::simulator::{
    NmeaSimulator, Phase, PhaseAction, PhaseOutcome, SimulationAction, DEFAULT_INTERVAL_MS,
    EXIT_FAILURE, EXIT_OK,
};
use nmea_simulator::transport::{
    create_pty, create_symlink, ensure_fifo, open_serial, publish_outcome, FifoHandler, FileStep,
    PathKind, RemoveOutcome, TransportError, TransportMode, VirtualEndpoint, FIFO_MODE,
};

fn endpoint(master_fd: i32, replica_path: &str) -> VirtualEndpoint {
    VirtualEndpoint { master_fd, replica_path: replica_path.to_string() }
}

fn describe_setup(action: &SetupAction) -> String {
    match action {
        SetupAction::CreatePty => "create".to_string(),
        SetupAction::Publish { target, link } => format!("publish {} at {}", target, link),
        SetupAction::OpenReplica { path } => format!("open {}", path),
        SetupAction::Ready => "ready".to_string(),
        SetupAction::Abort { error } => format!("abort {:?}", error),
    }
}

fn describe_cleanup(steps: &[CleanupStep]) -> Vec<String> {
    steps
        .iter()
        .map(|step| match step {
            CleanupStep::Join { task } => format!("join {}", task),
            CleanupStep::Remove { path } => format!("remove {}", path),
            CleanupStep::Close { fd } => format!("close {}", fd),
        })
        .collect()
}

fn describe_files(steps: &[FileStep]) -> Vec<String> {
    steps
        .iter()
        .map(|step| match step {
            FileStep::Remove { path } => format!("remove {}", path),
            FileStep::Symlink { target, link } => format!("link {} -> {}", link, target),
            FileStep::MakeFifo { path, mode } => format!("fifo {} {:o}", path, mode),
        })
        .collect()
}

/// Drives a task as its caller would: every read takes up to `BUFFER_SIZE`
/// bytes of what is left of `input`.
fn forward_all(task: &mut ForwardingTask, input: &[u8]) -> (Vec<Vec<u8>>, usize) {
    let mut writes = Vec::new();
    let mut offset = 0;
    let mut cycles = 0;
    while offset < input.len() {
        cycles += 1;
        let capacity = match task.poll(false) {
            ForwardAction::Read { fd, capacity, .. } => {
                assert_eq!(fd, task.source);
                capacity
            }
            _ => panic!("a running task asks for a read"),
        };
        let mut buffer = vec![0u8; capacity];
        let count = capacity.min(input.len() - offset);
        buffer[..count].copy_from_slice(&input[offset..offset + count]);
        offset += count;
        match task.on_read(ReadOutcome::from_raw(count as isize, false, &buffer)) {
            ForwardAction::Write { fd, bytes } => {
                assert_eq!(fd, task.destination);
                writes.push(bytes);
            }
            _ => panic!("data is written"),
        }
    }
    (writes, cycles)
}

#[test]
fn read_results_are_sorted() {
    let buffer = [1u8, 2, 3, 4];
    assert!(matches!(ReadOutcome::from_raw(3, false, &buffer), ReadOutcome::Data(b) if b == vec![1, 2, 3]));
    assert!(matches!(ReadOutcome::from_raw(4, true, &buffer), ReadOutcome::Data(b) if b == vec![1, 2, 3, 4]));
    assert!(matches!(ReadOutcome::from_raw(0, false, &buffer), ReadOutcome::Empty));
    assert!(matches!(ReadOutcome::from_raw(0, true, &buffer), ReadOutcome::Empty));
    assert!(matches!(ReadOutcome::from_raw(-1, true, &buffer), ReadOutcome::Interrupted));
    assert!(matches!(ReadOutcome::from_raw(-1, false, &buffer), ReadOutcome::Failed));
    assert!(matches!(ReadOutcome::from_raw(-2, true, &buffer), ReadOutcome::Failed));
    assert!(matches!(ReadOutcome::from_raw(isize::MIN, false, &buffer), ReadOutcome::Failed));
}

#[test]
fn forwarding_reads_then_writes() {
    let mut task = ForwardingTask::new(5, 9);
    assert_eq!(BUFFER_SIZE, 1024);
    assert_eq!(READ_WAIT_MS, 100);
    assert!(matches!(task.poll(false), ForwardAction::Read { fd: 5, capacity: 1024, wait_ms: 100 }));
    let action = task.on_read(ReadOutcome::Data(vec![b'$', b'G', b'P']));
    assert!(matches!(action, ForwardAction::Write { fd: 9, bytes } if bytes == b"$GP".to_vec()));
    assert!(!task.finished);
}

#[test]
fn forwarding_passes_over_empty_and_interrupted_reads() {
    let mut task = ForwardingTask::new(5, 9);
    assert!(matches!(task.poll(false), ForwardAction::Read { .. }));
    assert!(matches!(task.on_read(ReadOutcome::Empty), ForwardAction::Continue));
    assert!(matches!(task.poll(false), ForwardAction::Read { .. }));
    assert!(matches!(task.on_read(ReadOutcome::Interrupted), ForwardAction::Continue));
    assert!(!task.finished);
    assert!(matches!(task.poll(false), ForwardAction::Read { fd: 5, capacity: 1024, wait_ms: 100 }));
}

#[test]
fn forwarding_ends_on_a_failed_read_and_closes_once() {
    let mut task = ForwardingTask::new(5, 9);
    assert!(matches!(task.poll(false), ForwardAction::Read { .. }));
    assert!(matches!(task.on_read(ReadOutcome::Failed), ForwardAction::Close { fd: 5 }));
    assert!(task.finished);
    assert!(matches!(task.poll(false), ForwardAction::Done));
    assert!(matches!(task.poll(true), ForwardAction::Done));
    assert!(matches!(task.on_read(ReadOutcome::Data(vec![1])), ForwardAction::Done));
    assert!(matches!(task.on_read(ReadOutcome::Failed), ForwardAction::Done));
}

#[test]
fn forwarding_ends_within_one_cycle_of_the_signal() {
    let mut task = ForwardingTask::new(5, 9);
    assert!(matches!(task.poll(false), ForwardAction::Read { .. }));
    assert!(matches!(task.on_read(ReadOutcome::Data(vec![7])), ForwardAction::Write { .. }));
    assert!(matches!(task.poll(true), ForwardAction::Close { fd: 5 }));
    assert!(task.finished);
    assert!(matches!(task.poll(true), ForwardAction::Done));
    assert!(matches!(task.poll(false), ForwardAction::Done));
}

#[test]
fn bridge_round_trip_of_a_small_payload() {
    let mut task = ForwardingTask::new(3, 4);
    let payload = b"$PCMD,reset*00\r\n".to_vec();
    let (writes, cycles) = forward_all(&mut task, &payload);
    assert_eq!(cycles, 1);
    assert_eq!(writes, vec![payload]);
}

#[test]
fn bridge_round_trip_of_a_full_buffer() {
    let mut task = ForwardingTask::new(3, 4);
    let payload: Vec<u8> = (0..BUFFER_SIZE).map(|i| (i % 256) as u8).collect();
    let (writes, cycles) = forward_all(&mut task, &payload);
    assert_eq!(cycles, 1);
    assert_eq!(writes.len(), 1);
    assert_eq!(writes[0], payload);
}

#[test]
fn bridge_round_trip_in_ordered_chunks() {
    let mut task = ForwardingTask::new(3, 4);
    let payload: Vec<u8> = (0..3000usize).map(|i| (i * 7 % 251) as u8).collect();
    let (writes, cycles) = forward_all(&mut task, &payload);
    assert_eq!(cycles, 3);
    let lengths: Vec<usize> = writes.iter().map(|w| w.len()).collect();
    assert_eq!(lengths, vec![1024, 1024, 952]);
    assert_eq!(writes.concat(), payload);
}

#[test]
fn bridge_directions_are_independent() {
    let mut handler = PtyHandler::new();
    for event in [
        SetupEvent::PtyCreated { endpoint: endpoint(5, "/dev/pts/7") },
        SetupEvent::PtyCreated { endpoint: endpoint(6, "/dev/pts/8") },
    ] {
        handler.setup_linked_ptys("/tmp/a", "/tmp/b", event);
    }
    let (mut forth, mut back) = handler.start_forwarding().unwrap();
    assert_eq!((forth.source, forth.destination), (5, 6));
    assert_eq!((back.source, back.destination), (6, 5));
    forth.poll(false);
    assert!(matches!(forth.on_read(ReadOutcome::Failed), ForwardAction::Close { fd: 5 }));
    assert!(matches!(back.poll(false), ForwardAction::Read { fd: 6, capacity: 1024, wait_ms: 100 }));
    assert!(matches!(back.on_read(ReadOutcome::Data(vec![1])), ForwardAction::Write { fd: 5, .. }));
    assert!(!back.finished);
}

#[test]
fn pty_outcomes() {
    let made = create_pty(0, 5, Some("/dev/pts/7".to_string())).unwrap();
    assert_eq!((made.master_fd, made.replica_path.as_str()), (5, "/dev/pts/7"));
    assert!(matches!(
        create_pty(-1, 5, Some("/dev/pts/7".to_string())),
        Err(TransportError::AllocationFailed)
    ));
    assert!(matches!(create_pty(0, 5, None), Err(TransportError::AllocationFailed)));
    assert!(matches!(create_pty(1, 0, None), Err(TransportError::AllocationFailed)));
}

#[test]
fn publish_links_the_path_to_the_replica() {
    let steps = create_symlink("/dev/pts/7", "/tmp/a", false);
    assert_eq!(describe_files(&steps), vec!["link /tmp/a -> /dev/pts/7"]);
    assert_eq!(publish_outcome(true), Ok(()));
    assert_eq!(publish_outcome(false), Err(TransportError::LinkFailed));
}

#[test]
fn publish_replaces_what_stands_at_the_path() {
    let steps = create_symlink("/dev/pts/7", "/tmp/a", true);
    assert_eq!(describe_files(&steps), vec!["remove /tmp/a", "link /tmp/a -> /dev/pts/7"]);
}

#[test]
fn ensure_fifo_makes_a_pipe_for_the_owner_only() {
    assert_eq!(FIFO_MODE, 0o700);
    let plan = ensure_fifo("/tmp/pipe", PathKind::Absent).unwrap();
    assert_eq!(describe_files(&[plan.unwrap()]), vec!["fifo /tmp/pipe 700"]);
}

#[test]
fn ensure_fifo_twice_reuses_the_pipe() {
    let first = ensure_fifo("/tmp/pipe", PathKind::Absent);
    assert!(matches!(first, Ok(Some(FileStep::MakeFifo { .. }))));
    // the pipe stands now; the second call finds it and leaves it alone
    let second = ensure_fifo("/tmp/pipe", PathKind::Fifo);
    assert!(matches!(second, Ok(None)));
}

#[test]
fn ensure_fifo_refuses_another_kind_of_file() {
    assert!(matches!(ensure_fifo("/tmp/pipe", PathKind::Other), Err(TransportError::PathConflict)));
}

#[test]
fn serial_device_must_open() {
    assert_eq!(open_serial(Some(11)), Ok(11));
    assert_eq!(open_serial(None), Err(TransportError::DeviceUnavailable));
}

#[test]
fn removal_of_an_absent_path_is_success() {
    assert!(RemoveOutcome::Removed.is_success());
    assert!(RemoveOutcome::AlreadyAbsent.is_success());
    assert!(!RemoveOutcome::Failed.is_success());
}

#[test]
fn error_kinds() {
    let all = [
        (TransportError::AllocationFailed, true, false),
        (TransportError::LinkFailed, true, false),
        (TransportError::PathConflict, true, false),
        (TransportError::DeviceUnavailable, true, false),
        (TransportError::TransientIo, false, true),
        (TransportError::TerminalIo, false, false),
    ];
    for (error, fatal, transient) in all {
        assert_eq!(error.aborts_startup(), fatal);
        assert_eq!(error.is_transient(), transient);
    }
}

#[test]
fn setup_runs_through_its_steps() {
    let mut handler = PtyHandler::new();
    assert_eq!(handler.stage(), SetupStage::FirstPty);
    let mut said = Vec::new();
    said.push(describe_setup(&handler.setup_linked_ptys("/tmp/a", "/tmp/b", SetupEvent::Begin)));
    for event in [
        SetupEvent::PtyCreated { endpoint: endpoint(5, "/dev/pts/7") },
        SetupEvent::PtyCreated { endpoint: endpoint(6, "/dev/pts/8") },
        SetupEvent::Published,
        SetupEvent::Published,
        SetupEvent::ReplicaOpened { fd: 10 },
        SetupEvent::ReplicaOpened { fd: 11 },
    ] {
        said.push(describe_setup(&handler.setup_linked_ptys("/tmp/a", "/tmp/b", event)));
    }
    assert_eq!(
        said,
        vec![
            "create",
            "create",
            "publish /dev/pts/7 at /tmp/a",
            "publish /dev/pts/8 at /tmp/b",
            "open /tmp/a",
            "open /tmp/b",
            "ready",
        ]
    );
    assert_eq!(handler.stage(), SetupStage::Ready);
    assert_eq!(handler.input_link.as_deref(), Some("/tmp/a"));
    assert_eq!(handler.output_link.as_deref(), Some("/tmp/b"));
    assert_eq!((handler.slave_fd1, handler.slave_fd2), (Some(10), Some(11)));
    assert_eq!(describe_setup(&handler.next_action("/tmp/a", "/tmp/b")), "ready");
}

#[test]
fn setup_passes_over_reports_that_do_not_fit() {
    let mut handler = PtyHandler::new();
    let action = handler.setup_linked_ptys("/tmp/a", "/tmp/b", SetupEvent::Published);
    assert_eq!(describe_setup(&action), "create");
    let action = handler.setup_linked_ptys("/tmp/a", "/tmp/b", SetupEvent::ReplicaOpened { fd: 3 });
    assert_eq!(describe_setup(&action), "create");
    let action = handler.setup_linked_ptys("/tmp/a", "/tmp/b", SetupEvent::OpenFailed);
    assert_eq!(describe_setup(&action), "create");
    assert_eq!(handler.stage(), SetupStage::FirstPty);
    assert!(handler.input_link.is_none() && handler.slave_fd1.is_none());
    assert!(handler.failure.is_none());
}

#[test]
fn setup_fails_without_a_pty() {
    let mut handler = PtyHandler::new();
    let action = handler.setup_linked_ptys("/tmp/a", "/tmp/b", SetupEvent::PtyFailed);
    assert_eq!(describe_setup(&action), "abort AllocationFailed");
    assert_eq!(handler.stage(), SetupStage::Failed);
    let action = handler.setup_linked_ptys(
        "/tmp/a",
        "/tmp/b",
        SetupEvent::PtyCreated { endpoint: endpoint(5, "/dev/pts/7") },
    );
    assert_eq!(describe_setup(&action), "abort AllocationFailed");
    assert!(handler.first.is_none());
    assert!(handler.cleanup().is_empty());
}

#[test]
fn setup_failure_leaves_what_was_made_for_the_cleanup() {
    let mut handler = PtyHandler::new();
    for event in [
        SetupEvent::PtyCreated { endpoint: endpoint(5, "/dev/pts/7") },
        SetupEvent::PtyCreated { endpoint: endpoint(6, "/dev/pts/8") },
        SetupEvent::Published,
    ] {
        handler.setup_linked_ptys("/tmp/a", "/tmp/b", event);
    }
    let action = handler.setup_linked_ptys("/tmp/a", "/tmp/b", SetupEvent::PublishFailed);
    assert_eq!(describe_setup(&action), "abort LinkFailed");
    assert!(handler.start_forwarding().is_some());
    let mut other = PtyHandler::new();
    for event in [
        SetupEvent::PtyCreated { endpoint: endpoint(5, "/dev/pts/7") },
        SetupEvent::PtyCreated { endpoint: endpoint(6, "/dev/pts/8") },
        SetupEvent::Published,
        SetupEvent::PublishFailed,
    ] {
        other.setup_linked_ptys("/tmp/a", "/tmp/b", event);
    }
    assert_eq!(
        describe_cleanup(&other.cleanup()),
        vec!["remove /tmp/a", "close 5", "close 6"]
    );
}

#[test]
fn setup_fails_when_a_replica_does_not_open() {
    let mut handler = PtyHandler::new();
    for event in [
        SetupEvent::PtyCreated { endpoint: endpoint(5, "/dev/pts/7") },
        SetupEvent::PtyCreated { endpoint: endpoint(6, "/dev/pts/8") },
        SetupEvent::Published,
        SetupEvent::Published,
        SetupEvent::ReplicaOpened { fd: 10 },
    ] {
        handler.setup_linked_ptys("/tmp/a", "/tmp/b", event);
    }
    let action = handler.setup_linked_ptys("/tmp/a", "/tmp/b", SetupEvent::OpenFailed);
    assert_eq!(describe_setup(&action), "abort LinkFailed");
    assert_eq!(
        describe_cleanup(&handler.cleanup()),
        vec!["remove /tmp/a", "remove /tmp/b", "close 10", "close 5", "close 6"]
    );
}

#[test]
fn forwarding_needs_both_endpoints_and_starts_once() {
    let mut handler = PtyHandler::new();
    assert!(handler.start_forwarding().is_none());
    handler.setup_linked_ptys(
        "/tmp/a",
        "/tmp/b",
        SetupEvent::PtyCreated { endpoint: endpoint(5, "/dev/pts/7") },
    );
    assert!(handler.start_forwarding().is_none());
    assert!(!handler.forwarding);
    handler.setup_linked_ptys(
        "/tmp/a",
        "/tmp/b",
        SetupEvent::PtyCreated { endpoint: endpoint(6, "/dev/pts/8") },
    );
    assert!(handler.start_forwarding().is_some());
    assert!(handler.forwarding);
    assert!(handler.start_forwarding().is_none());
}

fn ready_handler() -> PtyHandler {
    let mut handler = PtyHandler::new();
    for event in [
        SetupEvent::PtyCreated { endpoint: endpoint(5, "/dev/pts/7") },
        SetupEvent::PtyCreated { endpoint: endpoint(6, "/dev/pts/8") },
        SetupEvent::Published,
        SetupEvent::Published,
        SetupEvent::ReplicaOpened { fd: 10 },
        SetupEvent::ReplicaOpened { fd: 11 },
    ] {
        handler.setup_linked_ptys("/tmp/a", "/tmp/b", event);
    }
    handler
}

#[test]
fn cleanup_undoes_everything_in_order() {
    let mut handler = ready_handler();
    handler.start_forwarding().unwrap();
    assert_eq!(
        describe_cleanup(&handler.cleanup()),
        vec!["join 1", "join 2", "remove /tmp/a", "remove /tmp/b", "close 10", "close 11"]
    );
}

#[test]
fn cleanup_closes_masters_that_no_task_owns() {
    let mut handler = ready_handler();
    assert_eq!(
        describe_cleanup(&handler.cleanup()),
        vec!["remove /tmp/a", "remove /tmp/b", "close 10", "close 11", "close 5", "close 6"]
    );
}

#[test]
fn cleanup_twice_is_harmless() {
    let mut handler = ready_handler();
    handler.start_forwarding().unwrap();
    assert_eq!(handler.cleanup().len(), 6);
    assert!(handler.cleanup().is_empty());
    assert!(handler.cleanup().is_empty());
    assert!(handler.input_link.is_none() && handler.output_link.is_none());
    assert!(handler.first.is_none() && handler.second.is_none());
    assert!(handler.slave_fd1.is_none() && handler.slave_fd2.is_none());
    assert!(!handler.forwarding);
    assert_eq!(handler.stage(), SetupStage::FirstPty);
}

#[test]
fn cleanup_does_not_fail_on_a_link_that_is_gone() {
    let mut handler = ready_handler();
    let steps = handler.cleanup();
    // every removal that the cleanup asks for counts as done when the link
    // was taken away by someone else in the meantime
    let removals = steps.iter().filter(|s| matches!(s, CleanupStep::Remove { .. })).count();
    assert_eq!(removals, 2);
    assert!(RemoveOutcome::AlreadyAbsent.is_success());
    assert!(handler.cleanup().is_empty());
}

#[test]
fn cleanup_of_fresh_books_does_nothing() {
    assert!(PtyHandler::new().cleanup().is_empty());
}

#[test]
fn simulator_defaults() {
    let simulator = NmeaSimulator::new();
    assert_eq!(DEFAULT_INTERVAL_MS, 1000);
    assert_eq!(simulator.mode, TransportMode::LinkedPty);
    assert_eq!(simulator.interval_ms, 1000);
    assert_eq!(simulator.phase, Phase::Provisioning);
    assert!(simulator.error.is_none() && simulator.loop_end.is_none());
    assert_eq!(simulator.current_action(), PhaseAction::Provision);
}

#[test]
fn run_on_linked_ptys_goes_through_all_phases() {
    let mut simulator = NmeaSimulator::new();
    let said: Vec<PhaseAction> = [
        PhaseOutcome::Begin,
        PhaseOutcome::Provisioned,
        PhaseOutcome::BridgeStarted,
        PhaseOutcome::LoopEnded,
        PhaseOutcome::CleanedUp,
    ]
    .into_iter()
    .map(|outcome| simulator.start(outcome))
    .collect();
    assert_eq!(
        said,
        vec![
            PhaseAction::Provision,
            PhaseAction::StartBridge,
            PhaseAction::RunLoop,
            PhaseAction::Cleanup { signal_shutdown: false },
            PhaseAction::Exit { code: EXIT_OK },
        ]
    );
    assert_eq!(EXIT_OK, 0);
}

#[test]
fn run_on_a_pipe_or_a_serial_device_has_no_bridge() {
    for mode in [TransportMode::NamedPipe, TransportMode::RawSerial] {
        let mut simulator = NmeaSimulator::with_transport(mode, 250);
        assert_eq!(simulator.start(PhaseOutcome::Provisioned), PhaseAction::RunLoop);
        assert_eq!(simulator.start(PhaseOutcome::BridgeStarted), PhaseAction::RunLoop);
    }
}

#[test]
fn failed_setup_is_cleaned_up_and_exits_with_failure() {
    let cases = [
        TransportError::AllocationFailed,
        TransportError::LinkFailed,
        TransportError::PathConflict,
        TransportError::DeviceUnavailable,
    ];
    for error in cases {
        let mut simulator = NmeaSimulator::new();
        assert_eq!(
            simulator.start(PhaseOutcome::ProvisionFailed { error }),
            PhaseAction::Cleanup { signal_shutdown: true }
        );
        assert_eq!(simulator.error, Some(error));
        assert_eq!(
            simulator.start(PhaseOutcome::CleanedUp),
            PhaseAction::Exit { code: EXIT_FAILURE }
        );
        assert_eq!(simulator.start(PhaseOutcome::Provisioned), PhaseAction::Exit { code: 1 });
    }
}

#[test]
fn failed_loop_is_cleaned_up_and_exits_with_failure() {
    let mut simulator = NmeaSimulator::with_transport(TransportMode::RawSerial, 1000);
    simulator.start(PhaseOutcome::Provisioned);
    assert_eq!(
        simulator.start(PhaseOutcome::LoopFailed { error: TransportError::TerminalIo }),
        PhaseAction::Cleanup { signal_shutdown: true }
    );
    assert_eq!(simulator.start(PhaseOutcome::CleanedUp), PhaseAction::Exit { code: 1 });
}

#[test]
fn phases_pass_over_reports_that_do_not_fit() {
    let mut simulator = NmeaSimulator::new();
    assert_eq!(simulator.start(PhaseOutcome::CleanedUp), PhaseAction::Provision);
    assert_eq!(simulator.start(PhaseOutcome::LoopEnded), PhaseAction::Provision);
    assert_eq!(simulator.start(PhaseOutcome::BridgeStarted), PhaseAction::Provision);
    assert_eq!(simulator.phase, Phase::Provisioning);
}

#[test]
fn loop_writes_a_report_and_pauses() {
    let mut simulator = NmeaSimulator::with_transport(TransportMode::LinkedPty, 250);
    match simulator.write_nmea_messages(false) {
        SimulationAction::Emit { sentences } => {
            assert!(sentences.starts_with("$GPRMC,"));
            assert!(sentences.ends_with("\r\n"));
        }
        _ => panic!("a report is due"),
    }
    assert!(matches!(simulator.on_write(true), SimulationAction::Sleep { pause_ms: 250 }));
    assert!(matches!(simulator.write_nmea_messages(false), SimulationAction::Emit { .. }));
    assert!(simulator.loop_end.is_none());
}

#[test]
fn loop_stops_on_the_signal_without_another_write() {
    let mut simulator = NmeaSimulator::new();
    assert!(matches!(simulator.write_nmea_messages(false), SimulationAction::Emit { .. }));
    assert!(matches!(simulator.on_write(true), SimulationAction::Sleep { pause_ms: 1000 }));
    assert!(matches!(simulator.write_nmea_messages(true), SimulationAction::Stop));
    assert_eq!(simulator.loop_end, Some(Ok(())));
    assert!(matches!(simulator.write_nmea_messages(false), SimulationAction::Stop));
    assert!(matches!(simulator.on_write(true), SimulationAction::Stop));
    assert!(matches!(simulator.on_open(true), SimulationAction::Stop));
}

#[test]
fn loop_ends_on_a_failed_write_to_a_pty_or_a_serial_device() {
    for mode in [TransportMode::LinkedPty, TransportMode::RawSerial] {
        let mut simulator = NmeaSimulator::with_transport(mode, 1000);
        assert!(matches!(simulator.write_nmea_messages(false), SimulationAction::Emit { .. }));
        assert!(matches!(
            simulator.on_write(false),
            SimulationAction::Fail { error: TransportError::TerminalIo }
        ));
        assert_eq!(simulator.loop_end, Some(Err(TransportError::TerminalIo)));
        assert!(matches!(
            simulator.write_nmea_messages(false),
            SimulationAction::Fail { error: TransportError::TerminalIo }
        ));
    }
}

#[test]
fn loop_opens_a_pipe_again_after_a_failed_write() {
    let mut simulator = NmeaSimulator::with_transport(TransportMode::NamedPipe, 1000);
    assert!(matches!(simulator.write_nmea_messages(false), SimulationAction::Emit { .. }));
    assert!(matches!(simulator.on_write(false), SimulationAction::Reopen));
    assert!(matches!(simulator.on_open(true), SimulationAction::Sleep { pause_ms: 0 }));
    assert!(matches!(simulator.write_nmea_messages(false), SimulationAction::Emit { .. }));
    assert!(matches!(simulator.on_write(false), SimulationAction::Reopen));
    assert!(matches!(
        simulator.on_open(false),
        SimulationAction::Fail { error: TransportError::DeviceUnavailable }
    ));
    assert!(matches!(simulator.write_nmea_messages(false), SimulationAction::Fail { .. }));
}

#[test]
fn read_failures_by_kind() {
    assert_eq!(ReadOutcome::Data(vec![1]).failure(), None);
    assert_eq!(ReadOutcome::Empty.failure(), None);
    assert_eq!(ReadOutcome::Interrupted.failure(), Some(TransportError::TransientIo));
    assert_eq!(ReadOutcome::Failed.failure(), Some(TransportError::TerminalIo));
}

#[test]
fn shutdown_flag_starts_clear() {
    let flag = ShutdownFlag::new();
    assert!(!flag.is_signaled());
    assert!(!flag.is_signaled());
}

#[test]
fn shutdown_flag_is_set_once_and_for_all() {
    let mut flag = ShutdownFlag::new();
    flag.signal();
    assert!(flag.is_signaled());
    flag.signal();
    flag.signal();
    assert!(flag.is_signaled());
}

#[test]
fn shutdown_flag_stops_the_loop_and_the_tasks() {
    let mut flag = ShutdownFlag::new();
    let mut simulator = NmeaSimulator::new();
    let mut task = ForwardingTask::new(5, 9);
    assert!(matches!(simulator.write_nmea_messages(flag.is_signaled()), SimulationAction::Emit { .. }));
    assert!(matches!(task.poll(flag.is_signaled()), ForwardAction::Read { .. }));
    flag.signal();
    // the report that was handed out before the signal is still written
    assert!(matches!(simulator.on_write(true), SimulationAction::Sleep { .. }));
    assert!(matches!(simulator.write_nmea_messages(flag.is_signaled()), SimulationAction::Stop));
    assert!(matches!(task.on_read(ReadOutcome::Empty), ForwardAction::Continue));
    assert!(matches!(task.poll(flag.is_signaled()), ForwardAction::Close { fd: 5 }));
}

#[test]
fn pipe_that_this_run_made_is_removed_once() {
    let mut pipe = FifoHandler::new("/tmp/pipe");
    assert!(!pipe.made);
    let step = pipe.plan(PathKind::Absent).unwrap().unwrap();
    assert_eq!(describe_files(&[step]), vec!["fifo /tmp/pipe 700"]);
    assert_eq!(pipe.on_made(true), Ok(()));
    assert!(pipe.made);
    let removal = pipe.cleanup().unwrap();
    assert_eq!(describe_files(&[removal]), vec!["remove /tmp/pipe"]);
    assert!(pipe.cleanup().is_none());
}

#[test]
fn pipe_that_was_found_is_left_alone() {
    let mut pipe = FifoHandler::new("/tmp/pipe");
    assert!(matches!(pipe.plan(PathKind::Fifo), Ok(None)));
    assert!(pipe.cleanup().is_none());
    assert!(matches!(pipe.plan(PathKind::Other), Err(TransportError::PathConflict)));
    assert!(pipe.cleanup().is_none());
}

#[test]
fn pipe_that_could_not_be_made_is_a_failure_and_is_not_removed() {
    let mut pipe = FifoHandler::new("/tmp/pipe");
    assert!(matches!(pipe.plan(PathKind::Absent), Ok(Some(FileStep::MakeFifo { .. }))));
    assert_eq!(pipe.on_made(false), Err(TransportError::LinkFailed));
    assert!(!pipe.made);
    assert!(pipe.cleanup().is_none());
}
