//! The simulator as a whole: the order of its phases from provisioning to
//! exit, and the loop that writes one report per period until shutdown. The
//! simulator decides; its caller does the work and reports each outcome.

use crate::generator::{is_report, NmeaGenerator};
use crate::transport::{TransportError, TransportMode};
use vstd::prelude::*;

verus! {

/// The period of the loop where the caller names none: one second.
pub const DEFAULT_INTERVAL_MS: u64 = 1000;

/// The exit code of a graceful shutdown.
pub const EXIT_OK: i32 = 0;

/// The exit code after a usage error or a failure.
pub const EXIT_FAILURE: i32 = 1;

/// The phases of a run, in order.
#[derive(Debug, Clone, Copy, PartialEq, Eq, Structural)]
pub enum Phase {
    Provisioning,
    Bridging,
    Simulating,
    CleaningUp,
    Exited,
}

/// What the caller reports at the end of a phase.
#[derive(Debug, Clone, Copy, PartialEq, Eq, Structural)]
pub enum PhaseOutcome {
    /// Nothing yet: the caller asks what to do.
    Begin,
    /// The transport stands.
    Provisioned,
    /// The transport could not be set up.
    ProvisionFailed { error: TransportError },
    /// The forwarding tasks run.
    BridgeStarted,
    /// The loop has stopped after a shutdown signal.
    LoopEnded,
    /// The loop has stopped on a failure.
    LoopFailed { error: TransportError },
    /// The cleanup is done. It has no way to fail.
    CleanedUp,
}

/// What the caller does next.
#[derive(Debug, Clone, Copy, PartialEq, Eq, Structural)]
pub enum PhaseAction {
    /// Set up the transport.
    Provision,
    /// Start the two forwarding tasks.
    StartBridge,
    /// Run the loop.
    RunLoop,
    /// Undo what was set up. With `signal_shutdown` the shutdown flag is set
    /// first, so that whatever runs already comes to an end and can be
    /// waited for. This is so after every failure.
    Cleanup { signal_shutdown: bool },
    /// Leave with `code`.
    Exit { code: i32 },
}

/// What the caller of the loop does next.
pub enum SimulationAction {
    /// Write `sentences` to the output in one call and flush it; then report
    /// with `on_write`.
    Emit { sentences: String },
    /// Sleep for `pause_ms` milliseconds; then poll.
    Sleep { pause_ms: u64 },
    /// Open the named pipe again, which waits for a reader; then report with
    /// `on_open`.
    Reopen,
    /// The loop is over after a shutdown signal.
    Stop,
    /// The loop is over on a failure.
    Fail { error: TransportError },
}

/// A loop action without the text of the report.
#[derive(PartialEq, Eq, Structural)]
pub enum SimulationActionKind {
    Emit,
    Sleep { pause_ms: u64 },
    Reopen,
    Stop,
    Fail { error: TransportError },
}

/// The simulator.
pub struct NmeaSimulator {
    /// The source of the reports.
    pub generator: NmeaGenerator,
    /// The transport in use.
    pub mode: TransportMode,
    /// The period of the loop in milliseconds.
    pub interval_ms: u64,
    /// The phase that the run is in.
    pub phase: Phase,
    /// The failure of the run, if there was one.
    pub error: Option<TransportError>,
    /// Why the loop is over, if it is: `Ok` after a shutdown signal.
    pub loop_end: Option<Result<(), TransportError>>,
}

/// The state of a simulator as plain values.
pub struct SimulatorView {
    pub mode: TransportMode,
    pub interval_ms: u64,
    pub phase: Phase,
    pub error: Option<TransportError>,
    pub loop_end: Option<Result<(), TransportError>>,
}

impl View for NmeaSimulator {
    type V = SimulatorView;

    open spec fn view(&self) -> SimulatorView {
        SimulatorView {
            mode: self.mode,
            interval_ms: self.interval_ms,
            phase: self.phase,
            error: self.error,
            loop_end: self.loop_end,
        }
    }
}

impl View for SimulationAction {
    type V = SimulationActionKind;

    open spec fn view(&self) -> SimulationActionKind {
        match *self {
            SimulationAction::Emit { sentences } => SimulationActionKind::Emit,
            SimulationAction::Sleep { pause_ms } => SimulationActionKind::Sleep { pause_ms },
            SimulationAction::Reopen => SimulationActionKind::Reopen,
            SimulationAction::Stop => SimulationActionKind::Stop,
            SimulationAction::Fail { error } => SimulationActionKind::Fail { error },
        }
    }
}

/// The state after the end of a phase. A report that does not belong to the
/// phase changes nothing.
pub open spec fn after_phase(state: SimulatorView, outcome: PhaseOutcome) -> SimulatorView {
    match (state.phase, outcome) {
        (Phase::Provisioning, PhaseOutcome::Provisioned) => SimulatorView {
            phase: if state.mode == TransportMode::LinkedPty {
                Phase::Bridging
            } else {
                Phase::Simulating
            },
            ..state
        },
        (Phase::Provisioning, PhaseOutcome::ProvisionFailed { error }) => SimulatorView {
            phase: Phase::CleaningUp,
            error: Some(error),
            ..state
        },
        (Phase::Bridging, PhaseOutcome::BridgeStarted) => SimulatorView {
            phase: Phase::Simulating,
            ..state
        },
        (Phase::Simulating, PhaseOutcome::LoopEnded) => SimulatorView {
            phase: Phase::CleaningUp,
            ..state
        },
        (Phase::Simulating, PhaseOutcome::LoopFailed { error }) => SimulatorView {
            phase: Phase::CleaningUp,
            error: Some(error),
            ..state
        },
        (Phase::CleaningUp, PhaseOutcome::CleanedUp) => SimulatorView {
            phase: Phase::Exited,
            ..state
        },
        _ => state,
    }
}

/// What is to be done in the phase of the state.
pub open spec fn phase_action(state: SimulatorView) -> PhaseAction {
    match state.phase {
        Phase::Provisioning => PhaseAction::Provision,
        Phase::Bridging => PhaseAction::StartBridge,
        Phase::Simulating => PhaseAction::RunLoop,
        Phase::CleaningUp => PhaseAction::Cleanup { signal_shutdown: state.error is Some },
        Phase::Exited => PhaseAction::Exit {
            code: if state.error is Some {
                EXIT_FAILURE
            } else {
                EXIT_OK
            },
        },
    }
}

/// The answer of the loop to a look at the shutdown flag: why the loop is
/// over afterwards, if it is, and what its caller does.
pub open spec fn loop_poll(state: SimulatorView, signaled: bool) -> (
    Option<Result<(), TransportError>>,
    SimulationActionKind,
) {
    match state.loop_end {
        Some(Ok(())) => (state.loop_end, SimulationActionKind::Stop),
        Some(Err(error)) => (state.loop_end, SimulationActionKind::Fail { error }),
        None => if signaled {
            (Some(Ok(())), SimulationActionKind::Stop)
        } else {
            (None, SimulationActionKind::Emit)
        },
    }
}

/// The answer of the loop to the outcome of a write: on success the pause;
/// on failure a named pipe is opened again, and any other output ends the
/// loop.
pub open spec fn loop_written(state: SimulatorView, succeeded: bool) -> (
    Option<Result<(), TransportError>>,
    SimulationActionKind,
) {
    match state.loop_end {
        Some(Ok(())) => (state.loop_end, SimulationActionKind::Stop),
        Some(Err(error)) => (state.loop_end, SimulationActionKind::Fail { error }),
        None => if succeeded {
            (None, SimulationActionKind::Sleep { pause_ms: state.interval_ms })
        } else if state.mode == TransportMode::NamedPipe {
            (None, SimulationActionKind::Reopen)
        } else {
            (
                Some(Err(TransportError::TerminalIo)),
                SimulationActionKind::Fail { error: TransportError::TerminalIo },
            )
        },
    }
}

/// The answer of the loop to an attempt to open the output: with the output
/// open the loop goes on at once; without it the loop is over.
pub open spec fn loop_opened(state: SimulatorView, succeeded: bool) -> (
    Option<Result<(), TransportError>>,
    SimulationActionKind,
) {
    match state.loop_end {
        Some(Ok(())) => (state.loop_end, SimulationActionKind::Stop),
        Some(Err(error)) => (state.loop_end, SimulationActionKind::Fail { error }),
        None => if succeeded {
            (None, SimulationActionKind::Sleep { pause_ms: 0 })
        } else {
            (
                Some(Err(TransportError::DeviceUnavailable)),
                SimulationActionKind::Fail { error: TransportError::DeviceUnavailable },
            )
        },
    }
}

impl NmeaSimulator {
    /// A simulator on linked pseudo-terminals with a period of one second.
    pub fn new() -> (simulator: NmeaSimulator)
        ensures
            simulator@ == (SimulatorView {
                mode: TransportMode::LinkedPty,
                interval_ms: DEFAULT_INTERVAL_MS,
                phase: Phase::Provisioning,
                error: None,
                loop_end: None,
            }),
    {
        NmeaSimulator::with_transport(TransportMode::LinkedPty, DEFAULT_INTERVAL_MS)
    }

    /// A simulator on the given transport with the given period.
    pub fn with_transport(mode: TransportMode, interval_ms: u64) -> (simulator: NmeaSimulator)
        ensures
            simulator@ == (SimulatorView {
                mode,
                interval_ms,
                phase: Phase::Provisioning,
                error: None,
                loop_end: None,
            }),
    {
        NmeaSimulator {
            generator: NmeaGenerator::new(),
            mode,
            interval_ms,
            phase: Phase::Provisioning,
            error: None,
            loop_end: None,
        }
    }

    /// The action of the phase that the run is in.
    pub fn current_action(&self) -> (action: PhaseAction)
        ensures
            action == phase_action(self@),
    {
        match self.phase {
            Phase::Provisioning => PhaseAction::Provision,
            Phase::Bridging => PhaseAction::StartBridge,
            Phase::Simulating => PhaseAction::RunLoop,
            Phase::CleaningUp => PhaseAction::Cleanup { signal_shutdown: self.error.is_some() },
            Phase::Exited => PhaseAction::Exit {
                code: if self.error.is_some() {
                    EXIT_FAILURE
                } else {
                    EXIT_OK
                },
            },
        }
    }

    /// Takes the run through its phases: the transport is set up, on linked
    /// pseudo-terminals the bridge is started, the loop runs until shutdown,
    /// everything is cleaned up, and the program leaves. A failure of the
    /// setup or of the loop leads to the cleanup as well, and then to a
    /// failing exit.
    pub fn start(&mut self, outcome: PhaseOutcome) -> (action: PhaseAction)
        ensures
            final(self)@ == after_phase(old(self)@, outcome),
            action == phase_action(final(self)@),
    {
        match outcome {
            PhaseOutcome::Begin => {},
            PhaseOutcome::Provisioned => {
                if self.phase == Phase::Provisioning {
                    if self.mode == TransportMode::LinkedPty {
                        self.phase = Phase::Bridging;
                    } else {
                        self.phase = Phase::Simulating;
                    }
                }
            },
            PhaseOutcome::ProvisionFailed { error } => {
                if self.phase == Phase::Provisioning {
                    self.phase = Phase::CleaningUp;
                    self.error = Some(error);
                }
            },
            PhaseOutcome::BridgeStarted => {
                if self.phase == Phase::Bridging {
                    self.phase = Phase::Simulating;
                }
            },
            PhaseOutcome::LoopEnded => {
                if self.phase == Phase::Simulating {
                    self.phase = Phase::CleaningUp;
                }
            },
            PhaseOutcome::LoopFailed { error } => {
                if self.phase == Phase::Simulating {
                    self.phase = Phase::CleaningUp;
                    self.error = Some(error);
                }
            },
            PhaseOutcome::CleanedUp => {
                if self.phase == Phase::CleaningUp {
                    self.phase = Phase::Exited;
                }
            },
        }
        self.current_action()
    }

    /// The action of a loop that is over.
    fn ended_action(end: Result<(), TransportError>) -> (action: SimulationAction)
        ensures
            action@ == match end {
                Ok(()) => SimulationActionKind::Stop,
                Err(error) => SimulationActionKind::Fail { error },
            },
    {
        match end {
            Ok(()) => SimulationAction::Stop,
            Err(error) => SimulationAction::Fail { error },
        }
    }

    /// One turn of the loop, called before each report with the state of the
    /// shutdown flag. With the flag signaled the loop is over and nothing
    /// more is written. Otherwise a new report is to be written.
    pub fn write_nmea_messages(&mut self, signaled: bool) -> (action: SimulationAction)
        ensures
            action@ == loop_poll(old(self)@, signaled).1,
            final(self)@ == (SimulatorView {
                loop_end: loop_poll(old(self)@, signaled).0,
                ..old(self)@
            }),
            action matches SimulationAction::Emit { sentences } ==> is_report(sentences@),
    {
        match self.loop_end {
            Some(end) => NmeaSimulator::ended_action(end),
            None => {
                if signaled {
                    self.loop_end = Some(Ok(()));
                    SimulationAction::Stop
                } else {
                    SimulationAction::Emit { sentences: self.generator.generate_sentences() }
                }
            },
        }
    }

    /// Called with the outcome of the write and flush of a report.
    pub fn on_write(&mut self, succeeded: bool) -> (action: SimulationAction)
        ensures
            action@ == loop_written(old(self)@, succeeded).1,
            final(self)@ == (SimulatorView {
                loop_end: loop_written(old(self)@, succeeded).0,
                ..old(self)@
            }),
    {
        match self.loop_end {
            Some(end) => NmeaSimulator::ended_action(end),
            None => {
                if succeeded {
                    SimulationAction::Sleep { pause_ms: self.interval_ms }
                } else if self.mode == TransportMode::NamedPipe {
                    SimulationAction::Reopen
                } else {
                    self.loop_end = Some(Err(TransportError::TerminalIo));
                    SimulationAction::Fail { error: TransportError::TerminalIo }
                }
            },
        }
    }

    /// Called with the outcome of an attempt to open the output, at the
    /// start of the loop and after `Reopen`.
    pub fn on_open(&mut self, succeeded: bool) -> (action: SimulationAction)
        ensures
            action@ == loop_opened(old(self)@, succeeded).1,
            final(self)@ == (SimulatorView {
                loop_end: loop_opened(old(self)@, succeeded).0,
                ..old(self)@
            }),
    {
        match self.loop_end {
            Some(end) => NmeaSimulator::ended_action(end),
            None => {
                if succeeded {
                    SimulationAction::Sleep { pause_ms: 0 }
                } else {
                    self.loop_end = Some(Err(TransportError::DeviceUnavailable));
                    SimulationAction::Fail { error: TransportError::DeviceUnavailable }
                }
            },
        }
    }
}

/// One turn of the loop as its caller lives it: the state of the shutdown
/// flag at the poll, whether the write of the report succeeds, and whether
/// the output can be opened again should the loop ask for that.
pub struct Turn {
    pub signaled: bool,
    pub write_ok: bool,
    pub open_ok: bool,
}

/// The state with another end of the loop.
pub open spec fn with_loop_end(
    state: SimulatorView,
    loop_end: Option<Result<(), TransportError>>,
) -> SimulatorView {
    SimulatorView { loop_end, ..state }
}

/// The loop run through `turns`: why it is over at the end, if it is, and
/// how many reports it has handed out to be written.
pub open spec fn loop_run(state: SimulatorView, turns: Seq<Turn>) -> (
    Option<Result<(), TransportError>>,
    nat,
)
    decreases turns.len(),
{
    if turns.len() == 0 {
        (state.loop_end, 0)
    } else {
        let before = loop_run(state, turns.drop_last());
        let turn = turns.last();
        let polled = loop_poll(with_loop_end(state, before.0), turn.signaled);
        if polled.1 == SimulationActionKind::Emit {
            let written = loop_written(with_loop_end(state, polled.0), turn.write_ok);
            if written.1 == SimulationActionKind::Reopen {
                (loop_opened(with_loop_end(state, written.0), turn.open_ok).0, before.1 + 1)
            } else {
                (written.0, before.1 + 1)
            }
        } else {
            (polled.0, before.1)
        }
    }
}

/// The loop stops at the first poll that sees the shutdown flag signaled:
/// from that poll on it hands out no report, whatever came before and
/// whatever comes after. Only a report that was handed out before the
/// signal, and is still being written when the signal comes, follows it.
pub proof fn lemma_loop_stops_on_signal(
    state: SimulatorView,
    before: Seq<Turn>,
    at: Turn,
    after: Seq<Turn>,
)
    requires
        at.signaled,
    ensures
        loop_run(state, before + seq![at] + after).0 is Some,
        loop_run(state, before + seq![at] + after).1 == loop_run(state, before).1,
    decreases after.len(),
{
    let all = before + seq![at] + after;
    if after.len() == 0 {
        assert(all.drop_last() =~= before);
        assert(all.last() == at);
    } else {
        lemma_loop_stops_on_signal(state, before, at, after.drop_last());
        assert(all.drop_last() =~= before + seq![at] + after.drop_last());
    }
}

/// While the shutdown flag is not signaled and every write succeeds, the
/// loop hands out one report in every turn and does not end.
pub proof fn lemma_loop_keeps_its_period(state: SimulatorView, turns: Seq<Turn>)
    requires
        state.loop_end is None,
        forall|i: int| 0 <= i < turns.len() ==> !(#[trigger] turns[i]).signaled && turns[i].write_ok,
    ensures
        loop_run(state, turns).0 is None,
        loop_run(state, turns).1 == turns.len(),
    decreases turns.len(),
{
    if turns.len() > 0 {
        let front = turns.drop_last();
        assert forall|i: int| 0 <= i < front.len() implies !(#[trigger] front[i]).signaled
            && front[i].write_ok by {
            assert(front[i] == turns[i]);
        }
        lemma_loop_keeps_its_period(state, front);
        assert(!turns[turns.len() - 1].signaled && turns[turns.len() - 1].write_ok);
    }
}

/// The run leaves only through the cleanup, and with a failing exit code
/// exactly when a failure was entered.
pub proof fn lemma_exit_follows_cleanup(state: SimulatorView, outcome: PhaseOutcome)
    ensures
        after_phase(state, outcome).phase == Phase::Exited ==> state.phase == Phase::Exited || (
        state.phase == Phase::CleaningUp && outcome == PhaseOutcome::CleanedUp),
        state.phase != Phase::CleaningUp && state.phase != Phase::Exited && (outcome
            is ProvisionFailed || outcome is LoopFailed) && after_phase(state, outcome) != state
            ==> phase_action(after_phase(state, outcome)) is Cleanup,
        phase_action(state) is Exit ==> (phase_action(state)->code == EXIT_OK <==> state.error
            is None),
{
}

} // verus!
