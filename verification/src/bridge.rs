//! The duplex bridge between two pseudo-terminal masters. Each direction is
//! one forwarding task. The task decides; its caller reads, writes and
//! closes descriptors as the task says and reports what the read gave.

use crate::transport::TransportError;
use vstd::prelude::*;

verus! {

/// The most bytes that one read asks for.
pub const BUFFER_SIZE: usize = 1024;

/// The longest that one read waits for data, in milliseconds. A task looks
/// at the shutdown flag again after every read, so this bounds how long a
/// signal can go unseen.
pub const READ_WAIT_MS: u32 = 100;

/// What one read on the source descriptor gave.
pub enum ReadOutcome {
    /// A positive number of bytes.
    Data(Vec<u8>),
    /// No bytes, or none within the wait. On a pseudo-terminal master this
    /// is no end of stream.
    Empty,
    /// The call was interrupted by a signal.
    Interrupted,
    /// Any other failure.
    Failed,
}

/// What the caller of a forwarding task does next.
pub enum ForwardAction {
    /// Read up to `capacity` bytes from `fd`, waiting no longer than
    /// `wait_ms` milliseconds for data, and report with `on_read`.
    Read { fd: i32, capacity: usize, wait_ms: u32 },
    /// Write `bytes` to `fd` in one call, whatever comes of it; then poll.
    Write { fd: i32, bytes: Vec<u8> },
    /// Nothing to write; poll again.
    Continue,
    /// Close `fd`. The task is over.
    Close { fd: i32 },
    /// The task was over already; there is nothing to do.
    Done,
}

/// One direction of the bridge: bytes read from `source` go to
/// `destination`. The task owns `source` and gives it up to be closed
/// exactly once.
pub struct ForwardingTask {
    pub source: i32,
    pub destination: i32,
    pub finished: bool,
}

/// A read outcome with its bytes as a sequence.
pub enum ReadOutcomeView {
    Data(Seq<u8>),
    Empty,
    Interrupted,
    Failed,
}

/// A forwarding action with its bytes as a sequence.
pub enum ForwardActionView {
    Read { fd: i32, capacity: usize, wait_ms: u32 },
    Write { fd: i32, bytes: Seq<u8> },
    Continue,
    Close { fd: i32 },
    Done,
}

impl View for ReadOutcome {
    type V = ReadOutcomeView;

    open spec fn view(&self) -> ReadOutcomeView {
        match *self {
            ReadOutcome::Data(bytes) => ReadOutcomeView::Data(bytes@),
            ReadOutcome::Empty => ReadOutcomeView::Empty,
            ReadOutcome::Interrupted => ReadOutcomeView::Interrupted,
            ReadOutcome::Failed => ReadOutcomeView::Failed,
        }
    }
}

impl View for ForwardAction {
    type V = ForwardActionView;

    open spec fn view(&self) -> ForwardActionView {
        match *self {
            ForwardAction::Read { fd, capacity, wait_ms } => ForwardActionView::Read {
                fd,
                capacity,
                wait_ms,
            },
            ForwardAction::Write { fd, bytes } => ForwardActionView::Write { fd, bytes: bytes@ },
            ForwardAction::Continue => ForwardActionView::Continue,
            ForwardAction::Close { fd } => ForwardActionView::Close { fd },
            ForwardAction::Done => ForwardActionView::Done,
        }
    }
}

/// What a read result stands for, by the count that the read returned and
/// by whether its failure was an interruption.
pub open spec fn classify(count: int, interrupted: bool, buffer: Seq<u8>) -> ReadOutcomeView {
    if count > 0 {
        ReadOutcomeView::Data(buffer.take(count))
    } else if count == 0 {
        ReadOutcomeView::Empty
    } else if count == -1 && interrupted {
        ReadOutcomeView::Interrupted
    } else {
        ReadOutcomeView::Failed
    }
}

/// The failure that a read outcome stands for: an interruption is
/// transient, any other failure is terminal, and data or no data is no
/// failure.
pub open spec fn failure_of(outcome: ReadOutcomeView) -> Option<TransportError> {
    match outcome {
        ReadOutcomeView::Interrupted => Some(TransportError::TransientIo),
        ReadOutcomeView::Failed => Some(TransportError::TerminalIo),
        _ => None,
    }
}

impl ReadOutcome {
    /// The failure that the outcome stands for, if any.
    pub fn failure(&self) -> (failure: Option<TransportError>)
        ensures
            failure == failure_of(self@),
    {
        match self {
            ReadOutcome::Interrupted => Some(TransportError::TransientIo),
            ReadOutcome::Failed => Some(TransportError::TerminalIo),
            _ => None,
        }
    }

    /// Sorts the result of a read: `count` is what the read returned,
    /// `interrupted` says whether a failure was an interruption by a signal,
    /// and `buffer` is what the read filled.
    pub fn from_raw(count: isize, interrupted: bool, buffer: &[u8]) -> (outcome: ReadOutcome)
        requires
            count <= buffer@.len(),
        ensures
            outcome@ == classify(count as int, interrupted, buffer@),
    {
        if count > 0 {
            let mut bytes: Vec<u8> = Vec::new();
            let mut i: usize = 0;
            let len: usize = count as usize;
            while i < len
                invariant
                    i <= len <= buffer@.len(),
                    bytes@ == buffer@.take(i as int),
                decreases len - i,
            {
                bytes.push(buffer[i]);
                i = i + 1;
                assert(bytes@ =~= buffer@.take(i as int));
            }
            ReadOutcome::Data(bytes)
        } else if count == 0 {
            ReadOutcome::Empty
        } else if count == -1 && interrupted {
            ReadOutcome::Interrupted
        } else {
            ReadOutcome::Failed
        }
    }
}

/// The answer of a task to a look at the shutdown flag: whether the task is
/// over afterwards, and what its caller does.
pub open spec fn poll_step(task: ForwardingTask, signaled: bool) -> (bool, ForwardActionView) {
    if task.finished {
        (true, ForwardActionView::Done)
    } else if signaled {
        (true, ForwardActionView::Close { fd: task.source })
    } else {
        (
            false,
            ForwardActionView::Read {
                fd: task.source,
                capacity: BUFFER_SIZE,
                wait_ms: READ_WAIT_MS,
            },
        )
    }
}

/// The answer of a task to the outcome of a read.
pub open spec fn read_step(task: ForwardingTask, outcome: ReadOutcomeView) -> (
    bool,
    ForwardActionView,
) {
    if task.finished {
        (true, ForwardActionView::Done)
    } else {
        match outcome {
            ReadOutcomeView::Data(bytes) => (
                false,
                ForwardActionView::Write { fd: task.destination, bytes },
            ),
            ReadOutcomeView::Empty => (false, ForwardActionView::Continue),
            ReadOutcomeView::Interrupted => (false, ForwardActionView::Continue),
            ReadOutcomeView::Failed => (true, ForwardActionView::Close { fd: task.source }),
        }
    }
}

impl ForwardingTask {
    /// A task that has not run yet.
    pub fn new(source: i32, destination: i32) -> (task: ForwardingTask)
        ensures
            task.source == source,
            task.destination == destination,
            !task.finished,
    {
        ForwardingTask { source, destination, finished: false }
    }

    /// Called before each read with the state of the shutdown flag. A
    /// signaled flag ends the task; otherwise the task asks for a read of up
    /// to `BUFFER_SIZE` bytes that waits no longer than `READ_WAIT_MS`.
    pub fn poll(&mut self, signaled: bool) -> (action: ForwardAction)
        ensures
            action@ == poll_step(*old(self), signaled).1,
            final(self).finished == poll_step(*old(self), signaled).0,
            final(self).source == old(self).source,
            final(self).destination == old(self).destination,
    {
        if self.finished {
            ForwardAction::Done
        } else if signaled {
            self.finished = true;
            ForwardAction::Close { fd: self.source }
        } else {
            ForwardAction::Read {
                fd: self.source,
                capacity: BUFFER_SIZE,
                wait_ms: READ_WAIT_MS,
            }
        }
    }

    /// Called with the outcome of the read that `poll` asked for. Data goes
    /// to the destination as it came; no data and an interrupted call change
    /// nothing; any other failure ends the task.
    pub fn on_read(&mut self, outcome: ReadOutcome) -> (action: ForwardAction)
        ensures
            action@ == read_step(*old(self), outcome@).1,
            final(self).finished == read_step(*old(self), outcome@).0,
            final(self).source == old(self).source,
            final(self).destination == old(self).destination,
    {
        if self.finished {
            ForwardAction::Done
        } else {
            match outcome {
                ReadOutcome::Data(bytes) => ForwardAction::Write { fd: self.destination, bytes },
                ReadOutcome::Empty => ForwardAction::Continue,
                ReadOutcome::Interrupted => ForwardAction::Continue,
                ReadOutcome::Failed => {
                    self.finished = true;
                    ForwardAction::Close { fd: self.source }
                },
            }
        }
    }
}

/// One turn of a task's loop: the state of the shutdown flag at the poll and
/// the outcome of the read, should the task ask for one.
pub struct Cycle {
    pub signaled: bool,
    pub outcome: ReadOutcomeView,
}

/// The task with another `finished`.
pub open spec fn with_finished(task: ForwardingTask, finished: bool) -> ForwardingTask {
    ForwardingTask { source: task.source, destination: task.destination, finished }
}

/// The bytes that an action sends to the destination.
pub open spec fn bytes_written(action: ForwardActionView) -> Seq<u8> {
    match action {
        ForwardActionView::Write { fd, bytes } => bytes,
        _ => Seq::empty(),
    }
}

/// A task run through `cycles`, each a poll and, where the poll asks for a
/// read, the report of its outcome: whether the task is over at the end, how
/// often it gave up its source to be closed, and all bytes that it sent to
/// the destination, in order.
pub open spec fn run(task: ForwardingTask, cycles: Seq<Cycle>) -> (bool, nat, Seq<u8>)
    decreases cycles.len(),
{
    if cycles.len() == 0 {
        (task.finished, 0, Seq::empty())
    } else {
        let before = run(task, cycles.drop_last());
        let cycle = cycles.last();
        let polled = poll_step(with_finished(task, before.0), cycle.signaled);
        match polled.1 {
            ForwardActionView::Read { fd, capacity, wait_ms } => {
                let read = read_step(with_finished(task, polled.0), cycle.outcome);
                (
                    read.0,
                    before.1 + if read.1 is Close { 1nat } else { 0nat },
                    before.2 + bytes_written(read.1),
                )
            },
            ForwardActionView::Close { fd } => (polled.0, before.1 + 1, before.2),
            _ => (polled.0, before.1, before.2),
        }
    }
}

/// The bytes that the source offers in `cycles`: the data of every read up
/// to the first read that fails.
pub open spec fn offered(cycles: Seq<Cycle>) -> Seq<u8>
    decreases cycles.len(),
{
    if cycles.len() == 0 {
        Seq::empty()
    } else if source_failed(cycles.drop_last()) {
        offered(cycles.drop_last())
    } else {
        match cycles.last().outcome {
            ReadOutcomeView::Data(bytes) => offered(cycles.drop_last()) + bytes,
            _ => offered(cycles.drop_last()),
        }
    }
}

/// Whether some read in `cycles` fails for good.
pub open spec fn source_failed(cycles: Seq<Cycle>) -> bool {
    exists|i: int| 0 <= i < cycles.len() && (#[trigger] cycles[i]).outcome is Failed
}

/// Whether the shutdown flag is seen signaled in some cycle.
pub open spec fn signal_seen(cycles: Seq<Cycle>) -> bool {
    exists|i: int| 0 <= i < cycles.len() && (#[trigger] cycles[i]).signaled
}

/// A payload cut into the reads that take it up, `capacity` bytes at a time
/// and the rest in the last.
pub open spec fn chunked(payload: Seq<u8>, capacity: nat) -> Seq<Cycle>
    decreases payload.len(),
{
    if payload.len() == 0 || capacity == 0 {
        Seq::empty()
    } else if payload.len() <= capacity {
        seq![Cycle { signaled: false, outcome: ReadOutcomeView::Data(payload) }]
    } else {
        seq![
            Cycle {
                signaled: false,
                outcome: ReadOutcomeView::Data(payload.take(capacity as int)),
            },
        ] + chunked(payload.skip(capacity as int), capacity)
    }
}

/// While the shutdown flag is not signaled, a task that starts fresh sends
/// to the destination exactly the bytes that its source offers, unchanged
/// and in order, one write for each read that gave data; and it is over at
/// the end if and only if a read failed.
pub proof fn lemma_forwarding_is_faithful(task: ForwardingTask, cycles: Seq<Cycle>)
    requires
        !task.finished,
        !signal_seen(cycles),
    ensures
        run(task, cycles).2 == offered(cycles),
        run(task, cycles).0 == source_failed(cycles),
    decreases cycles.len(),
{
    if cycles.len() > 0 {
        let front = cycles.drop_last();
        assert forall|i: int| 0 <= i < front.len() implies !(#[trigger] front[i]).signaled by {
            assert(front[i] == cycles[i]);
            assert(!cycles[i].signaled);
        }
        lemma_forwarding_is_faithful(task, front);
        assert(!cycles[cycles.len() - 1].signaled);
        if source_failed(front) {
            let i = choose|i: int| 0 <= i < front.len() && (#[trigger] front[i]).outcome is Failed;
            assert(cycles[i] == front[i]);
        } else if cycles.last().outcome is Failed {
            assert(cycles[cycles.len() - 1].outcome is Failed);
        } else {
            assert forall|i: int| 0 <= i < cycles.len() implies !((#[trigger] cycles[i]).outcome
                is Failed) by {
                if i < front.len() {
                    assert(front[i] == cycles[i]);
                }
            }
        }
    }
}

/// A payload of any length, read `capacity` bytes at a time, is offered
/// whole and in order.
pub proof fn lemma_chunked_offers_payload(payload: Seq<u8>, capacity: nat)
    requires
        capacity > 0,
    ensures
        offered(chunked(payload, capacity)) == payload,
        !source_failed(chunked(payload, capacity)),
        !signal_seen(chunked(payload, capacity)),
        forall|i: int|
            0 <= i < chunked(payload, capacity).len() ==> match (#[trigger] chunked(
                payload,
                capacity,
            )[i]).outcome {
                ReadOutcomeView::Data(bytes) => 0 < bytes.len() <= capacity,
                _ => false,
            },
    decreases payload.len(),
{
    let cycles = chunked(payload, capacity);
    if payload.len() == 0 {
        assert(payload =~= Seq::<u8>::empty());
    } else if payload.len() <= capacity {
        assert(cycles.drop_last() =~= Seq::<Cycle>::empty());
        assert(offered(cycles.drop_last()) =~= Seq::<u8>::empty());
        assert(offered(cycles) =~= payload);
    } else {
        let head = Cycle {
            signaled: false,
            outcome: ReadOutcomeView::Data(payload.take(capacity as int)),
        };
        let rest = chunked(payload.skip(capacity as int), capacity);
        lemma_chunked_offers_payload(payload.skip(capacity as int), capacity);
        lemma_offered_after_data(head, rest);
        assert(payload.take(capacity as int) + payload.skip(capacity as int) =~= payload);
        assert forall|i: int| 0 <= i < cycles.len() implies match (#[trigger] cycles[i]).outcome {
            ReadOutcomeView::Data(bytes) => 0 < bytes.len() <= capacity,
            _ => false,
        } by {
            if i > 0 {
                assert(cycles[i] == rest[i - 1]);
            }
        }
        assert forall|i: int| 0 <= i < cycles.len() implies !(#[trigger] cycles[i]).signaled by {
            if i > 0 {
                assert(cycles[i] == rest[i - 1]);
            }
        }
    }
}

/// Data in front of cycles without a failure is offered in front of theirs.
proof fn lemma_offered_after_data(head: Cycle, rest: Seq<Cycle>)
    requires
        head.outcome is Data,
        !source_failed(rest),
    ensures
        offered(seq![head] + rest) == head.outcome->Data_0 + offered(rest),
        !source_failed(seq![head] + rest),
    decreases rest.len(),
{
    let all = seq![head] + rest;
    assert forall|i: int| 0 <= i < all.len() implies !((#[trigger] all[i]).outcome is Failed) by {
        if i > 0 {
            assert(all[i] == rest[i - 1]);
            assert(!(rest[i - 1].outcome is Failed));
        }
    }
    if rest.len() == 0 {
        assert(all.drop_last() =~= Seq::<Cycle>::empty());
        assert(all.last() == head);
        assert(!source_failed(all.drop_last()));
        assert(offered(all) == offered(all.drop_last()) + head.outcome->Data_0);
        assert(offered(all) =~= head.outcome->Data_0 + offered(rest));
    } else {
        let front = rest.drop_last();
        assert forall|i: int| 0 <= i < front.len() implies !((#[trigger] front[i]).outcome
            is Failed) by {
            assert(front[i] == rest[i]);
        }
        lemma_offered_after_data(head, front);
        assert(all.drop_last() =~= seq![head] + front);
        assert(all.last() == rest.last());
        assert(!source_failed(front));
        assert(!source_failed(all.drop_last()));
        match rest.last().outcome {
            ReadOutcomeView::Data(bytes) => {
                assert(offered(rest) == offered(front) + bytes);
                assert(offered(all) == offered(all.drop_last()) + bytes);
                assert((head.outcome->Data_0 + offered(front)) + bytes =~= head.outcome->Data_0
                    + (offered(front) + bytes));
            },
            _ => {
                assert(offered(rest) == offered(front));
                assert(offered(all) == offered(all.drop_last()));
            },
        }
    }
}

/// A payload written to one side comes out on the other unchanged: a fresh
/// task that reads it `BUFFER_SIZE` bytes at a time, with the shutdown flag
/// not signaled, has sent all of it, in order, when the reads are through.
pub proof fn lemma_round_trip(task: ForwardingTask, payload: Seq<u8>)
    requires
        !task.finished,
    ensures
        run(task, chunked(payload, BUFFER_SIZE as nat)).2 == payload,
        !run(task, chunked(payload, BUFFER_SIZE as nat)).0,
{
    lemma_chunked_offers_payload(payload, BUFFER_SIZE as nat);
    lemma_forwarding_is_faithful(task, chunked(payload, BUFFER_SIZE as nat));
}

/// Once a task is over it stays over: it sends nothing more and gives up no
/// descriptor again, whatever the flag and the reads are.
pub proof fn lemma_finished_task_is_inert(task: ForwardingTask, cycles: Seq<Cycle>)
    requires
        task.finished,
    ensures
        run(task, cycles) == (true, 0nat, Seq::<u8>::empty()),
    decreases cycles.len(),
{
    if cycles.len() > 0 {
        lemma_finished_task_is_inert(task, cycles.drop_last());
    }
}

/// Running through `first` and then `second` is running through `second`
/// from where `first` left the task.
pub proof fn lemma_run_in_two_parts(task: ForwardingTask, first: Seq<Cycle>, second: Seq<Cycle>)
    ensures
        run(task, first + second) == (
            run(with_finished(task, run(task, first).0), second).0,
            run(task, first).1 + run(with_finished(task, run(task, first).0), second).1,
            run(task, first).2 + run(with_finished(task, run(task, first).0), second).2,
        ),
    decreases second.len(),
{
    let middle = with_finished(task, run(task, first).0);
    if second.len() == 0 {
        assert(first + second =~= first);
        assert(run(task, first).2 + run(middle, second).2 =~= run(task, first).2);
    } else {
        lemma_run_in_two_parts(task, first, second.drop_last());
        assert((first + second).drop_last() =~= first + second.drop_last());
        assert((first + second).last() == second.last());
        let before = run(middle, second.drop_last());
        assert(with_finished(middle, before.0) == with_finished(task, before.0));
        let polled = poll_step(with_finished(task, before.0), second.last().signaled);
        assert(with_finished(middle, polled.0) == with_finished(task, polled.0));
        assert(run(task, first + second).2 =~= run(task, first).2 + run(middle, second).2);
    }
}

/// A task ends within one cycle of the signal: whatever came before, the
/// cycle in which the flag is seen signaled leaves the task over, with
/// nothing sent in that cycle or after it, and with its source given up to
/// be closed exactly once over the whole run.
pub proof fn lemma_signal_ends_task(
    task: ForwardingTask,
    before: Seq<Cycle>,
    at: Cycle,
    after: Seq<Cycle>,
)
    requires
        !task.finished,
        at.signaled,
    ensures
        run(task, before + seq![at] + after).0,
        run(task, before + seq![at] + after).1 == 1,
        run(task, before + seq![at] + after).2 == run(task, before).2,
{
    let upto = before + seq![at];
    assert(upto.drop_last() =~= before);
    assert(upto.last() == at);
    lemma_closes_at_most_once(task, before);
    lemma_run_in_two_parts(task, upto, after);
    lemma_finished_task_is_inert(with_finished(task, true), after);
    assert(run(task, upto).0);
    assert(with_finished(task, run(task, upto).0) == with_finished(task, true));
    assert(run(task, upto).2 + Seq::<u8>::empty() =~= run(task, upto).2);
}

/// A task gives up its source to be closed once when it ends and never
/// otherwise.
pub proof fn lemma_closes_at_most_once(task: ForwardingTask, cycles: Seq<Cycle>)
    requires
        !task.finished,
    ensures
        run(task, cycles).1 == if run(task, cycles).0 { 1nat } else { 0nat },
    decreases cycles.len(),
{
    if cycles.len() > 0 {
        lemma_closes_at_most_once(task, cycles.drop_last());
    }
}

/// A task that runs ends on the outcome of a read if and only if the read
/// failed for good; a transient failure is passed over like a read without
/// data, and nothing is written on either.
pub proof fn lemma_only_terminal_failures_end_a_task(
    task: ForwardingTask,
    outcome: ReadOutcomeView,
)
    requires
        !task.finished,
    ensures
        read_step(task, outcome).0 <==> failure_of(outcome) == Some(TransportError::TerminalIo),
        failure_of(outcome) == Some(TransportError::TransientIo) ==> read_step(task, outcome).1
            == ForwardActionView::Continue,
        failure_of(outcome) is Some ==> bytes_written(read_step(task, outcome).1)
            == Seq::<u8>::empty(),
{
}

} // verus!
