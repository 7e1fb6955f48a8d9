//! The pair of linked pseudo-terminals: what has been set up so far, what is
//! to be done next, and what has to be undone at the end. The handler keeps
//! the books; its caller does the work on the operating system and reports
//! each outcome.

use crate::bridge::ForwardingTask;
use crate::transport::{TransportError, VirtualEndpoint};
use vstd::prelude::*;
use vstd::string::StringExecFns;

verus! {

/// How far the setup has come: the step whose outcome is awaited.
#[derive(Debug, Clone, Copy, PartialEq, Eq, Structural)]
pub enum SetupStage {
    FirstPty,
    SecondPty,
    InputLink,
    OutputLink,
    InputOpen,
    OutputOpen,
    Ready,
    Failed,
}

/// What the caller reports to the setup.
pub enum SetupEvent {
    /// Nothing yet: the caller asks what to do.
    Begin,
    /// A pseudo-terminal was made.
    PtyCreated { endpoint: VirtualEndpoint },
    /// No pseudo-terminal could be had.
    PtyFailed,
    /// The link was made.
    Published,
    /// The link could not be made.
    PublishFailed,
    /// The replica device was opened through its link.
    ReplicaOpened { fd: i32 },
    /// The replica device could not be opened.
    OpenFailed,
}

/// What the caller of the setup does next.
pub enum SetupAction {
    /// Ask the operating system for a pseudo-terminal.
    CreatePty,
    /// Publish the replica device `target` at `link`.
    Publish { target: String, link: String },
    /// Open the replica device at `path` for reading and writing, and keep
    /// it open.
    OpenReplica { path: String },
    /// Both endpoints stand.
    Ready,
    /// The setup has failed; clean up and give up.
    Abort { error: TransportError },
}

/// One step of the cleanup.
pub enum CleanupStep {
    /// Wait for the forwarding task of this number, 1 or 2, to end.
    Join { task: u8 },
    /// Remove the link at `path`; a link that is gone already is no failure.
    Remove { path: String },
    /// Close the descriptor `fd`.
    Close { fd: i32 },
}

/// The books of a pair of linked pseudo-terminals.
pub struct PtyHandler {
    /// The endpoint whose replica is published at the input path.
    pub first: Option<VirtualEndpoint>,
    /// The endpoint whose replica is published at the output path.
    pub second: Option<VirtualEndpoint>,
    /// The input path, once a link stands there that the handler made.
    pub input_link: Option<String>,
    /// The output path, once a link stands there that the handler made.
    pub output_link: Option<String>,
    /// The descriptor that keeps the first replica open.
    pub slave_fd1: Option<i32>,
    /// The descriptor that keeps the second replica open.
    pub slave_fd2: Option<i32>,
    /// Whether the two forwarding tasks have been handed out. From then on
    /// the master descriptors are theirs to close.
    pub forwarding: bool,
    /// Why the setup failed, if it did.
    pub failure: Option<TransportError>,
}

/// An endpoint as plain values.
pub struct EndpointView {
    pub master_fd: i32,
    pub replica_path: Seq<char>,
}

/// The books with their paths as sequences of characters.
pub struct PtyHandlerView {
    pub first: Option<EndpointView>,
    pub second: Option<EndpointView>,
    pub input_link: Option<Seq<char>>,
    pub output_link: Option<Seq<char>>,
    pub slave_fd1: Option<i32>,
    pub slave_fd2: Option<i32>,
    pub forwarding: bool,
    pub failure: Option<TransportError>,
}

/// A setup event as plain values.
pub enum SetupEventView {
    Begin,
    PtyCreated { endpoint: EndpointView },
    PtyFailed,
    Published,
    PublishFailed,
    ReplicaOpened { fd: i32 },
    OpenFailed,
}

/// A setup action as plain values.
pub enum SetupActionView {
    CreatePty,
    Publish { target: Seq<char>, link: Seq<char> },
    OpenReplica { path: Seq<char> },
    Ready,
    Abort { error: TransportError },
}

/// A cleanup step as plain values.
pub enum CleanupStepView {
    Join { task: u8 },
    Remove { path: Seq<char> },
    Close { fd: i32 },
}

impl View for VirtualEndpoint {
    type V = EndpointView;

    open spec fn view(&self) -> EndpointView {
        EndpointView { master_fd: self.master_fd, replica_path: self.replica_path@ }
    }
}

/// The view of an endpoint that may be missing.
pub open spec fn endpoint_view(endpoint: Option<VirtualEndpoint>) -> Option<EndpointView> {
    match endpoint {
        Some(e) => Some(e@),
        None => None,
    }
}

/// The view of a path that may be missing.
pub open spec fn path_view(path: Option<String>) -> Option<Seq<char>> {
    match path {
        Some(p) => Some(p@),
        None => None,
    }
}

impl View for PtyHandler {
    type V = PtyHandlerView;

    open spec fn view(&self) -> PtyHandlerView {
        PtyHandlerView {
            first: endpoint_view(self.first),
            second: endpoint_view(self.second),
            input_link: path_view(self.input_link),
            output_link: path_view(self.output_link),
            slave_fd1: self.slave_fd1,
            slave_fd2: self.slave_fd2,
            forwarding: self.forwarding,
            failure: self.failure,
        }
    }
}

impl View for SetupEvent {
    type V = SetupEventView;

    open spec fn view(&self) -> SetupEventView {
        match *self {
            SetupEvent::Begin => SetupEventView::Begin,
            SetupEvent::PtyCreated { endpoint } => SetupEventView::PtyCreated {
                endpoint: endpoint@,
            },
            SetupEvent::PtyFailed => SetupEventView::PtyFailed,
            SetupEvent::Published => SetupEventView::Published,
            SetupEvent::PublishFailed => SetupEventView::PublishFailed,
            SetupEvent::ReplicaOpened { fd } => SetupEventView::ReplicaOpened { fd },
            SetupEvent::OpenFailed => SetupEventView::OpenFailed,
        }
    }
}

impl View for SetupAction {
    type V = SetupActionView;

    open spec fn view(&self) -> SetupActionView {
        match *self {
            SetupAction::CreatePty => SetupActionView::CreatePty,
            SetupAction::Publish { target, link } => SetupActionView::Publish {
                target: target@,
                link: link@,
            },
            SetupAction::OpenReplica { path } => SetupActionView::OpenReplica { path: path@ },
            SetupAction::Ready => SetupActionView::Ready,
            SetupAction::Abort { error } => SetupActionView::Abort { error },
        }
    }
}

impl View for CleanupStep {
    type V = CleanupStepView;

    open spec fn view(&self) -> CleanupStepView {
        match *self {
            CleanupStep::Join { task } => CleanupStepView::Join { task },
            CleanupStep::Remove { path } => CleanupStepView::Remove { path: path@ },
            CleanupStep::Close { fd } => CleanupStepView::Close { fd },
        }
    }
}

/// The books with nothing in them.
pub open spec fn empty_books() -> PtyHandlerView {
    PtyHandlerView {
        first: None,
        second: None,
        input_link: None,
        output_link: None,
        slave_fd1: None,
        slave_fd2: None,
        forwarding: false,
        failure: None,
    }
}

/// The stage of a setup: failed if anything failed, else the first step
/// whose result is not in the books.
pub open spec fn stage_of(books: PtyHandlerView) -> SetupStage {
    if books.failure is Some {
        SetupStage::Failed
    } else if books.first is None {
        SetupStage::FirstPty
    } else if books.second is None {
        SetupStage::SecondPty
    } else if books.input_link is None {
        SetupStage::InputLink
    } else if books.output_link is None {
        SetupStage::OutputLink
    } else if books.slave_fd1 is None {
        SetupStage::InputOpen
    } else if books.slave_fd2 is None {
        SetupStage::OutputOpen
    } else {
        SetupStage::Ready
    }
}

/// The books with a failure entered.
pub open spec fn failed_with(books: PtyHandlerView, error: TransportError) -> PtyHandlerView {
    PtyHandlerView { failure: Some(error), ..books }
}

/// The books after an event. An event that does not answer the step that is
/// awaited changes nothing.
pub open spec fn after_event(
    books: PtyHandlerView,
    gps_input_path: Seq<char>,
    gps_output_path: Seq<char>,
    event: SetupEventView,
) -> PtyHandlerView {
    match (stage_of(books), event) {
        (SetupStage::FirstPty, SetupEventView::PtyCreated { endpoint }) => PtyHandlerView {
            first: Some(endpoint),
            ..books
        },
        (SetupStage::SecondPty, SetupEventView::PtyCreated { endpoint }) => PtyHandlerView {
            second: Some(endpoint),
            ..books
        },
        (SetupStage::FirstPty, SetupEventView::PtyFailed) => failed_with(
            books,
            TransportError::AllocationFailed,
        ),
        (SetupStage::SecondPty, SetupEventView::PtyFailed) => failed_with(
            books,
            TransportError::AllocationFailed,
        ),
        (SetupStage::InputLink, SetupEventView::Published) => PtyHandlerView {
            input_link: Some(gps_input_path),
            ..books
        },
        (SetupStage::OutputLink, SetupEventView::Published) => PtyHandlerView {
            output_link: Some(gps_output_path),
            ..books
        },
        (SetupStage::InputLink, SetupEventView::PublishFailed) => failed_with(
            books,
            TransportError::LinkFailed,
        ),
        (SetupStage::OutputLink, SetupEventView::PublishFailed) => failed_with(
            books,
            TransportError::LinkFailed,
        ),
        (SetupStage::InputOpen, SetupEventView::ReplicaOpened { fd }) => PtyHandlerView {
            slave_fd1: Some(fd),
            ..books
        },
        (SetupStage::OutputOpen, SetupEventView::ReplicaOpened { fd }) => PtyHandlerView {
            slave_fd2: Some(fd),
            ..books
        },
        (SetupStage::InputOpen, SetupEventView::OpenFailed) => failed_with(
            books,
            TransportError::LinkFailed,
        ),
        (SetupStage::OutputOpen, SetupEventView::OpenFailed) => failed_with(
            books,
            TransportError::LinkFailed,
        ),
        _ => books,
    }
}

/// What is to be done at the stage of the books: the first replica goes to
/// the input path and the second to the output path.
pub open spec fn pending_action(
    books: PtyHandlerView,
    gps_input_path: Seq<char>,
    gps_output_path: Seq<char>,
) -> SetupActionView {
    match stage_of(books) {
        SetupStage::FirstPty => SetupActionView::CreatePty,
        SetupStage::SecondPty => SetupActionView::CreatePty,
        SetupStage::InputLink => SetupActionView::Publish {
            target: books.first->Some_0.replica_path,
            link: gps_input_path,
        },
        SetupStage::OutputLink => SetupActionView::Publish {
            target: books.second->Some_0.replica_path,
            link: gps_output_path,
        },
        SetupStage::InputOpen => SetupActionView::OpenReplica { path: gps_input_path },
        SetupStage::OutputOpen => SetupActionView::OpenReplica { path: gps_output_path },
        SetupStage::Ready => SetupActionView::Ready,
        SetupStage::Failed => SetupActionView::Abort { error: books.failure->Some_0 },
    }
}

/// Whether the two forwarding tasks can be handed out: both endpoints stand
/// and their masters have not been given away.
pub open spec fn can_forward(books: PtyHandlerView) -> bool {
    books.first is Some && books.second is Some && !books.forwarding
}

/// The step, if `wanted`.
pub open spec fn step_if(wanted: bool, step: CleanupStepView) -> Seq<CleanupStepView> {
    if wanted {
        seq![step]
    } else {
        Seq::empty()
    }
}

/// The removal of a link, if one stands.
pub open spec fn removal_of(link: Option<Seq<char>>) -> Seq<CleanupStepView> {
    match link {
        Some(path) => seq![CleanupStepView::Remove { path }],
        None => Seq::empty(),
    }
}

/// The closing of a descriptor, if there is one.
pub open spec fn closing_of(fd: Option<i32>) -> Seq<CleanupStepView> {
    match fd {
        Some(fd) => seq![CleanupStepView::Close { fd }],
        None => Seq::empty(),
    }
}

/// The master descriptor of an endpoint that the handler still has to close
/// itself: none once the forwarding tasks have the masters.
pub open spec fn owned_master(books: PtyHandlerView, endpoint: Option<EndpointView>) -> Option<
    i32,
> {
    match endpoint {
        Some(e) => if books.forwarding {
            None
        } else {
            Some(e.master_fd)
        },
        None => None,
    }
}

/// All that has to be undone, in order: the forwarding tasks are waited
/// for, the links are removed, the replicas are closed, and so are the
/// masters that no task has taken over.
pub open spec fn cleanup_plan(books: PtyHandlerView) -> Seq<CleanupStepView> {
    step_if(books.forwarding, CleanupStepView::Join { task: 1 }) + step_if(
        books.forwarding,
        CleanupStepView::Join { task: 2 },
    ) + removal_of(books.input_link) + removal_of(books.output_link) + closing_of(books.slave_fd1)
        + closing_of(books.slave_fd2) + closing_of(owned_master(books, books.first)) + closing_of(
        owned_master(books, books.second),
    )
}

/// The views of a list of cleanup steps.
pub open spec fn cleanup_views(steps: Seq<CleanupStep>) -> Seq<CleanupStepView> {
    steps.map_values(|step: CleanupStep| step@)
}

/// The replica path of an endpoint.
fn replica_path_of(endpoint: &Option<VirtualEndpoint>) -> (path: String)
    ensures
        endpoint is Some ==> path@ == endpoint->Some_0.replica_path@,
{
    match endpoint {
        Some(e) => e.replica_path.clone(),
        None => String::new(),
    }
}

/// The master descriptor of an endpoint.
fn master_of(endpoint: &Option<VirtualEndpoint>) -> (fd: Option<i32>)
    ensures
        fd == match *endpoint {
            Some(e) => Some(e.master_fd),
            None => None,
        },
{
    match endpoint {
        Some(e) => Some(e.master_fd),
        None => None,
    }
}

/// Adds a step to the list.
fn push_step(steps: &mut Vec<CleanupStep>, step: CleanupStep)
    ensures
        cleanup_views(final(steps)@) == cleanup_views(old(steps)@) + seq![step@],
{
    steps.push(step);
    assert(cleanup_views(steps@) =~= cleanup_views(old(steps)@) + seq![step@]);
}

/// Adds the closing of a descriptor, if there is one.
fn push_closing(steps: &mut Vec<CleanupStep>, fd: Option<i32>)
    ensures
        cleanup_views(final(steps)@) == cleanup_views(old(steps)@) + closing_of(fd),
{
    match fd {
        Some(fd) => {
            push_step(steps, CleanupStep::Close { fd });
        },
        None => {
            assert(cleanup_views(steps@) + Seq::<CleanupStepView>::empty() =~= cleanup_views(
                steps@,
            ));
        },
    }
}

/// Adds the removal of a link, if one stands.
fn push_removal(steps: &mut Vec<CleanupStep>, link: Option<String>)
    ensures
        cleanup_views(final(steps)@) == cleanup_views(old(steps)@) + removal_of(path_view(link)),
{
    match link {
        Some(path) => {
            push_step(steps, CleanupStep::Remove { path });
        },
        None => {
            assert(cleanup_views(steps@) + Seq::<CleanupStepView>::empty() =~= cleanup_views(
                steps@,
            ));
        },
    }
}

impl PtyHandler {
    /// Books with nothing in them.
    pub fn new() -> (handler: PtyHandler)
        ensures
            handler@ == empty_books(),
    {
        PtyHandler {
            first: None,
            second: None,
            input_link: None,
            output_link: None,
            slave_fd1: None,
            slave_fd2: None,
            forwarding: false,
            failure: None,
        }
    }

    /// The step of the setup whose outcome is awaited.
    pub fn stage(&self) -> (stage: SetupStage)
        ensures
            stage == stage_of(self@),
    {
        if self.failure.is_some() {
            SetupStage::Failed
        } else if self.first.is_none() {
            SetupStage::FirstPty
        } else if self.second.is_none() {
            SetupStage::SecondPty
        } else if self.input_link.is_none() {
            SetupStage::InputLink
        } else if self.output_link.is_none() {
            SetupStage::OutputLink
        } else if self.slave_fd1.is_none() {
            SetupStage::InputOpen
        } else if self.slave_fd2.is_none() {
            SetupStage::OutputOpen
        } else {
            SetupStage::Ready
        }
    }

    /// What is to be done next to set up the pair, with the first replica at
    /// `gps_input_path` and the second at `gps_output_path`.
    pub fn next_action(&self, gps_input_path: &str, gps_output_path: &str) -> (action: SetupAction)
        ensures
            action@ == pending_action(self@, gps_input_path@, gps_output_path@),
    {
        match self.stage() {
            SetupStage::FirstPty => SetupAction::CreatePty,
            SetupStage::SecondPty => SetupAction::CreatePty,
            SetupStage::InputLink => SetupAction::Publish {
                target: replica_path_of(&self.first),
                link: String::from_str(gps_input_path),
            },
            SetupStage::OutputLink => SetupAction::Publish {
                target: replica_path_of(&self.second),
                link: String::from_str(gps_output_path),
            },
            SetupStage::InputOpen => SetupAction::OpenReplica {
                path: String::from_str(gps_input_path),
            },
            SetupStage::OutputOpen => SetupAction::OpenReplica {
                path: String::from_str(gps_output_path),
            },
            SetupStage::Ready => SetupAction::Ready,
            SetupStage::Failed => match self.failure {
                Some(error) => SetupAction::Abort { error },
                None => SetupAction::Ready,
            },
        }
    }

    /// Enters the outcome of a setup step in the books and says what is to
    /// be done next. In order: two pseudo-terminals are made, the replica of
    /// the first is published at `gps_input_path` and that of the second at
    /// `gps_output_path`, and both replicas are opened through their links.
    /// A step that fails ends the setup. What was made before stays in the
    /// books for the cleanup.
    pub fn setup_linked_ptys(
        &mut self,
        gps_input_path: &str,
        gps_output_path: &str,
        event: SetupEvent,
    ) -> (action: SetupAction)
        ensures
            final(self)@ == after_event(old(self)@, gps_input_path@, gps_output_path@, event@),
            action@ == pending_action(final(self)@, gps_input_path@, gps_output_path@),
    {
        let stage = self.stage();
        match event {
            SetupEvent::Begin => {},
            SetupEvent::PtyCreated { endpoint } => {
                if stage == SetupStage::FirstPty {
                    self.first = Some(endpoint);
                } else if stage == SetupStage::SecondPty {
                    self.second = Some(endpoint);
                }
            },
            SetupEvent::PtyFailed => {
                if stage == SetupStage::FirstPty || stage == SetupStage::SecondPty {
                    self.failure = Some(TransportError::AllocationFailed);
                }
            },
            SetupEvent::Published => {
                if stage == SetupStage::InputLink {
                    self.input_link = Some(String::from_str(gps_input_path));
                } else if stage == SetupStage::OutputLink {
                    self.output_link = Some(String::from_str(gps_output_path));
                }
            },
            SetupEvent::PublishFailed => {
                if stage == SetupStage::InputLink || stage == SetupStage::OutputLink {
                    self.failure = Some(TransportError::LinkFailed);
                }
            },
            SetupEvent::ReplicaOpened { fd } => {
                if stage == SetupStage::InputOpen {
                    self.slave_fd1 = Some(fd);
                } else if stage == SetupStage::OutputOpen {
                    self.slave_fd2 = Some(fd);
                }
            },
            SetupEvent::OpenFailed => {
                if stage == SetupStage::InputOpen || stage == SetupStage::OutputOpen {
                    self.failure = Some(TransportError::LinkFailed);
                }
            },
        }
        self.next_action(gps_input_path, gps_output_path)
    }

    /// Hands out the two forwarding tasks of the bridge, one for each
    /// direction, if both endpoints stand and the tasks have not been handed
    /// out before. Each task owns the master that it reads from.
    pub fn start_forwarding(&mut self) -> (tasks: Option<(ForwardingTask, ForwardingTask)>)
        ensures
            tasks is Some <==> can_forward(old(self)@),
            tasks is Some ==> {
                &&& final(self)@ == PtyHandlerView { forwarding: true, ..old(self)@ }
                &&& tasks->Some_0.0.source == old(self)@.first->Some_0.master_fd
                &&& tasks->Some_0.0.destination == old(self)@.second->Some_0.master_fd
                &&& !tasks->Some_0.0.finished
                &&& tasks->Some_0.1.source == old(self)@.second->Some_0.master_fd
                &&& tasks->Some_0.1.destination == old(self)@.first->Some_0.master_fd
                &&& !tasks->Some_0.1.finished
            },
            tasks is None ==> final(self)@ == old(self)@,
    {
        if self.forwarding {
            return None;
        }
        match (master_of(&self.first), master_of(&self.second)) {
            (Some(master_fd1), Some(master_fd2)) => {
                self.forwarding = true;
                Some(
                    (
                        ForwardingTask::new(master_fd1, master_fd2),
                        ForwardingTask::new(master_fd2, master_fd1),
                    ),
                )
            },
            _ => None,
        }
    }

    /// Clears the books and says what has to be undone, in order: wait for
    /// the forwarding tasks, remove the links that were made, close the
    /// replicas, and close the masters that no forwarding task owns. None of
    /// these steps can make the cleanup fail.
    pub fn cleanup(&mut self) -> (steps: Vec<CleanupStep>)
        ensures
            cleanup_views(steps@) == cleanup_plan(old(self)@),
            final(self)@ == empty_books(),
    {
        let mut steps: Vec<CleanupStep> = Vec::new();
        assert(cleanup_views(steps@) =~= Seq::<CleanupStepView>::empty());
        if self.forwarding {
            push_step(&mut steps, CleanupStep::Join { task: 1 });
            push_step(&mut steps, CleanupStep::Join { task: 2 });
        }
        assert(cleanup_views(steps@) =~= step_if(
            old(self)@.forwarding,
            CleanupStepView::Join { task: 1 },
        ) + step_if(old(self)@.forwarding, CleanupStepView::Join { task: 2 }));
        let master_fd1 = if self.forwarding {
            None
        } else {
            master_of(&self.first)
        };
        let master_fd2 = if self.forwarding {
            None
        } else {
            master_of(&self.second)
        };
        push_removal(&mut steps, self.input_link.take());
        push_removal(&mut steps, self.output_link.take());
        push_closing(&mut steps, self.slave_fd1.take());
        push_closing(&mut steps, self.slave_fd2.take());
        push_closing(&mut steps, master_fd1);
        push_closing(&mut steps, master_fd2);
        self.first = None;
        self.second = None;
        self.forwarding = false;
        self.failure = None;
        steps
    }
}

/// A second cleanup has nothing to do: cleared books call for no step, so
/// no link is removed and no descriptor closed twice.
pub proof fn lemma_cleanup_is_idempotent()
    ensures
        cleanup_plan(empty_books()) == Seq::<CleanupStepView>::empty(),
{
    assert(cleanup_plan(empty_books()) =~= Seq::<CleanupStepView>::empty());
}

/// The cleanup removes every link that is in the books.
pub proof fn lemma_cleanup_removes_links(books: PtyHandlerView)
    ensures
        books.input_link is Some ==> cleanup_plan(books).contains(
            CleanupStepView::Remove { path: books.input_link->Some_0 },
        ),
        books.output_link is Some ==> cleanup_plan(books).contains(
            CleanupStepView::Remove { path: books.output_link->Some_0 },
        ),
{
    let plan = cleanup_plan(books);
    let joins = step_if(books.forwarding, CleanupStepView::Join { task: 1 }) + step_if(
        books.forwarding,
        CleanupStepView::Join { task: 2 },
    );
    if books.input_link is Some {
        assert(plan[joins.len() as int] == CleanupStepView::Remove {
            path: books.input_link->Some_0,
        });
    }
    if books.output_link is Some {
        let at = joins.len() + removal_of(books.input_link).len();
        assert(plan[at as int] == CleanupStepView::Remove { path: books.output_link->Some_0 });
    }
}

/// The cleanup closes a master descriptor if and only if no forwarding task
/// has taken it over, and it waits for the tasks if and only if they were
/// handed out: each descriptor is closed by one owner.
pub proof fn lemma_one_owner_closes(books: PtyHandlerView, fd: i32)
    requires
        books.first is Some,
        books.first->Some_0.master_fd == fd,
        books.second is Some ==> books.second->Some_0.master_fd != fd,
        books.slave_fd1 != Some(fd),
        books.slave_fd2 != Some(fd),
    ensures
        cleanup_plan(books).contains(CleanupStepView::Close { fd }) <==> !books.forwarding,
        cleanup_plan(books).contains(CleanupStepView::Join { task: 1 }) <==> books.forwarding,
{
    let plan = cleanup_plan(books);
    let a = step_if(books.forwarding, CleanupStepView::Join { task: 1 });
    let b = step_if(books.forwarding, CleanupStepView::Join { task: 2 });
    let c = removal_of(books.input_link);
    let d = removal_of(books.output_link);
    let e = closing_of(books.slave_fd1);
    let f = closing_of(books.slave_fd2);
    let g = closing_of(owned_master(books, books.first));
    let h = closing_of(owned_master(books, books.second));
    assert(plan == a + b + c + d + e + f + g + h);
    if books.forwarding {
        assert(plan[0] == CleanupStepView::Join { task: 1 });
    } else {
        let at = (a + b + c + d + e + f).len() as int;
        assert(plan[at] == CleanupStepView::Close { fd });
    }
}

/// Nothing that the setup has entered in the books is lost by a later
/// event, and a failed setup stays failed: what was made is there to be
/// undone, whichever way the setup ends.
pub proof fn lemma_setup_keeps_books(
    books: PtyHandlerView,
    gps_input_path: Seq<char>,
    gps_output_path: Seq<char>,
    event: SetupEventView,
)
    ensures
        ({
            let after = after_event(books, gps_input_path, gps_output_path, event);
            &&& books.first is Some ==> after.first == books.first
            &&& books.second is Some ==> after.second == books.second
            &&& books.input_link is Some ==> after.input_link == books.input_link
            &&& books.output_link is Some ==> after.output_link == books.output_link
            &&& books.slave_fd1 is Some ==> after.slave_fd1 == books.slave_fd1
            &&& books.slave_fd2 is Some ==> after.slave_fd2 == books.slave_fd2
            &&& books.failure is Some ==> after == books
            &&& after.forwarding == books.forwarding
        }),
{
}

} // verus!
