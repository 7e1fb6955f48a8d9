//! The decisions of the transport provisioner: what to do on the file system
//! to expose an endpoint, and what each outcome of the operating system
//! means. The caller does the work and reports back.

use vstd::prelude::*;
use vstd::string::StringExecFns;

verus! {

/// The ways in which the transport can fail.
#[derive(Debug, Clone, Copy, PartialEq, Eq, Structural)]
pub enum TransportError {
    /// The operating system gave no pseudo-terminal.
    AllocationFailed,
    /// A link to a replica device could not be made or used.
    LinkFailed,
    /// The path of the named pipe is taken by something that is no pipe.
    PathConflict,
    /// The serial device could not be opened.
    DeviceUnavailable,
    /// A call was interrupted while forwarding.
    TransientIo,
    /// Any other failure while forwarding.
    TerminalIo,
}

/// The three transports.
#[derive(Debug, Clone, Copy, PartialEq, Eq, Structural)]
pub enum TransportMode {
    LinkedPty,
    NamedPipe,
    RawSerial,
}

/// What stands at a path.
#[derive(Debug, Clone, Copy, PartialEq, Eq, Structural)]
pub enum PathKind {
    Absent,
    Fifo,
    Other,
}

/// How the removal of a path ended.
#[derive(Debug, Clone, Copy, PartialEq, Eq, Structural)]
pub enum RemoveOutcome {
    Removed,
    AlreadyAbsent,
    Failed,
}

/// The permissions of a named pipe that the provisioner makes: read, write
/// and execute for the owner and nothing for anyone else.
pub const FIFO_MODE: u32 = 0o700;

/// One operation on the file system.
pub enum FileStep {
    /// Remove what stands at `path`.
    Remove { path: String },
    /// Make a symbolic link at `link` that points at `target`.
    Symlink { target: String, link: String },
    /// Make a named pipe at `path` with the permissions `mode`.
    MakeFifo { path: String, mode: u32 },
}

/// A file-system operation with its paths as sequences of characters.
pub enum FileStepView {
    Remove { path: Seq<char> },
    Symlink { target: Seq<char>, link: Seq<char> },
    MakeFifo { path: Seq<char>, mode: u32 },
}

impl View for FileStep {
    type V = FileStepView;

    open spec fn view(&self) -> FileStepView {
        match *self {
            FileStep::Remove { path } => FileStepView::Remove { path: path@ },
            FileStep::Symlink { target, link } => FileStepView::Symlink {
                target: target@,
                link: link@,
            },
            FileStep::MakeFifo { path, mode } => FileStepView::MakeFifo { path: path@, mode },
        }
    }
}

/// One end of the transport: the master descriptor of a pseudo-terminal and
/// the path of the replica device that goes with it.
pub struct VirtualEndpoint {
    pub master_fd: i32,
    pub replica_path: String,
}

/// The views of a list of file-system operations.
pub open spec fn step_views(steps: Seq<FileStep>) -> Seq<FileStepView> {
    steps.map_values(|step: FileStep| step@)
}

/// The operations that publish a replica device at `link`: what stands there
/// is removed first, then the link is made.
pub open spec fn publish_plan(target: Seq<char>, link: Seq<char>, link_exists: bool) -> Seq<
    FileStepView,
> {
    if link_exists {
        seq![FileStepView::Remove { path: link }, FileStepView::Symlink { target, link }]
    } else {
        seq![FileStepView::Symlink { target, link }]
    }
}

/// What `ensure_fifo` answers to what stands at the path.
pub open spec fn fifo_plan(path: Seq<char>, found: PathKind) -> Result<
    Option<FileStepView>,
    TransportError,
> {
    match found {
        PathKind::Absent => Ok(Some(FileStepView::MakeFifo { path, mode: FIFO_MODE })),
        PathKind::Fifo => Ok(None),
        PathKind::Other => Err(TransportError::PathConflict),
    }
}

impl TransportError {
    /// Whether the failure is one that a forwarding task passes over by
    /// trying again.
    pub fn is_transient(&self) -> (transient: bool)
        ensures
            transient == (*self == TransportError::TransientIo),
    {
        match self {
            TransportError::TransientIo => true,
            _ => false,
        }
    }

    /// Whether the failure ends the start of the program.
    pub fn aborts_startup(&self) -> (fatal: bool)
        ensures
            fatal == (*self == TransportError::AllocationFailed || *self
                == TransportError::LinkFailed || *self == TransportError::PathConflict || *self
                == TransportError::DeviceUnavailable),
    {
        match self {
            TransportError::AllocationFailed => true,
            TransportError::LinkFailed => true,
            TransportError::PathConflict => true,
            TransportError::DeviceUnavailable => true,
            _ => false,
        }
    }
}

impl RemoveOutcome {
    /// Whether the path is gone. A path that was gone before counts as
    /// removed.
    pub fn is_success(&self) -> (gone: bool)
        ensures
            gone == (*self != RemoveOutcome::Failed),
    {
        match self {
            RemoveOutcome::Removed => true,
            RemoveOutcome::AlreadyAbsent => true,
            RemoveOutcome::Failed => false,
        }
    }
}

/// What a request for a pseudo-terminal gave: `status` is what the operating
/// system returned, zero for success; `master_fd` is the master descriptor;
/// `replica_name` is the path of the replica device, if the system named one
/// and the name is text. Without success or without a name there is no
/// endpoint.
pub fn create_pty(status: i32, master_fd: i32, replica_name: Option<String>) -> (endpoint: Result<
    VirtualEndpoint,
    TransportError,
>)
    ensures
        status != 0 || replica_name is None ==> endpoint == Err::<VirtualEndpoint, TransportError>(
            TransportError::AllocationFailed,
        ),
        status == 0 && replica_name is Some ==> endpoint is Ok && endpoint->Ok_0.master_fd
            == master_fd && endpoint->Ok_0.replica_path == replica_name->Some_0,
{
    if status != 0 {
        return Err(TransportError::AllocationFailed);
    }
    match replica_name {
        Some(replica_path) => Ok(VirtualEndpoint { master_fd, replica_path }),
        None => Err(TransportError::AllocationFailed),
    }
}

/// The operations that publish the replica device `target` at `link_path`.
/// `link_exists` says whether something stands at `link_path` already: it is
/// removed first, so that the last writer wins. If an operation fails, the
/// endpoint is not published: see `publish_outcome`.
pub fn create_symlink(target: &str, link_path: &str, link_exists: bool) -> (steps: Vec<FileStep>)
    ensures
        step_views(steps@) == publish_plan(target@, link_path@, link_exists),
{
    let mut steps: Vec<FileStep> = Vec::new();
    if link_exists {
        steps.push(FileStep::Remove { path: String::from_str(link_path) });
    }
    steps.push(
        FileStep::Symlink { target: String::from_str(target), link: String::from_str(link_path) },
    );
    assert(step_views(steps@) =~= publish_plan(target@, link_path@, link_exists));
    steps
}

/// What the operations of `create_symlink` came to: published if all of them
/// succeeded.
pub fn publish_outcome(all_succeeded: bool) -> (outcome: Result<(), TransportError>)
    ensures
        outcome == if all_succeeded {
            Ok::<(), TransportError>(())
        } else {
            Err::<(), TransportError>(TransportError::LinkFailed)
        },
{
    if all_succeeded {
        Ok(())
    } else {
        Err(TransportError::LinkFailed)
    }
}

/// What to do for a named pipe at `path`, given what stands there: nothing
/// there, and the pipe is made with `FIFO_MODE`; a pipe there, and it is
/// used as it is, with nothing to do; anything else is a conflict.
pub fn ensure_fifo(path: &str, found: PathKind) -> (plan: Result<Option<FileStep>, TransportError>)
    ensures
        match plan {
            Ok(Some(step)) => fifo_plan(path@, found) == Ok::<
                Option<FileStepView>,
                TransportError,
            >(Some(step@)),
            Ok(None) => fifo_plan(path@, found) == Ok::<Option<FileStepView>, TransportError>(
                None,
            ),
            Err(error) => fifo_plan(path@, found) == Err::<Option<FileStepView>, TransportError>(
                error,
            ),
        },
{
    match found {
        PathKind::Absent => Ok(
            Some(FileStep::MakeFifo { path: String::from_str(path), mode: FIFO_MODE }),
        ),
        PathKind::Fifo => Ok(None),
        PathKind::Other => Err(TransportError::PathConflict),
    }
}

/// What an attempt to open the serial device for writing gave: the
/// descriptor, or no device.
pub fn open_serial(opened: Option<i32>) -> (handle: Result<i32, TransportError>)
    ensures
        handle == match opened {
            Some(fd) => Ok::<i32, TransportError>(fd),
            None => Err::<i32, TransportError>(TransportError::DeviceUnavailable),
        },
{
    match opened {
        Some(fd) => Ok(fd),
        None => Err(TransportError::DeviceUnavailable),
    }
}

/// The books of a named pipe: its path, and whether this run made the pipe
/// and so has to remove it.
pub struct FifoHandler {
    pub path: String,
    pub made: bool,
}

/// The books of a named pipe as plain values.
pub struct FifoHandlerView {
    pub path: Seq<char>,
    pub made: bool,
}

impl View for FifoHandler {
    type V = FifoHandlerView;

    open spec fn view(&self) -> FifoHandlerView {
        FifoHandlerView { path: self.path@, made: self.made }
    }
}

/// What the attempt to make the pipe came to: made, or not exposed.
pub open spec fn fifo_outcome(succeeded: bool) -> Result<(), TransportError> {
    if succeeded {
        Ok(())
    } else {
        Err(TransportError::LinkFailed)
    }
}

/// What the cleanup of a named pipe removes: the pipe, if this run made it.
pub open spec fn fifo_removal(books: FifoHandlerView) -> Option<FileStepView> {
    if books.made {
        Some(FileStepView::Remove { path: books.path })
    } else {
        None
    }
}

/// The view of a file-system operation that may be missing.
pub open spec fn step_view(step: Option<FileStep>) -> Option<FileStepView> {
    match step {
        Some(step) => Some(step@),
        None => None,
    }
}

impl FifoHandler {
    /// The books of the pipe at `path`, of which nothing has been made yet.
    pub fn new(path: &str) -> (handler: FifoHandler)
        ensures
            handler@ == (FifoHandlerView { path: path@, made: false }),
    {
        FifoHandler { path: String::from_str(path), made: false }
    }

    /// What to do for the pipe, given what stands at its path: see
    /// `ensure_fifo`.
    pub fn plan(&self, found: PathKind) -> (plan: Result<Option<FileStep>, TransportError>)
        ensures
            match plan {
                Ok(step) => fifo_plan(self@.path, found) == Ok::<
                    Option<FileStepView>,
                    TransportError,
                >(step_view(step)),
                Err(error) => fifo_plan(self@.path, found) == Err::<
                    Option<FileStepView>,
                    TransportError,
                >(error),
            },
    {
        ensure_fifo(self.path.as_str(), found)
    }

    /// Enters the outcome of making the pipe. A pipe that was made is this
    /// run's to remove; a pipe that could not be made is a failure to expose
    /// the endpoint.
    pub fn on_made(&mut self, succeeded: bool) -> (outcome: Result<(), TransportError>)
        ensures
            outcome == fifo_outcome(succeeded),
            final(self)@ == (FifoHandlerView {
                made: old(self)@.made || succeeded,
                ..old(self)@
            }),
    {
        if succeeded {
            self.made = true;
            Ok(())
        } else {
            Err(TransportError::LinkFailed)
        }
    }

    /// Clears the books and says what has to be removed: the pipe, if this
    /// run made it. A pipe that was found and used as it was stays.
    pub fn cleanup(&mut self) -> (step: Option<FileStep>)
        ensures
            step_view(step) == fifo_removal(old(self)@),
            final(self)@ == (FifoHandlerView { made: false, ..old(self)@ }),
    {
        if self.made {
            self.made = false;
            Some(FileStep::Remove { path: self.path.clone() })
        } else {
            None
        }
    }
}

/// A pipe is removed by the cleanup exactly when this run made it, and a
/// second cleanup removes nothing.
pub proof fn lemma_fifo_is_removed_once(books: FifoHandlerView)
    ensures
        fifo_removal(books) is Some <==> books.made,
        fifo_removal(FifoHandlerView { made: false, ..books }) is None,
{
}

/// Asking for a named pipe a second time, when the first time made it,
/// neither fails nor touches the pipe.
pub proof fn lemma_ensure_fifo_twice(path: Seq<char>)
    ensures
        fifo_plan(path, PathKind::Absent) == Ok::<Option<FileStepView>, TransportError>(
            Some(FileStepView::MakeFifo { path, mode: FIFO_MODE }),
        ),
        fifo_plan(path, PathKind::Fifo) == Ok::<Option<FileStepView>, TransportError>(None),
{
}

} // verus!
