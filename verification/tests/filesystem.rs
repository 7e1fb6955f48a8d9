use nix::errno::Errno;
use nix::fcntl::readlink;
use nix::sys::stat::{lstat, Mode, SFlag};
use nix::unistd::{mkfifo, symlinkat, unlink};

use nmea_simulator::pty_handler::{CleanupStep, PtyHandler, SetupAction, SetupEvent};
use nmea_simulator::transport::{
    create_symlink, ensure_fifo, publish_outcome, FifoHandler, FileStep, PathKind, RemoveOutcome,
    TransportError, VirtualEndpoint,
};

fn kind_of(path: &str) -> PathKind {
    match lstat(path) {
        Ok(found) => {
            if SFlag::from_bits_truncate(found.st_mode) & SFlag::S_IFMT == SFlag::S_IFIFO {
                PathKind::Fifo
            } else {
                PathKind::Other
            }
        }
        Err(_) => PathKind::Absent,
    }
}

fn perform(step: &FileStep) -> bool {
    match step {
        FileStep::Remove { path } => unlink(path.as_str()).is_ok(),
        FileStep::Symlink { target, link } => {
            symlinkat(target.as_str(), None, link.as_str()).is_ok()
        }
        FileStep::MakeFifo { path, mode } => {
            mkfifo(path.as_str(), Mode::from_bits_truncate(*mode)).is_ok()
        }
    }
}

fn remove(path: &str) -> RemoveOutcome {
    match unlink(path) {
        Ok(()) => RemoveOutcome::Removed,
        Err(Errno::ENOENT) => RemoveOutcome::AlreadyAbsent,
        Err(_) => RemoveOutcome::Failed,
    }
}

fn target_of(link: &str) -> String {
    readlink(link).unwrap().to_string_lossy().into_owned()
}

/// Sets up a pair with real links at `input` and `output`; the descriptors
/// are made up, since nothing here reads or writes them.
fn set_up(input: &str, output: &str) -> Result<PtyHandler, TransportError> {
    let mut handler = PtyHandler::new();
    let mut made = vec![
        VirtualEndpoint { master_fd: 6, replica_path: "/dev/pts/8".to_string() },
        VirtualEndpoint { master_fd: 5, replica_path: "/dev/pts/7".to_string() },
    ];
    let mut event = SetupEvent::Begin;
    loop {
        event = match handler.setup_linked_ptys(input, output, event) {
            SetupAction::CreatePty => SetupEvent::PtyCreated { endpoint: made.pop().unwrap() },
            SetupAction::Publish { target, link } => {
                let exists = kind_of(&link) != PathKind::Absent;
                let steps = create_symlink(&target, &link, exists);
                match publish_outcome(steps.iter().all(perform)) {
                    Ok(()) => SetupEvent::Published,
                    Err(_) => SetupEvent::PublishFailed,
                }
            }
            SetupAction::OpenReplica { .. } => SetupEvent::ReplicaOpened { fd: 10 },
            SetupAction::Ready => return Ok(handler),
            SetupAction::Abort { error } => return Err(error),
        };
    }
}

fn removals(steps: &[CleanupStep]) -> Vec<RemoveOutcome> {
    steps
        .iter()
        .filter_map(|step| match step {
            CleanupStep::Remove { path } => Some(remove(path)),
            _ => None,
        })
        .collect()
}

#[test]
fn published_link_points_at_the_replica() {
    let link = "/tmp/nmea_simulator_links_a";
    let _ = unlink(link);
    let steps = create_symlink("/dev/pts/7", link, kind_of(link) != PathKind::Absent);
    assert_eq!(steps.len(), 1);
    assert!(steps.iter().all(perform));
    assert_eq!(target_of(link), "/dev/pts/7");
    // the last writer wins
    let steps = create_symlink("/dev/pts/8", link, kind_of(link) != PathKind::Absent);
    assert_eq!(steps.len(), 2);
    assert!(steps.iter().all(perform));
    assert_eq!(target_of(link), "/dev/pts/8");
    assert_eq!(remove(link), RemoveOutcome::Removed);
}

#[test]
fn publish_fails_where_no_link_can_be_made() {
    let link = "/tmp/nmea_simulator_no_such_directory/a";
    let steps = create_symlink("/dev/pts/7", link, kind_of(link) != PathKind::Absent);
    assert_eq!(publish_outcome(steps.iter().all(perform)), Err(TransportError::LinkFailed));
    let outcome = set_up(link, "/tmp/nmea_simulator_links_unused");
    assert!(matches!(outcome, Err(TransportError::LinkFailed)));
    assert_eq!(kind_of("/tmp/nmea_simulator_links_unused"), PathKind::Absent);
}

#[test]
fn cleanup_removes_the_published_links() {
    let (input, output) = ("/tmp/nmea_simulator_links_b", "/tmp/nmea_simulator_links_c");
    let _ = unlink(input);
    let _ = unlink(output);
    let mut handler = set_up(input, output).unwrap();
    assert_eq!(target_of(input), "/dev/pts/7");
    assert_eq!(target_of(output), "/dev/pts/8");
    let outcomes = removals(&handler.cleanup());
    assert_eq!(outcomes, vec![RemoveOutcome::Removed, RemoveOutcome::Removed]);
    assert_eq!(kind_of(input), PathKind::Absent);
    assert_eq!(kind_of(output), PathKind::Absent);
    // a second cleanup finds nothing to do and touches nothing
    assert!(handler.cleanup().is_empty());
    assert_eq!(kind_of(input), PathKind::Absent);
    assert_eq!(kind_of(output), PathKind::Absent);
}

#[test]
fn cleanup_passes_over_a_link_removed_by_someone_else() {
    let (input, output) = ("/tmp/nmea_simulator_links_d", "/tmp/nmea_simulator_links_e");
    let _ = unlink(input);
    let _ = unlink(output);
    let mut handler = set_up(input, output).unwrap();
    assert_eq!(remove(input), RemoveOutcome::Removed);
    let outcomes = removals(&handler.cleanup());
    assert_eq!(outcomes, vec![RemoveOutcome::AlreadyAbsent, RemoveOutcome::Removed]);
    assert!(outcomes.iter().all(|outcome| outcome.is_success()));
    assert_eq!(kind_of(input), PathKind::Absent);
    assert_eq!(kind_of(output), PathKind::Absent);
}

#[test]
fn ensure_fifo_twice_keeps_the_pipe_and_its_permissions() {
    let path = "/tmp/nmea_simulator_pipe_a";
    let _ = unlink(path);
    let first = ensure_fifo(path, kind_of(path)).unwrap();
    assert!(perform(&first.unwrap()));
    assert_eq!(kind_of(path), PathKind::Fifo);
    let before = lstat(path).unwrap();
    assert_eq!(before.st_mode & 0o077, 0);
    // the next run finds the pipe
    let second = ensure_fifo(path, kind_of(path));
    assert!(matches!(second, Ok(None)));
    let after = lstat(path).unwrap();
    assert_eq!(after.st_mode, before.st_mode);
    assert_eq!(after.st_ino, before.st_ino);
    assert_eq!(remove(path), RemoveOutcome::Removed);
}

#[test]
fn ensure_fifo_refuses_a_directory() {
    assert_eq!(kind_of("/tmp"), PathKind::Other);
    assert!(matches!(ensure_fifo("/tmp", kind_of("/tmp")), Err(TransportError::PathConflict)));
}

#[test]
fn pipe_is_removed_by_the_run_that_made_it() {
    let path = "/tmp/nmea_simulator_pipe_b";
    let _ = unlink(path);
    let mut first = FifoHandler::new(path);
    let step = first.plan(kind_of(path)).unwrap().unwrap();
    assert_eq!(first.on_made(perform(&step)), Ok(()));
    assert_eq!(kind_of(path), PathKind::Fifo);
    // a second run beside the first finds the pipe and will not remove it
    let mut second = FifoHandler::new(path);
    assert!(matches!(second.plan(kind_of(path)), Ok(None)));
    assert!(second.cleanup().is_none());
    assert_eq!(kind_of(path), PathKind::Fifo);
    match first.cleanup() {
        Some(FileStep::Remove { path }) => assert_eq!(remove(&path), RemoveOutcome::Removed),
        _ => panic!("the pipe that was made is removed"),
    }
    assert_eq!(kind_of(path), PathKind::Absent);
    assert!(first.cleanup().is_none());
}

#[test]
fn pipe_that_cannot_be_made_fails_the_setup() {
    let path = "/tmp/nmea_simulator_no_such_directory/pipe";
    let mut pipe = FifoHandler::new(path);
    let step = pipe.plan(kind_of(path)).unwrap().unwrap();
    assert_eq!(pipe.on_made(perform(&step)), Err(TransportError::LinkFailed));
    assert!(pipe.cleanup().is_none());
}
