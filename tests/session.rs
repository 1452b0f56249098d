use openssh::error::Error;
use openssh::fs::{Dir, Fs, IdCache, OwnedHandle};
use openssh::guard::{Auxiliary, CancellationGuard};
use openssh::reader::{ReadTask, ReaderAction, Termination};
use openssh::session::{needs_limits_request, negotiated_limits, Extensions, Limits};
use tokio_util::sync::CancellationToken;

fn aux() -> Auxiliary {
    Auxiliary {
        cancel_token: CancellationToken::new(),
        extensions: Extensions { limits: false },
        limits: Limits { packet_len: 0, read_len: 0, write_len: 0, open_handles: 0 },
    }
}

#[test]
fn limits_fall_back_without_extension() {
    let ext = Extensions { limits: false };
    assert!(!needs_limits_request(&ext));
    let l = negotiated_limits(&ext, None).unwrap();
    assert_eq!(l, Limits { packet_len: 0, read_len: 20480, write_len: 20480, open_handles: 0 });
}

#[test]
fn limits_from_server() {
    let ext = Extensions { limits: true };
    assert!(needs_limits_request(&ext));
    let reply = Limits { packet_len: 262144, read_len: 261120, write_len: 261120, open_handles: 0 };
    assert_eq!(negotiated_limits(&ext, Some(reply)), Some(reply));
    assert_eq!(negotiated_limits(&ext, None), None);
}

#[test]
fn guard_listens_then_reports_failure() {
    let a = aux();
    let mut g = CancellationGuard::new();
    assert!(!g.listening);
    assert_eq!(g.poll_for_task_failure(&a), Ok(()));
    assert!(g.listening);
    assert_eq!(g.poll_for_task_failure(&a), Ok(()));
    a.cancel_token.cancel();
    assert_eq!(g.poll_for_task_failure(&a), Err(Error::BackgroundTaskFailure));
    assert!(!g.listening);
    assert_eq!(g.poll_for_task_failure(&a), Err(Error::BackgroundTaskFailure));
    // a guard first polled after the failure fails at once
    let mut late = CancellationGuard::new();
    assert_eq!(late.poll_for_task_failure(&a), Err(Error::BackgroundTaskFailure));
}

#[test]
fn settle_prefers_failure_then_reply() {
    let mut g = CancellationGuard::new();
    assert_eq!(g.settle::<u32>(None, false), None);
    assert_eq!(g.settle(Some(Ok(7u32)), false), Some(Ok(7)));
    assert_eq!(g.settle::<u32>(Some(Err(Error::Remote(2))), false), Some(Err(Error::Remote(2))));
    assert_eq!(g.settle(Some(Ok(7u32)), true), Some(Err(Error::BackgroundTaskFailure)));
}

#[test]
fn stream_closing_mid_response_fails_waiters() {
    let a = aux();
    let (mut task, first) = ReadTask::new();
    assert_eq!(first, ReaderAction::WaitForRequests);
    assert_eq!(task.on_wait(1), ReaderAction::ReadPacket);
    // the stream ends in the middle of the response
    assert_eq!(task.on_packet(Err(Error::Transport)), ReaderAction::SignalFailure);
    assert_eq!(task.ended, Some(Termination::Failure(Error::Transport)));
    a.cancel_token.cancel();
    // the request in flight
    let mut in_flight = CancellationGuard::new();
    assert_eq!(in_flight.poll_for_task_failure(&a), Err(Error::BackgroundTaskFailure));
    // a later open on the dead session
    let mut open = CancellationGuard::new();
    assert_eq!(open.settle::<Vec<u8>>(None, a.cancel_token.is_cancelled()), Some(Err(Error::BackgroundTaskFailure)));
}

#[test]
fn reader_reads_only_what_was_submitted() {
    let (mut task, _) = ReadTask::new();
    assert_eq!(task.on_wait(3), ReaderAction::ReadPacket);
    assert_eq!(task.on_packet(Ok(())), ReaderAction::ReadPacket);
    assert_eq!(task.on_packet(Ok(())), ReaderAction::ReadPacket);
    assert_eq!(task.on_packet(Ok(())), ReaderAction::WaitForRequests);
    assert!(!task.is_terminated());
    assert_eq!(task.on_wait(0), ReaderAction::Exit);
    assert_eq!(task.ended, Some(Termination::Clean));
}

#[test]
fn errors_retryable_only_when_remote() {
    assert!(Error::Remote(2).is_retryable());
    assert!(!Error::BackgroundTaskFailure.is_retryable());
    assert!(!Error::Transport.is_retryable());
}

#[test]
fn cached_id_is_taken_once() {
    let mut c: IdCache<u32> = IdCache::new();
    assert_eq!(c.take_id(), None);
    c.cache_id(4);
    assert_eq!(c.take_id(), Some(4));
    assert_eq!(c.take_id(), None);
}

#[test]
fn paths_join_against_cwd() {
    let mut fs: Fs<(), u32> = Fs::new((), "/home/u".to_string());
    assert_eq!(fs.cwd(), "/home/u");
    assert_eq!(fs.concat_path_if_needed("/tmp"), "/tmp");
    assert_eq!(fs.concat_path_if_needed("docs"), "/home/u/docs");
    fs.set_cwd("/srv/".to_string());
    assert_eq!(fs.concat_path_if_needed("a/b"), "/srv/a/b");
    fs.set_cwd(String::new());
    assert_eq!(fs.concat_path_if_needed("x"), "x");
}

#[test]
fn dir_open_read_close_leaves_no_handle() {
    let mut fs: Fs<u8, u32> = Fs::new(9, "/".to_string());
    let path = fs.concat_path_if_needed("tmp");
    assert_eq!(path, "/tmp");
    let id = fs.ids.take_id();
    assert_eq!(id, None);
    fs.ids.cache_id(1);
    let dir = Dir::new(fs.write_end, vec![0, 0, 0, 1]);
    assert_eq!(dir.0.handle(), &[0, 0, 0, 1]);
    let (w, h) = dir.close();
    assert_eq!((w, h), (9, vec![0, 0, 0, 1]));
    let handle = OwnedHandle::new(3u8, vec![5]);
    assert_eq!(handle.close(), (3, vec![5]));
}
