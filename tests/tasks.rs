use arta::process::{ChildStatus, ExitStatus};
use arta::error::{ErrorKind, IoError};
use arta::task::{plan_cancel, PanicPayload, TaskPoll};

#[test]
fn cancel_of_finished_task_returns_its_outcome() {
    let c = plan_cancel(TaskPoll::Ready(Ok::<u32, PanicPayload>(7)));
    assert!(!c.abort);
    assert!(matches!(c.outcome, Some(Ok(7))));
}

#[test]
fn cancel_of_panicked_task_returns_the_panic() {
    let c = plan_cancel(TaskPoll::<u32>::Ready(Err(PanicPayload::new("boom".to_string()))));
    assert!(!c.abort);
    match c.outcome {
        Some(Err(p)) => assert_eq!(p.message(), "boom"),
        _ => panic!("the panic must be handed back"),
    }
}

#[test]
fn cancel_of_running_task_aborts_it_and_returns_nothing() {
    let c = plan_cancel(TaskPoll::<u32>::Pending);
    assert!(c.abort);
    assert!(c.outcome.is_none());
}

#[test]
fn spawned_panic_is_contained() {
    let rt = tokio::runtime::Builder::new_current_thread().build().unwrap();
    let joined = rt.block_on(async {
        let handle = tokio::task::spawn(async {
            if true {
                panic!("task failed on purpose");
            }
            1u32
        });
        handle.await
    });
    let err = joined.unwrap_err();
    assert!(err.is_panic());
    let payload = err.into_panic();
    let message = payload.downcast_ref::<&str>().map(|s| s.to_string()).unwrap_or_default();
    let p = PanicPayload::new(message);
    assert_eq!(p.message(), "task failed on purpose");
}

#[test]
fn exit_status_success_is_code_zero() {
    assert!(ExitStatus { code: Some(0), signal: None }.success());
    assert!(!ExitStatus { code: Some(1), signal: None }.success());
    assert!(!ExitStatus { code: None, signal: Some(9) }.success());
    assert_eq!(ExitStatus { code: Some(4), signal: None }.code(), Some(4));
}

#[test]
fn try_status_before_exit_passes_the_probe_through() {
    let mut c = ChildStatus::new();
    assert!(c.needs_probe());
    assert_eq!(c.try_status(Ok(None)).unwrap(), None);
    assert!(c.needs_probe());
    let e = c.try_status(Err(IoError::new(ErrorKind::Interrupted, "again"))).unwrap_err();
    assert_eq!(e.kind(), ErrorKind::Interrupted);
    assert_eq!(c.cached(), None);
}

#[test]
fn try_status_after_exit_is_idempotent() {
    let done = ExitStatus { code: Some(3), signal: None };
    let mut c = ChildStatus::new();
    assert_eq!(c.try_status(Ok(Some(done))).unwrap(), Some(done));
    assert!(!c.needs_probe());
    assert_eq!(c.try_status(Ok(None)).unwrap(), Some(done));
    assert_eq!(c.try_status(Err(IoError::new(ErrorKind::Other, "no child"))).unwrap(), Some(done));
    assert_eq!(c.try_status(Ok(Some(ExitStatus { code: Some(0), signal: None }))).unwrap(), Some(done));
    assert_eq!(c.cached(), Some(done));
}

#[test]
fn wait_status_is_cached_too() {
    let done = ExitStatus { code: None, signal: Some(15) };
    let mut c = ChildStatus::new();
    let e = c.wait_status(Err(IoError::new(ErrorKind::Other, "wait failed"))).unwrap_err();
    assert_eq!(e.message(), "wait failed");
    assert!(c.needs_probe());
    assert_eq!(c.wait_status(Ok(done)).unwrap(), done);
    assert_eq!(c.try_status(Ok(None)).unwrap(), Some(done));
    assert_eq!(c.wait_status(Ok(ExitStatus { code: Some(0), signal: None })).unwrap(), done);
}
