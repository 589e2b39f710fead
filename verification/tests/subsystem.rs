use tokio_graceful_shutdown::errors::{PartialShutdownError as FailuresError, SubsystemError};
use tokio_graceful_shutdown::exit_state::{exit_state_of, SubprocessExitState};
use tokio_graceful_shutdown::subsystem::data::{partial_shutdown_result, SubsystemRegistry};
use std::sync::Arc;
use tokio_graceful_shutdown::errors::SubsystemJoinError;
use tokio_graceful_shutdown::subsystem::error_collector::{join_result, ErrorCollector};
use tokio_graceful_shutdown::subsystem::identifier::{IdSource, SubsystemIdentifier};
use tokio_graceful_shutdown::subsystem::partial_shutdown_errors::PartialShutdownError;
use tokio_graceful_shutdown::subsystem::subsystem_builder::DefaultCancelledHook;
use tokio_graceful_shutdown::subsystem::ErrorActions;
use tokio_graceful_shutdown::{ErrorAction, SubsystemBuilder};

#[test]
fn equals_with_itself() {
    let mut source = IdSource::new();
    let identifier1 = SubsystemIdentifier::create(&mut source);
    #[allow(clippy::clone_on_copy)]
    let identifier2 = identifier1.clone();
    assert_eq!(identifier1, identifier2);
}

#[test]
fn does_not_equal_with_others() {
    let mut source = IdSource::new();
    let identifier1 = SubsystemIdentifier::create(&mut source);
    let identifier2 = SubsystemIdentifier::create(&mut source);
    assert_ne!(identifier1, identifier2);
}

#[test]
fn prints_correct_error_messages() {
    assert_eq!(
        PartialShutdownError::SubsystemFailed.to_string(),
        "at least one subsystem returned an error",
    );
    assert_eq!(
        PartialShutdownError::SubsystemNotFound.to_string(),
        "unable to find nested subsystem in given subsystem",
    );
    assert_eq!(
        PartialShutdownError::AlreadyShuttingDown.to_string(),
        "unable to perform partial shutdown, the program is already shutting down",
    );
}

fn two_errors() -> Vec<SubsystemError<String>> {
    vec![
        SubsystemError::Panicked("ABC".into()),
        SubsystemError::Panicked("def".into()),
    ]
}

#[test]
fn error_collector_normal() {
    let mut error_collector = ErrorCollector::<String>::new();

    let received = error_collector.finish(two_errors());
    assert_eq!(
        received.iter().map(|e| e.name()).collect::<Vec<_>>(),
        vec!["ABC", "def"]
    );
}

#[test]
fn tests_normal() {
    let mut error_collector = ErrorCollector::<String>::new();
    assert!(!error_collector.is_finished());

    let received = error_collector.finish(two_errors());
    assert!(error_collector.is_finished());
    assert_eq!(
        received.iter().map(|e| e.name()).collect::<Vec<_>>(),
        vec!["ABC", "def"]
    );
}

#[test]
fn error_collector_double_finish() {
    let mut error_collector = ErrorCollector::<String>::new();

    let received = error_collector.finish(two_errors());
    assert_eq!(
        received.iter().map(|e| e.name()).collect::<Vec<_>>(),
        vec!["ABC", "def"]
    );

    let received = error_collector.finish(vec![]);
    assert_eq!(
        received.iter().map(|e| e.name()).collect::<Vec<_>>(),
        vec!["ABC", "def"]
    );
}

#[test]
fn tests_double_finish() {
    let mut error_collector = ErrorCollector::<String>::new();

    let first = error_collector.finish(two_errors());
    assert_eq!(
        first.iter().map(|e| e.name()).collect::<Vec<_>>(),
        vec!["ABC", "def"]
    );

    // A later finish keeps the first list.
    let second = error_collector.finish(vec![SubsystemError::Panicked("xyz".into())]);
    assert!(Arc::ptr_eq(&first, &second));
    assert_eq!(
        second.iter().map(|e| e.name()).collect::<Vec<_>>(),
        vec!["ABC", "def"]
    );
}

#[test]
fn join_results() {
    assert!(join_result::<String>(Arc::new(vec![])).is_ok());
    match join_result(Arc::new(two_errors())) {
        Err(e @ SubsystemJoinError::SubsystemsFailed(_)) => {
            assert_eq!(e.to_string(), "at least one subsystem returned an error");
            let SubsystemJoinError::SubsystemsFailed(errors) = e;
            assert_eq!(errors.len(), 2);
        }
        Ok(()) => panic!("expected an error"),
    }
}

#[test]
fn prepare_shutdown_does_not_crash_when_called_twice() {
    let mut data = SubsystemRegistry::<&str>::new();

    data.prepare_shutdown();
    data.prepare_shutdown();

    assert!(!data.is_accepting());
}

#[test]
fn registry_refuses_children_during_shutdown() {
    let mut source = IdSource::new();
    let mut data = SubsystemRegistry::<&str>::new();

    let (id1, refused) = data.add_subsystem(&mut source, "first");
    assert_eq!(refused, None);
    data.prepare_shutdown();
    let (id2, refused) = data.add_subsystem(&mut source, "second");
    assert_eq!(refused, Some("second"));
    assert_ne!(id1, id2);

    let taken = data.take_shutdown_subsystems();
    assert_eq!(taken.len(), 1);
    assert_eq!(taken[0].id, id1);
    assert_eq!(taken[0].item, "first");
}

#[test]
fn partial_shutdown_lookup() {
    let mut source = IdSource::new();
    let mut data = SubsystemRegistry::<&str>::new();
    let (id1, _) = data.add_subsystem(&mut source, "one");
    let (id2, _) = data.add_subsystem(&mut source, "two");
    let (id3, _) = data.add_subsystem(&mut source, "three");
    let unknown = SubsystemIdentifier::create(&mut source);
    assert_ne!(id1, id2);
    assert_ne!(id2, id3);
    assert_ne!(id1, id3);

    assert!(matches!(
        data.take_for_partial_shutdown::<String>(unknown),
        Err(FailuresError::SubsystemNotFound)
    ));
    assert!(matches!(data.take_for_partial_shutdown::<String>(id1), Ok("one")));
    // The item is gone afterwards.
    assert!(matches!(
        data.take_for_partial_shutdown::<String>(id1),
        Err(FailuresError::SubsystemNotFound)
    ));
    assert!(matches!(data.take_for_partial_shutdown::<String>(id3), Ok("three")));
    assert!(matches!(data.take_for_partial_shutdown::<String>(id2), Ok("two")));
    assert!(matches!(
        data.take_for_partial_shutdown::<String>(id2),
        Err(FailuresError::SubsystemNotFound)
    ));

    data.prepare_shutdown();
    assert!(matches!(
        data.take_for_partial_shutdown::<String>(id2),
        Err(FailuresError::AlreadyShuttingDown)
    ));
}

#[test]
fn partial_shutdown_result_collects_failures_in_order() {
    let ok: SubprocessExitState<String> = exit_state_of("/a", Ok(()));
    assert_eq!(ok.exit_state, "OK");
    assert_eq!(ok.name, "/a");
    assert!(matches!(partial_shutdown_result(vec![ok]), Ok(())));

    let states: Vec<SubprocessExitState<String>> = vec![
        exit_state_of("/a", Ok(())),
        exit_state_of("/b", Err(SubsystemError::Panicked("/b".into()))),
        exit_state_of("/c", Ok(())),
        exit_state_of("/d", Err(SubsystemError::Cancelled("/d".into()))),
    ];
    assert_eq!(states[1].exit_state, "Panicked");
    assert_eq!(states[3].exit_state, "Cancelled");

    match partial_shutdown_result(states) {
        Err(FailuresError::SubsystemsFailed(errors)) => {
            assert_eq!(
                errors.iter().map(|e| e.name()).collect::<Vec<_>>(),
                vec!["/b", "/d"]
            );
        }
        _ => panic!("expected failures"),
    }

    assert!(matches!(partial_shutdown_result::<String>(vec![]), Ok(())));
}

#[test]
fn builder_defaults_and_settings() {
    let builder = SubsystemBuilder::new("subsys", 42u32);
    assert_eq!(builder.name(), "subsys");
    assert!(!builder.is_detached());
    assert_eq!(
        builder.error_actions(),
        ErrorActions {
            on_failure: ErrorAction::Forward,
            on_panic: ErrorAction::Forward
        }
    );

    let builder = builder
        .on_failure(ErrorAction::CatchAndLocalShutdown)
        .on_panic(ErrorAction::CatchAndLocalShutdown)
        .detached()
        .on_subsystem_cancelled("custom hook");
    let (name, subsystem, actions, detached, hook) = builder.into_parts();
    assert_eq!(name, "subsys");
    assert_eq!(subsystem, 42);
    assert_eq!(actions.on_failure, ErrorAction::CatchAndLocalShutdown);
    assert_eq!(actions.on_panic, ErrorAction::CatchAndLocalShutdown);
    assert!(detached);
    assert_eq!(hook, "custom hook");

    let (_, _, _, _, default_hook) = SubsystemBuilder::new("x", ()).into_parts();
    assert_eq!(default_hook, DefaultCancelledHook);
}
