use tokio_graceful_shutdown::ErrorAction;
use tokio_graceful_shutdown::errors::{
    CancelledByShutdown, GracefulShutdownError, PartialShutdownError, SubsystemError,
    SubsystemErrorKind, SubsystemFailure,
};

type BoxedError = Box<dyn std::error::Error + Send + Sync + 'static>;

#[test]
fn errors_extract_related_from_graceful_shutdown_error() {
    let related = || {
        vec![
            SubsystemError::Cancelled("a".into()),
            SubsystemError::Panicked("b".into()),
        ]
    };

    let matches_related = |data: &Vec<SubsystemError<BoxedError>>| {
        let mut iter = data.iter();

        let elem = iter.next().unwrap();
        assert_eq!(elem.name(), "a");
        assert!(matches!(elem, SubsystemError::Cancelled(_)));

        let elem = iter.next().unwrap();
        assert_eq!(elem.name(), "b");
        assert!(matches!(elem, SubsystemError::Panicked(_)));

        assert!(iter.next().is_none());
    };

    matches_related(GracefulShutdownError::ShutdownTimeout(related()).get_subsystem_errors());
    matches_related(GracefulShutdownError::SubsystemsFailed(related()).get_subsystem_errors());
    matches_related(&GracefulShutdownError::ShutdownTimeout(related()).into_subsystem_errors());
    matches_related(&GracefulShutdownError::SubsystemsFailed(related()).into_subsystem_errors());
}

#[test]
fn tests_extract_related_from_graceful_shutdown_error() {
    let related = || {
        vec![
            SubsystemError::Failed("a".into(), SubsystemFailure(String::from("A").into())),
            SubsystemError::Panicked("b".into()),
        ]
    };

    let matches_related = |data: &[SubsystemError<BoxedError>]| {
        let mut iter = data.iter();

        let elem = iter.next().unwrap();
        assert_eq!(elem.name(), "a");
        assert!(matches!(elem, SubsystemError::Failed(_, _)));

        let elem = iter.next().unwrap();
        assert_eq!(elem.name(), "b");
        assert!(matches!(elem, SubsystemError::Panicked(_)));

        assert!(iter.next().is_none());
    };

    matches_related(GracefulShutdownError::ShutdownTimeout(related()).get_subsystem_errors());
    matches_related(GracefulShutdownError::SubsystemsFailed(related()).get_subsystem_errors());
    matches_related(&GracefulShutdownError::ShutdownTimeout(related()).into_subsystem_errors());
    matches_related(&GracefulShutdownError::SubsystemsFailed(related()).into_subsystem_errors());
}

#[test]
fn errors_extract_contained_error_from_convert_subsystem_failure() {
    let msg = "MyFailure".to_string();
    let failure = SubsystemFailure(msg.clone());

    assert_eq!(&msg, failure.get_error());
    assert_eq!(msg, *failure);
    assert_eq!(msg, failure.into_error());
}

#[test]
fn tests_extract_contained_error_from_convert_subsystem_failure() {
    let msg = "MyFailure".to_string();
    let failure = SubsystemFailure(msg.clone());

    assert_eq!(&msg, failure.get_error());
    assert_eq!(msg, *failure);
    assert_eq!(msg, failure.into_error());
}

#[test]
fn graceful_shutdown_error_messages() {
    assert_eq!(
        GracefulShutdownError::<String>::SubsystemsFailed(vec![]).to_string(),
        "at least one subsystem returned an error"
    );
    assert_eq!(
        GracefulShutdownError::<String>::ShutdownTimeout(vec![]).to_string(),
        "shutdown timed out"
    );
}

#[test]
fn partial_shutdown_error_messages() {
    assert_eq!(
        PartialShutdownError::<String>::SubsystemsFailed(vec![]).to_string(),
        "at least one subsystem returned an error"
    );
    assert_eq!(
        PartialShutdownError::<String>::SubsystemNotFound.to_string(),
        "unable to find nested subsystem in given subsystem"
    );
    assert_eq!(
        PartialShutdownError::<String>::AlreadyShuttingDown.to_string(),
        "unable to perform partial shutdown, the program is already shutting down"
    );
}

#[test]
fn subsystem_error_messages_and_kinds() {
    let failed: SubsystemError<String> =
        SubsystemError::Failed("/a/b".into(), SubsystemFailure("oops".to_string()));
    let cancelled: SubsystemError<String> = SubsystemError::Cancelled("/c".into());
    let panicked: SubsystemError<String> = SubsystemError::Panicked("/d".into());

    assert_eq!(failed.to_string(), "Error in subsystem '/a/b'");
    assert_eq!(cancelled.to_string(), "Subsystem '/c' was aborted");
    assert_eq!(panicked.to_string(), "Subsystem '/d' panicked");

    assert_eq!(failed.kind(), SubsystemErrorKind::Failed);
    assert_eq!(cancelled.kind(), SubsystemErrorKind::Cancelled);
    assert_eq!(panicked.kind(), SubsystemErrorKind::Panicked);

    assert_eq!(failed.name(), "/a/b");
    assert_eq!(cancelled.name(), "/c");
    assert_eq!(panicked.name(), "/d");
}

#[test]
fn derives() {
    let a = ErrorAction::Forward;
    let b = ErrorAction::CatchAndLocalShutdown;

    assert_ne!(a, b.clone());
    assert_ne!(format!("{a:?}"), format!("{b:?}"));
}

#[test]
fn cancelled_by_shutdown_message() {
    assert_eq!(
        CancelledByShutdown.to_string(),
        "A shutdown request caused the cancellation"
    );
}
