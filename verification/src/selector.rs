//! The backend selector: the policy that picks between the event-driven
//! watcher and the fixed-interval polling watcher, the classification of
//! registration errors into the externally visible error kinds, and the
//! per-path failure policy. The selector only decides; constructing the OS
//! watchers and probing the filesystem happen outside this crate and report
//! their outcomes here as plain values.

use vstd::prelude::*;

use vstd::string::StringExecFns;

verus! {

/// The raw OS error code ("function not implemented") that the event-driven
/// backend historically fails with on platforms that cannot support it.
pub const UNAVAILABLE_BACKEND_OS_CODE: i32 = 38;

/// The two ways of watching a path.
#[derive(Clone, Copy, PartialEq, Eq, Structural, Debug)]
pub enum BackendChoice {
    /// Notifications pushed by the OS.
    EventDriven,
    /// A fixed-interval scan of the watched paths.
    Polling,
}

/// The flavour of an I/O error, as far as classification cares.
#[derive(Clone, Copy, PartialEq, Eq, Structural, Debug)]
pub enum IoErrorKind {
    NotFound,
    PermissionDenied,
    OtherIo,
}

/// A model of the error the OS watcher layer reports when a backend is
/// constructed or a path is registered.
#[derive(Debug)]
pub enum WatchErrorKind {
    /// The backend says the watched path does not exist.
    PathNotFound,
    /// A generic failure carrying only a message.
    Generic(String),
    /// An I/O error, with its flavour and its raw OS code when one exists.
    Io { kind: IoErrorKind, raw_code: Option<i32> },
    /// Anything else.
    Other,
}

/// The externally visible classification of a watch error.
#[derive(Clone, Copy, PartialEq, Eq, Structural, Debug)]
pub enum ErrorClass {
    /// A requested watch root does not exist.
    NotFound,
    /// The OS denied the watch registration.
    PermissionDenied,
    /// Any other OS-level failure, carried as message text by the caller.
    Os,
}

/// The message of the generic error that some platforms report in place of a
/// proper not-found error when a watch path is missing.
pub open spec fn missing_path_message() -> Seq<char> {
    "Input watch path is neither a file nor a directory."@
}

fn missing_path_text() -> (s: &'static str)
    ensures
        s@ == missing_path_message(),
{
    "Input watch path is neither a file nor a directory."
}

/// How a watch error is classified: not-found errors — including the generic
/// variant that spells the missing path out in its message, and I/O
/// not-found — map to `NotFound`; denied registrations to
/// `PermissionDenied`; everything else is a generic OS error.
pub open spec fn spec_error_class(err: WatchErrorKind) -> ErrorClass {
    match err {
        WatchErrorKind::PathNotFound => ErrorClass::NotFound,
        WatchErrorKind::Generic(m) => if m@ == missing_path_message() {
            ErrorClass::NotFound
        } else {
            ErrorClass::Os
        },
        WatchErrorKind::Io { kind, raw_code: _ } => match kind {
            IoErrorKind::NotFound => ErrorClass::NotFound,
            IoErrorKind::PermissionDenied => ErrorClass::PermissionDenied,
            IoErrorKind::OtherIo => ErrorClass::Os,
        },
        WatchErrorKind::Other => ErrorClass::Os,
    }
}

/// Classify a watch error into the error kind shown to the caller.
pub fn error_class(err: &WatchErrorKind) -> (c: ErrorClass)
    ensures
        c == spec_error_class(*err),
{
    match err {
        WatchErrorKind::PathNotFound => ErrorClass::NotFound,
        WatchErrorKind::Generic(m) => {
            let expected = String::from_str(missing_path_text());
            if *m == expected {
                ErrorClass::NotFound
            } else {
                ErrorClass::Os
            }
        },
        WatchErrorKind::Io { kind, raw_code: _ } => match kind {
            IoErrorKind::NotFound => ErrorClass::NotFound,
            IoErrorKind::PermissionDenied => ErrorClass::PermissionDenied,
            IoErrorKind::OtherIo => ErrorClass::Os,
        },
        WatchErrorKind::Other => ErrorClass::Os,
    }
}

/// The backend construction tries first: polling when the caller forces it,
/// otherwise the event-driven watcher.
pub fn initial_backend(force_polling: bool) -> (b: BackendChoice)
    ensures
        b == (if force_polling {
            BackendChoice::Polling
        } else {
            BackendChoice::EventDriven
        }),
{
    if force_polling {
        BackendChoice::Polling
    } else {
        BackendChoice::EventDriven
    }
}

/// Whether a failed event-driven construction silently falls back to the
/// polling backend: only the one known platform limitation does — an I/O
/// error whose raw OS code says the facility is not implemented. Every other
/// construction failure is fatal.
pub open spec fn spec_falls_back(err: WatchErrorKind) -> bool {
    match err {
        WatchErrorKind::Io { kind: _, raw_code } => raw_code == Some(UNAVAILABLE_BACKEND_OS_CODE),
        _ => false,
    }
}

/// Decide failover after the event-driven backend failed to construct.
pub fn falls_back_to_polling(err: &WatchErrorKind) -> (r: bool)
    ensures
        r == spec_falls_back(*err),
{
    match err {
        WatchErrorKind::Io { kind: _, raw_code: Some(code) } => *code
            == UNAVAILABLE_BACKEND_OS_CODE,
        _ => false,
    }
}

/// The polling backend can only watch paths that exist when it is built:
/// with any requested path missing, construction fails immediately as
/// not-found, where the event-driven backend would degrade gracefully.
pub fn polling_precheck(all_paths_exist: bool) -> (r: Result<(), ErrorClass>)
    ensures
        r == (if all_paths_exist {
            Result::<(), ErrorClass>::Ok(())
        } else {
            Result::<(), ErrorClass>::Err(ErrorClass::NotFound)
        }),
{
    if all_paths_exist {
        Ok(())
    } else {
        Err(ErrorClass::NotFound)
    }
}

/// What to do when registering one path fails.
#[derive(Clone, Copy, PartialEq, Eq, Structural, Debug)]
pub enum RegistrationAction {
    /// Leave this path unwatched and register the remaining ones.
    Skip,
    /// Abort construction, surfacing the error's classification.
    Abort(ErrorClass),
}

/// The per-path registration policy: a failure aborts construction with the
/// error's classification, unless the caller asked for failures to be
/// ignored, in which case the path is skipped and registration continues.
pub fn registration_failure_action(err: &WatchErrorKind, ignore_permission_denied: bool) -> (a:
    RegistrationAction)
    ensures
        a == (if ignore_permission_denied {
            RegistrationAction::Skip
        } else {
            RegistrationAction::Abort(spec_error_class(*err))
        }),
{
    if ignore_permission_denied {
        RegistrationAction::Skip
    } else {
        RegistrationAction::Abort(error_class(err))
    }
}

} // verus!
