use vstd::prelude::*;

verus! {

/// The part of the process that gave up.
#[derive(Debug, Clone, Copy, PartialEq, Eq, Structural)]
pub enum Component {
    Discovery,
    Exporter,
    Supervisor,
}

/// An error that ends the process.
pub struct FatalError {
    pub component: Component,
    pub message: String,
}

/// The exit status of a process that stops on a fatal error.
pub const FATAL_EXIT_STATUS: i32 = 1;

/// What the process ends with, given the first fatal error that came (`None` when every
/// sender went away without one): the error to report and the exit status.
pub fn fatal_exit(received: Option<FatalError>) -> (r: (FatalError, i32))
    ensures
        r.1 == FATAL_EXIT_STATUS,
        received matches Some(e) ==> r.0.component == e.component && r.0.message@ == e.message@,
        received is None ==> r.0.component == Component::Supervisor,
{
    match received {
        Some(e) => (e, FATAL_EXIT_STATUS),
        None => (
            FatalError {
                component: Component::Supervisor,
                message: "error reporting channel closed unexpectedly".to_owned(),
            },
            FATAL_EXIT_STATUS,
        ),
    }
}

} // verus!
