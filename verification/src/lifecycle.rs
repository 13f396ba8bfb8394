//! How a run of the extension ends: what the runtime answers once the
//! message loop has stopped and the initialisation task has finished.

use vstd::prelude::*;

verus! {

/// How the message loop stopped.
pub enum LoopEnd<E> {
    /// The loop ran to its end (the host disconnected) with this result.
    Ran(Result<(), E>),
    /// A shutdown was requested before the loop ended.
    Shutdown,
}

/// Whether a finished initialisation asks for a shutdown: it does exactly
/// when it failed, so that the message loop stops.
pub fn shutdown_after_init<E>(init: &Result<(), E>) -> (r: bool)
    ensures
        r == init is Err,
{
    init.is_err()
}

/// The result of a run. `init` is the outcome of the initialisation task:
/// the outer error when the task itself could not be joined, the inner one
/// when initialisation failed. A failure of initialisation takes precedence;
/// otherwise the loop's own result is answered, and `Ok` after a shutdown.
pub fn run_result<E>(init: Result<Result<(), E>, E>, end: LoopEnd<E>) -> (r: Result<(), E>)
    ensures
        match init {
            Err(e) => r == Err::<(), E>(e),
            Ok(Err(e)) => r == Err::<(), E>(e),
            Ok(Ok(())) => match end {
                LoopEnd::Ran(res) => r == res,
                LoopEnd::Shutdown => r == Ok::<(), E>(()),
            },
        },
{
    match init {
        Err(e) => Err(e),
        Ok(Err(e)) => Err(e),
        Ok(Ok(())) => match end {
            LoopEnd::Ran(res) => res,
            LoopEnd::Shutdown => Ok(()),
        },
    }
}

} // verus!
