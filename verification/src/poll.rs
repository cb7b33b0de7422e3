use vstd::prelude::*;

use crate::error::RuntimeError;

verus! {

/// What a polling loop does after one observation: finish with a result, or
/// sleep for the given number of milliseconds and observe again.
pub enum PollAction<T> {
    Done(Result<T, RuntimeError>),
    Sleep(u64),
}

} // verus!
