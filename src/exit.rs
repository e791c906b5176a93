use vstd::prelude::*;

use crate::error::ErrorKind;

verus! {

/// How a call into the host ended.
#[derive(Debug, Clone, Copy, PartialEq, Eq)]
pub enum FuncallExit {
    /// The call returned normally.
    Return,
    /// The call raised a signal.
    Signal,
    /// The call performed a non-local `throw`.
    Throw,
}

/// The result of a host call whose exit status was `exit`.
pub open spec fn exit_result<T>(exit: FuncallExit, result: T) -> Result<T, ErrorKind> {
    match exit {
        FuncallExit::Return => Ok(result),
        FuncallExit::Signal => Err(ErrorKind::Signal),
        FuncallExit::Throw => Err(ErrorKind::Throw),
    }
}

/// Turns what a host call returned, together with how it ended, into a
/// result: the value on a normal return, otherwise the matching error.
pub fn handle_exit<T>(exit: FuncallExit, result: T) -> (r: Result<T, ErrorKind>)
    ensures
        r == exit_result(exit, result),
{
    match exit {
        FuncallExit::Return => Ok(result),
        FuncallExit::Signal => Err(ErrorKind::Signal),
        FuncallExit::Throw => Err(ErrorKind::Throw),
    }
}

} // verus!
