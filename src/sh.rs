//! Command dispatching: the exit-status protocol between the launching child
//! and the waiting parent, and the parent's decisions on each wait report.

use vstd::prelude::*;

verus! {

/// Why a dispatch failed, as the caller sees it.
#[derive(Debug, Clone, Copy, PartialEq, Eq, Structural)]
pub enum DispatchError {
    /// A platform error number (errno).
    PlatformErrno(i32),
    /// A failure that carries no error number.
    Unknown,
}

/// The exit status by which the launching child tells the parent how the
/// launch went:
///
/// - `0`: the command was started.
/// - `> 0`: it was not; the code is the error number.
/// - `< 0`: it was not, for a reason that carries no error number.
///
/// The code travels as a process exit status, of which many platforms keep
/// only the low eight bits: an error number above that range, or the `-1`
/// of an error without one, reaches the parent changed.
#[derive(Debug, Clone, Copy, PartialEq, Eq, Structural)]
pub struct ExitProtocol(pub i32);

/// The exit code that stands for a launch error, given its error number if
/// it has one.
pub open spec fn encoded(errno: Option<i32>) -> i32 {
    match errno {
        Some(e) => e,
        None => -1i32,
    }
}

/// The exit code of a launch attempt: `0` if the command was started, else
/// the code of its error.
pub open spec fn launch_code(launched: Result<(), Option<i32>>) -> i32 {
    match launched {
        Ok(()) => 0,
        Err(errno) => encoded(errno),
    }
}

/// What an exit code means to the caller.
pub open spec fn decoded(ec: i32) -> Result<(), DispatchError> {
    if ec == 0 {
        Ok(())
    } else if ec > 0 {
        Err(DispatchError::PlatformErrno(ec))
    } else {
        Err(DispatchError::Unknown)
    }
}

impl ExitProtocol {
    /// The code of a launch that failed with the given error number, or with
    /// none.
    pub fn from_os_error(errno: Option<i32>) -> (r: ExitProtocol)
        ensures
            r.0 == encoded(errno),
    {
        match errno {
            Some(e) => ExitProtocol(e),
            None => ExitProtocol(-1),
        }
    }

    /// The code of a launch attempt: `Ok` if the command was started, else the
    /// error number of the failure, if it has one.
    pub fn from_launch(launched: Result<(), Option<i32>>) -> (r: ExitProtocol)
        ensures
            r.0 == launch_code(launched),
    {
        match launched {
            Ok(()) => ExitProtocol(0),
            Err(errno) => ExitProtocol::from_os_error(errno),
        }
    }

    /// The code as the launching process exits with it.
    pub fn code(self) -> (r: i32)
        ensures
            r == self.0,
    {
        self.0
    }

    /// What the code tells the caller.
    pub fn decode(self) -> (r: Result<(), DispatchError>)
        ensures
            r == decoded(self.0),
            r is Ok <==> self.0 == 0,
            r == Err::<(), DispatchError>(DispatchError::PlatformErrno(self.0)) <==> self.0 > 0,
            r == Err::<(), DispatchError>(DispatchError::Unknown) <==> self.0 < 0,
    {
        if self.0 == 0 {
            Ok(())
        } else if self.0 > 0 {
            Err(DispatchError::PlatformErrno(self.0))
        } else {
            Err(DispatchError::Unknown)
        }
    }
}

/// The error of a failed system call, given its error number if it has one.
pub open spec fn os_error(errno: Option<i32>) -> DispatchError {
    match errno {
        Some(e) => DispatchError::PlatformErrno(e),
        None => DispatchError::Unknown,
    }
}

/// The outcome of a launch attempt as the caller sees it: success for a
/// started command, and for a failed one its error number, or an unknown
/// failure where it has none.
pub open spec fn launch_outcome(launched: Result<(), Option<i32>>) -> Result<(), DispatchError> {
    match launched {
        Ok(()) => Ok(()),
        Err(errno) => Err(os_error(errno)),
    }
}

/// Encoding a launch attempt into an exit code and decoding that code gives
/// back the attempt's outcome, wherever an error number is positive.
pub proof fn lemma_launch_round_trip(launched: Result<(), Option<i32>>)
    requires
        launched matches Err(Some(e)) ==> e > 0,
    ensures
        decoded(launch_code(launched)) == launch_outcome(launched),
{
}

/// The error number of an interrupted call (`EINTR`) on every platform that
/// nix's errno table covers.
pub open spec fn eintr() -> i32 {
    4
}

/// Relies on nix::errno::Errno::EINTR, which nix defines as libc::EINTR: 4 on
/// each of the platforms for which nix has an errno table.
#[verifier::external_body]
fn interrupted_errno() -> (r: i32)
    ensures
        r == eintr(),
{
    nix::errno::Errno::EINTR as i32
}

/// The error that stands for an interrupted dispatch. A child that a signal
/// ended is reported the same way as an interrupted wait.
pub open spec fn interrupted() -> DispatchError {
    DispatchError::PlatformErrno(eintr())
}

impl DispatchError {
    /// The error for an interrupted dispatch.
    pub fn interrupted() -> (r: DispatchError)
        ensures
            r == interrupted(),
    {
        DispatchError::PlatformErrno(interrupted_errno())
    }

    /// The error for a failed system call, given its error number if it has
    /// one.
    pub fn from_os_error(errno: Option<i32>) -> (r: DispatchError)
        ensures
            r == os_error(errno),
    {
        match errno {
            Some(e) => DispatchError::PlatformErrno(e),
            None => DispatchError::Unknown,
        }
    }
}

/// What one wait for the launching child reported.
#[derive(Debug, Clone, Copy, PartialEq, Eq, Structural)]
pub enum WaitEvent {
    /// The child exited normally with this exit code.
    Exited(i32),
    /// A signal ended the child.
    Signaled,
    /// The child changed state without ending (it stopped or continued).
    Other,
    /// The wait itself failed, with this error number if it has one.
    Failed(Option<i32>),
}

/// What the waiting parent does next.
#[derive(Debug, Clone, Copy, PartialEq, Eq)]
pub enum ParentStep {
    /// Wait for the child again.
    WaitAgain,
    /// Stop waiting and return this to the caller.
    Finish(Result<(), DispatchError>),
}

/// The parent's decision on one wait report.
pub open spec fn step_of(event: WaitEvent) -> ParentStep {
    match event {
        WaitEvent::Exited(ec) => ParentStep::Finish(decoded(ec)),
        WaitEvent::Signaled => ParentStep::Finish(Err(interrupted())),
        WaitEvent::Other => ParentStep::WaitAgain,
        WaitEvent::Failed(errno) => ParentStep::Finish(Err(os_error(errno))),
    }
}

/// Decides what the parent does after a wait for the launching child
/// reported `event`: an exit is decoded by the exit-status protocol, a signal
/// counts as an interruption, a failed wait is passed on, and any other
/// change of state means waiting again.
pub fn next_step(event: WaitEvent) -> (r: ParentStep)
    ensures
        r == step_of(event),
        r is WaitAgain <==> event is Other,
{
    match event {
        WaitEvent::Exited(ec) => ParentStep::Finish(ExitProtocol(ec).decode()),
        WaitEvent::Signaled => ParentStep::Finish(Err(DispatchError::interrupted())),
        WaitEvent::Other => ParentStep::WaitAgain,
        WaitEvent::Failed(errno) => ParentStep::Finish(Err(DispatchError::from_os_error(errno))),
    }
}

} // verus!
