use vstd::prelude::*;

verus! {

/// How a finished child ended: by its own exit code, or killed by a signal.
/// A value of this type cannot be both.
#[derive(Clone, Copy, Debug, PartialEq, Eq, Structural)]
pub enum ExitStatus {
    Code(i32),
    Signal(i32),
}

/// The exit code in `s`, if the child exited on its own.
pub open spec fn code_of(s: ExitStatus) -> Option<i32> {
    match s {
        ExitStatus::Code(c) => Some(c),
        ExitStatus::Signal(_) => None,
    }
}

/// The signal in `s`, if one ended the child.
pub open spec fn signal_of(s: ExitStatus) -> Option<i32> {
    match s {
        ExitStatus::Code(_) => None,
        ExitStatus::Signal(n) => Some(n),
    }
}

impl ExitStatus {
    /// Builds the status from what the operating system reports: an exit code,
    /// or the number of the signal that ended the child. Exactly one of the
    /// two is present for a child that has ended.
    pub fn from_parts(code: Option<i32>, signal: Option<i32>) -> (r: ExitStatus)
        requires
            code is Some != signal is Some,
        ensures
            code_of(r) == code,
            signal_of(r) == signal,
    {
        match code {
            Some(c) => ExitStatus::Code(c),
            None => ExitStatus::Signal(signal.unwrap()),
        }
    }

    /// The exit code, if the child exited on its own.
    pub fn code(&self) -> (r: Option<i32>)
        ensures
            r == code_of(*self),
    {
        match *self {
            ExitStatus::Code(c) => Some(c),
            ExitStatus::Signal(_) => None,
        }
    }

    /// The number of the signal that ended the child, if one did.
    pub fn signal(&self) -> (r: Option<i32>)
        ensures
            r == signal_of(*self),
    {
        match *self {
            ExitStatus::Code(_) => None,
            ExitStatus::Signal(n) => Some(n),
        }
    }
}

/// A status carries exactly one of an exit code and a signal.
pub proof fn lemma_code_signal_exclusive(s: ExitStatus)
    ensures
        code_of(s) is Some != signal_of(s) is Some,
{
}

} // verus!
