use vstd::prelude::*;
use crate::acquire::FailureKind;

verus! {

/// A failed full read, with the step at which it failed.
#[derive(Clone, Copy, Debug, PartialEq, Eq, Structural)]
pub enum ReadFailure {
    /// The resource could not be opened.
    Open(FailureKind),
    /// The resource was opened, but reading it failed.
    Read(FailureKind),
}

impl ReadFailure {
    /// The cause, whatever the step.
    pub open spec fn cause(self) -> FailureKind {
        match self {
            ReadFailure::Open(k) => k,
            ReadFailure::Read(k) => k,
        }
    }

    /// The cause of the failure, with the step forgotten.
    pub fn kind(&self) -> (k: FailureKind)
        ensures
            k == self.cause(),
    {
        match self {
            ReadFailure::Open(k) => *k,
            ReadFailure::Read(k) => *k,
        }
    }

    /// Whether the failure came at the open step.
    pub fn at_open(&self) -> (b: bool)
        ensures
            b <==> (*self is Open),
    {
        match self {
            ReadFailure::Open(_) => true,
            ReadFailure::Read(_) => false,
        }
    }
}

/// The open step of a full read: an opened handle is kept, a failure is
/// marked as one of opening and handed up.
pub fn open_step<H>(opened: Result<H, FailureKind>) -> (r: Result<H, ReadFailure>)
    ensures
        match opened {
            Ok(h) => r == Ok::<H, ReadFailure>(h),
            Err(k) => r == Err::<H, ReadFailure>(ReadFailure::Open(k)),
        },
{
    match opened {
        Ok(h) => Ok(h),
        Err(k) => Err(ReadFailure::Open(k)),
    }
}

/// The read step of a full read: the text read is the result, a failure is
/// marked as one of reading and handed up.
pub fn read_step(read: Result<String, FailureKind>) -> (r: Result<String, ReadFailure>)
    ensures
        match read {
            Ok(t) => r matches Ok(u) && u@ == t@,
            Err(k) => r == Err::<String, ReadFailure>(ReadFailure::Read(k)),
        },
{
    match read {
        Ok(t) => Ok(t),
        Err(k) => Err(ReadFailure::Read(k)),
    }
}

/// The outcome of a full read as the one-shot form reports it: the same text,
/// or the cause of the failure without its step.
pub fn forget_step(outcome: Result<String, ReadFailure>) -> (r: Result<String, FailureKind>)
    ensures
        match outcome {
            Ok(t) => r matches Ok(u) && u@ == t@,
            Err(f) => r == Err::<String, FailureKind>(f.cause()),
        },
{
    match outcome {
        Ok(t) => Ok(t),
        Err(f) => Err(f.kind()),
    }
}

/// A failure to open and a failure to read with the same cause are told apart
/// by the stepwise outcome and look the same once the step is forgotten.
pub proof fn lemma_one_shot_loses_step(k: FailureKind)
    ensures
        ReadFailure::Open(k) != ReadFailure::Read(k),
        ReadFailure::Open(k).cause() == ReadFailure::Read(k).cause(),
{
}

} // verus!
