use vstd::prelude::*;

verus! {

/// Why an operation on a named resource failed, as far as the protocols need
/// to tell causes apart.
#[derive(Clone, Copy, Debug, PartialEq, Eq, Structural)]
pub enum FailureKind {
    NotFound,
    PermissionDenied,
    Other,
}

/// A failure of the acquire-or-create protocol that it does not recover from.
#[derive(Clone, Copy, Debug, PartialEq, Eq, Structural)]
pub enum AcquireFailure {
    /// Opening failed for a reason other than absence; nothing was created.
    OpenFailed(FailureKind),
    /// The resource was absent and creating it failed too.
    CreateFailed(FailureKind),
}

/// What the protocol does once an attempt to open has come back.
#[derive(Debug, PartialEq, Eq)]
pub enum OpenDecision<H> {
    /// The resource was opened: go on with its handle.
    Proceed(H),
    /// The resource is absent: create it.
    Create,
    /// Give up; nothing more is attempted.
    Abort(AcquireFailure),
}

/// First step of acquire-or-create: keep an opened handle, ask for creation
/// when the resource is absent, and give up on any other failure.
pub fn after_open<H>(opened: Result<H, FailureKind>) -> (d: OpenDecision<H>)
    ensures
        match opened {
            Ok(h) => d == OpenDecision::Proceed(h),
            Err(k) => if k == FailureKind::NotFound {
                d == OpenDecision::<H>::Create
            } else {
                d == OpenDecision::<H>::Abort(AcquireFailure::OpenFailed(k))
            },
        },
{
    match opened {
        Ok(h) => OpenDecision::Proceed(h),
        Err(FailureKind::NotFound) => OpenDecision::Create,
        Err(k) => OpenDecision::Abort(AcquireFailure::OpenFailed(k)),
    }
}

/// Second step of acquire-or-create, after the resource was found absent: a
/// created handle is the result; a failed creation is final.
pub fn after_create<H>(created: Result<H, FailureKind>) -> (r: Result<H, AcquireFailure>)
    ensures
        match created {
            Ok(h) => r == Ok::<H, AcquireFailure>(h),
            Err(k) => r == Err::<H, AcquireFailure>(AcquireFailure::CreateFailed(k)),
        },
{
    match created {
        Ok(h) => Ok(h),
        Err(k) => Err(AcquireFailure::CreateFailed(k)),
    }
}

} // verus!
