//! The acquisition and teardown protocol an OS backend must follow. Every
//! decision — which calls to make and in what order, what to roll back when
//! one of them fails, what the surfaced error is, and what teardown must
//! release — is taken here; the backend only performs the calls.

use vstd::prelude::*;
use crate::errors::{classify_errno, classify_errno_spec, ShmError};

verus! {

/// Which platform contract governs the named object's lifetime.
#[derive(Clone, Copy, Debug, PartialEq, Eq, Structural)]
pub enum Backend {
    /// The object lives while any process holds a handle to it; teardown is
    /// unmap and close, identical for creator and openers.
    HandleRefcounted,
    /// The object lives until the creator removes its name from the
    /// namespace; teardown is unmap, close, and — for the creator — unlink.
    DescriptorUnlink,
}

/// How a segment is acquired.
#[derive(Clone, Copy, Debug, PartialEq, Eq, Structural)]
pub enum AcquireMode {
    /// Exclusive creation of a new named object.
    Create,
    /// Attach to an object some other instance created.
    Open,
}

/// One OS call of the acquisition protocol.
#[derive(Clone, Copy, Debug, PartialEq, Eq, Structural)]
pub enum OsCall {
    /// Create the named object exclusively; fails when the name is taken.
    CreateObject,
    /// Open the already-existing named object; fails when there is none.
    OpenObject,
    /// Size the fresh object to the configured capacity.
    SetSize,
    /// Map the object's bytes read-write into this process.
    MapView,
}

/// The calls a backend must make, in order, to acquire a segment. Only the
/// descriptor backend sizes the object in a separate call; the refcounted
/// backend sizes it at creation.
pub open spec fn acquire_calls_spec(backend: Backend, mode: AcquireMode) -> Seq<OsCall> {
    match (backend, mode) {
        (Backend::DescriptorUnlink, AcquireMode::Create) => seq![
            OsCall::CreateObject,
            OsCall::SetSize,
            OsCall::MapView,
        ],
        (Backend::DescriptorUnlink, AcquireMode::Open) => seq![OsCall::OpenObject, OsCall::MapView],
        (Backend::HandleRefcounted, AcquireMode::Create) => seq![
            OsCall::CreateObject,
            OsCall::MapView,
        ],
        (Backend::HandleRefcounted, AcquireMode::Open) => seq![OsCall::OpenObject, OsCall::MapView],
    }
}

/// The acquisition plan as a backend walks it.
pub fn acquire_calls(backend: Backend, mode: AcquireMode) -> (calls: Vec<OsCall>)
    ensures
        calls@ == acquire_calls_spec(backend, mode),
{
    let mut calls: Vec<OsCall> = Vec::new();
    if mode == AcquireMode::Create {
        calls.push(OsCall::CreateObject);
        if backend == Backend::DescriptorUnlink {
            calls.push(OsCall::SetSize);
        }
    } else {
        calls.push(OsCall::OpenObject);
    }
    calls.push(OsCall::MapView);
    proof {
        assert(calls@ =~= acquire_calls_spec(backend, mode));
    }
    calls
}

/// What a backend must do when an acquisition call fails: the error to
/// surface and the rollback of everything acquired by the calls before it.
#[derive(Clone, Copy, Debug, PartialEq, Eq, Structural)]
pub struct FailureResponse {
    /// The error surfaced to the caller, classified from the OS code.
    pub error: ShmError,
    /// Close the descriptor or handle the first call produced.
    pub close_resource: bool,
    /// Remove the name an exclusive create put in the namespace.
    pub unlink_name: bool,
}

/// The rollback and the surfaced error when the call after `completed`
/// successful calls fails with the raw OS code `code`. Acquisition is atomic
/// to the caller: everything already acquired is released before the error
/// surfaces, so no descriptor, handle, or name ever leaks on a failure path.
pub fn on_acquire_failure(backend: Backend, mode: AcquireMode, completed: usize, code: i32) -> (r:
    FailureResponse)
    ensures
        r.error == classify_errno_spec(code),
        r.close_resource == (completed > 0),
        r.unlink_name == (completed > 0 && backend == Backend::DescriptorUnlink && mode
            == AcquireMode::Create),
{
    FailureResponse {
        error: classify_errno(code),
        close_resource: completed > 0,
        unlink_name: completed > 0 && backend == Backend::DescriptorUnlink && mode
            == AcquireMode::Create,
    }
}

/// What teardown must release for a mapped segment.
#[derive(Clone, Copy, Debug, PartialEq, Eq, Structural)]
pub struct TeardownPlan {
    /// Unmap the process's view of the region.
    pub unmap_view: bool,
    /// Close the descriptor or handle.
    pub close_resource: bool,
    /// Remove the name from the system namespace, so later opens fail.
    pub unlink_name: bool,
}

/// Teardown for a mapped segment: always unmap the view and close the
/// resource; remove the name exactly when this instance created the object
/// under the descriptor backend. Openers never unlink, and the refcounted
/// backend never unlinks — there the object is gone once every holder has
/// dropped.
pub fn teardown_plan(backend: Backend, is_creator: bool) -> (p: TeardownPlan)
    ensures
        p.unmap_view,
        p.close_resource,
        p.unlink_name == (backend == Backend::DescriptorUnlink && is_creator),
{
    TeardownPlan {
        unmap_view: true,
        close_resource: true,
        unlink_name: backend == Backend::DescriptorUnlink && is_creator,
    }
}

} // verus!
