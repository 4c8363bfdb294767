//! The capability guard: the read-only check, made once before any fork,
//! that the process holds both elevated capabilities it needs. The probe of
//! the live capability set is the one trusted call; the verdict on the two
//! probe results is verified exactly.

use vstd::prelude::*;
use crate::errors::{CapabilityKind, Error, PermissionError};

verus! {

/// Relies on caps::has_cap: reads whether the named capability is in the
/// calling process's effective set at this moment. The answer depends on
/// the live process state, so nothing is claimed of it; a failure to read
/// the set is returned as the library's own message.
#[verifier::external_body]
fn probe_effective_cap(kind: CapabilityKind) -> (r: Result<bool, String>) {
    let cap = match kind {
        CapabilityKind::SetIdentity => caps::Capability::CAP_SETUID,
        CapabilityKind::SysAdmin => caps::Capability::CAP_SYS_ADMIN,
    };
    match caps::has_cap(None, caps::CapSet::Effective, cap) {
        Ok(held) => Ok(held),
        Err(e) => Err(format!("{}", e)),
    }
}

/// The guard's verdict on the two probe results: it passes exactly when
/// both capabilities were read successfully and both are held, and each
/// failure names the capability concerned, probe failures first and the
/// identity capability before the administrative one.
pub fn evaluate_guard(setuid: Result<bool, String>, sysadmin: Result<bool, String>) -> (r: Result<
    (),
    PermissionError,
>)
    ensures
        r is Ok <==> (setuid matches Ok(true) && sysadmin matches Ok(true)),
        match (setuid, sysadmin) {
            (Err(m), _) => r matches Err(PermissionError::ProbeFailed(
                CapabilityKind::SetIdentity,
                m2,
            )) && m2 == m,
            (Ok(_), Err(m)) => r matches Err(PermissionError::ProbeFailed(
                CapabilityKind::SysAdmin,
                m2,
            )) && m2 == m,
            (Ok(false), Ok(_)) => r matches Err(PermissionError::Missing(
                CapabilityKind::SetIdentity,
            )),
            (Ok(true), Ok(false)) => r matches Err(PermissionError::Missing(
                CapabilityKind::SysAdmin,
            )),
            (Ok(true), Ok(true)) => r is Ok,
        },
{
    match (setuid, sysadmin) {
        (Err(m), _) => Err(PermissionError::ProbeFailed(CapabilityKind::SetIdentity, m)),
        (Ok(_), Err(m)) => Err(PermissionError::ProbeFailed(CapabilityKind::SysAdmin, m)),
        (Ok(false), Ok(_)) => Err(PermissionError::Missing(CapabilityKind::SetIdentity)),
        (Ok(true), Ok(false)) => Err(PermissionError::Missing(CapabilityKind::SysAdmin)),
        (Ok(true), Ok(true)) => Ok(()),
    }
}

/// The guard itself: probe both capabilities fresh and pass the results to
/// the verified verdict. Read-only; called once, before any fork. Whatever
/// the live set held, a failure is always a permission error, never silence.
pub fn check_perms() -> (r: Result<(), Error>)
    ensures
        r matches Err(e) ==> e is Permission,
{
    let setuid = probe_effective_cap(CapabilityKind::SetIdentity);
    let sysadmin = probe_effective_cap(CapabilityKind::SysAdmin);
    match evaluate_guard(setuid, sysadmin) {
        Ok(()) => Ok(()),
        Err(p) => Err(Error::Permission(p)),
    }
}

} // verus!
