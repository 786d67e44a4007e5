//! The access check: the arguments handed to the operating system's
//! `access` primitive, and the reading of what it reports.
//!
//! The call itself is made by the caller: `access_call` prepares it,
//! `access_result` reads its outcome. Having permission at the time of the
//! check does not mean having it at the time of use.
use vstd::prelude::*;

use crate::mode_bits::{ModeBits, ALL_MODE_BITS};

verus! {

/// Mask that asks whether the path exists, whatever its permissions.
pub const F_OK: i32 = 0;

/// Mask that asks for read permission.
pub const R_OK: i32 = 0b100;

/// Mask that asks for write permission.
pub const W_OK: i32 = 0b010;

/// Mask that asks for execute permission.
pub const X_OK: i32 = 0b001;

/// The error code with which the access primitive reports that permission is
/// denied (`EACCES`, the same on Linux, macOS, the BSDs and Windows).
pub const EACCES: i32 = 13;

/// The calling convention of the platform's access primitive.
#[derive(Clone, Copy, Debug, PartialEq, Eq, Structural)]
pub enum Platform {
    /// `access(path, mode)`: read, write, execute and existence.
    Unix,
    /// `_access_s(path, mode)`: read, write and existence; no execute.
    Windows,
}

/// Why an access check could not be made or did not succeed.
#[derive(Clone, Copy, Debug, PartialEq, Eq, Structural)]
pub enum AccessError {
    /// The path holds a NUL byte, which the primitive would read as its end.
    NulInPath,
    /// The mask holds a bit other than read, write and execute.
    InvalidMask,
    /// Execute permission was asked for on a platform that cannot check it.
    ExecuteUnsupported,
    /// The operating system reported this error code.
    Os(i32),
}

/// The arguments of one call of the access primitive.
#[derive(Debug)]
pub struct AccessCall {
    /// The path's bytes followed by a single NUL byte.
    pub path: Vec<u8>,
    /// The mask of permissions to check; `F_OK` for existence only.
    pub mode: i32,
}

/// What remains to be done to answer a query.
#[derive(Debug)]
pub enum AccessStep {
    /// The answer is known without asking the operating system.
    Answer(bool),
    /// The answer is what `access_result` makes of this call's outcome.
    Ask(AccessCall),
}

/// Whether `path` holds a NUL byte.
pub open spec fn has_nul(path: Seq<u8>) -> bool {
    exists|i: int| 0 <= i < path.len() && path[i] == 0
}

/// The error, if any, with which a check of `mask` on `path` is refused
/// before it reaches the operating system.
pub open spec fn access_call_error(path: Seq<u8>, mask: i32, platform: Platform) -> Option<
    AccessError,
> {
    if has_nul(path) {
        Some(AccessError::NulInPath)
    } else if mask & !ALL_MODE_BITS != 0 {
        Some(AccessError::InvalidMask)
    } else if platform == Platform::Windows && mask & X_OK != 0 {
        Some(AccessError::ExecuteUnsupported)
    } else {
        None
    }
}

/// Whether `r` is the outcome of preparing a check of `mask` on `path`: the
/// refusal that `access_call_error` gives, or else the path with a NUL byte
/// after it and the mask as it is.
pub open spec fn is_access_call(
    r: Result<AccessCall, AccessError>,
    path: Seq<u8>,
    mask: i32,
    platform: Platform,
) -> bool {
    match r {
        Ok(call) => {
            &&& access_call_error(path, mask, platform) is None
            &&& call.path@ == path.push(0)
            &&& call.mode == mask
        },
        Err(e) => access_call_error(path, mask, platform) == Some(e),
    }
}

/// What an access check answers, given what the operating system reported:
/// `None` where the call succeeded, else its error code.
pub open spec fn spec_access_result(os_error: Option<i32>) -> Result<bool, AccessError> {
    match os_error {
        None => Ok(true),
        Some(code) => if code == EACCES {
            Ok(false)
        } else {
            Err(AccessError::Os(code))
        },
    }
}

/// `path` followed by a NUL byte, or `NulInPath` where `path` already holds
/// one.
pub fn nul_terminated(path: &[u8]) -> (r: Result<Vec<u8>, AccessError>)
    ensures
        r is Ok <==> !has_nul(path@),
        r is Ok ==> r->Ok_0@ == path@.push(0),
        r is Err ==> r->Err_0 == AccessError::NulInPath,
{
    let mut out: Vec<u8> = Vec::new();
    let mut i: usize = 0;
    while i < path.len()
        invariant
            i <= path@.len(),
            out@ == path@.subrange(0, i as int),
            forall|j: int| 0 <= j < i ==> path@[j] != 0,
        decreases path@.len() - i,
    {
        let b = path[i];
        if b == 0 {
            return Err(AccessError::NulInPath);
        }
        out.push(b);
        i = i + 1;
    }
    out.push(0);
    assert(out@ == path@.push(0));
    Ok(out)
}

/// Prepares a check of `mask` on `path` for `platform`.
///
/// Refused with `NulInPath` where the path holds a NUL byte, else with
/// `InvalidMask` where the mask holds a bit other than `R_OK`, `W_OK` and
/// `X_OK`, else with `ExecuteUnsupported` where the mask asks for execute on
/// Windows. A mask of `F_OK` asks whether the path exists.
pub fn access_call(path: &[u8], mask: i32, platform: Platform) -> (r: Result<
    AccessCall,
    AccessError,
>)
    ensures
        is_access_call(r, path@, mask, platform),
{
    let c_path = match nul_terminated(path) {
        Ok(p) => p,
        Err(e) => return Err(e),
    };
    if mask & !ALL_MODE_BITS != 0 {
        return Err(AccessError::InvalidMask);
    }
    if platform == Platform::Windows && mask & X_OK != 0 {
        return Err(AccessError::ExecuteUnsupported);
    }
    Ok(AccessCall { path: c_path, mode: mask })
}

/// Prepares a check of the permissions in `mode` on `path`; `ModeBits::NULL`
/// asks whether the path exists.
pub fn access_call_for(path: &[u8], mode: ModeBits, platform: Platform) -> (r: Result<
    AccessCall,
    AccessError,
>)
    ensures
        is_access_call(r, path@, mode.bits(), platform),
{
    access_call(path, mode.bits(), platform)
}

/// Reads the outcome of an access call: `None` where it succeeded, else the
/// error code it reported.
///
/// Success is `Ok(true)`. Denied permission is `Ok(false)`, an answer and no
/// error. Any other code, a missing path among them, is `Err(Os(code))`.
pub fn access_result(os_error: Option<i32>) -> (r: Result<bool, AccessError>)
    ensures
        r == spec_access_result(os_error),
{
    match os_error {
        None => Ok(true),
        Some(code) => {
            if code == EACCES {
                Ok(false)
            } else {
                Err(AccessError::Os(code))
            }
        },
    }
}

/// The byte `.`, which names the current directory.
pub const DOT: u8 = 0x2e;

/// The directory whose write permission decides whether an entry of it can be
/// created or removed: `parent` itself, or `.` where `parent` is empty, as the
/// parent of a relative path of one component is.
pub open spec fn spec_parent_dir(parent: Seq<u8>) -> Seq<u8> {
    if parent.len() == 0 {
        seq![DOT]
    } else {
        parent
    }
}

/// The step that answers whether a path can be created in, or removed from,
/// the directory `parent`: that is write permission on `parent`, the current
/// directory where `parent` is empty.
///
/// Where there is no parent, the path is a root, which can be neither created
/// nor removed: the answer is `false`.
pub fn parent_write_step(parent: Option<&[u8]>, platform: Platform) -> (r: Result<
    AccessStep,
    AccessError,
>)
    ensures
        parent is None ==> r matches Ok(AccessStep::Answer(false)),
        parent is Some ==> match r {
            Ok(AccessStep::Ask(call)) => is_access_call(
                Ok(call),
                spec_parent_dir(parent->Some_0@),
                W_OK,
                platform,
            ),
            Ok(AccessStep::Answer(_)) => false,
            Err(e) => is_access_call(Err(e), spec_parent_dir(parent->Some_0@), W_OK, platform),
        },
{
    match parent {
        None => Ok(AccessStep::Answer(false)),
        Some(dir) => {
            let current: Vec<u8> = vec![DOT];
            let checked: &[u8] = if dir.len() == 0 {
                current.as_slice()
            } else {
                dir
            };
            assert(checked@ == spec_parent_dir(dir@));
            match access_call(checked, W_OK, platform) {
                Ok(call) => Ok(AccessStep::Ask(call)),
                Err(e) => Err(e),
            }
        },
    }
}

/// An existence-only check (`ModeBits::NULL`) of a path without a NUL byte is
/// prepared on either platform and asks with `F_OK`, whatever the path's
/// permissions; a successful call then answers `true`.
pub proof fn lemma_existence_only(
    path: Seq<u8>,
    platform: Platform,
    r: Result<AccessCall, AccessError>,
)
    requires
        !has_nul(path),
        is_access_call(r, path, ModeBits::Null.bits(), platform),
    ensures
        r is Ok,
        r->Ok_0.mode == F_OK,
        r->Ok_0.path@ == path.push(0),
        spec_access_result(None) == Ok::<bool, AccessError>(true),
{
    assert(0i32 & !7i32 == 0 && 0i32 & 1 == 0) by (bit_vector);
}

/// Denied permission is an answer, `false`, and no error; every other code
/// that the operating system reports, that of a missing path among them,
/// stays an error that carries the code.
pub proof fn lemma_denied_is_not_an_error(code: i32)
    ensures
        spec_access_result(Some(EACCES)) == Ok::<bool, AccessError>(false),
        code != EACCES ==> spec_access_result(Some(code)) == Err::<bool, AccessError>(
            AccessError::Os(code),
        ),
{
}

} // verus!
