//! Error values reported by DPDK calls.

use vstd::prelude::*;

verus! {

/// `nix`'s errno enum, carried through the library as an opaque value.
#[verifier::external_type_specification]
#[verifier::external_body]
pub struct ExErrno(nix::errno::Errno);

/// The `Errno` that `nix` builds from a raw errno number.
pub uninterp spec fn errno_of(raw: i32) -> nix::errno::Errno;

/// Calls `nix::errno::Errno::from_raw`, which maps a raw errno number to
/// its enum variant (unknown numbers map to `UnknownErrno`); the result is
/// a function of the number alone.
#[verifier::external_body]
pub(crate) fn errno_from_raw(raw: i32) -> (e: nix::errno::Errno)
    ensures
        e == errno_of(raw),
{
    nix::errno::Errno::from_raw(raw)
}

/// Turns the return code of a DPDK call into a `Result`: a negative code
/// is a failure reported through `rte_errno` (whose raw value is `errno`),
/// anything else is success.
pub fn check_rte_success(ret: i32, errno: i32) -> (r: Result<(), nix::errno::Errno>)
    ensures
        ret < 0 ==> r == Err::<(), nix::errno::Errno>(errno_of(errno)),
        ret >= 0 ==> r is Ok,
{
    if ret < 0 {
        Err(errno_from_raw(errno))
    } else {
        Ok(())
    }
}

} // verus!
