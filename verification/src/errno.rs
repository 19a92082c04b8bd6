//! The error numbers that steer the decisions. What is said of them here is said of Linux, the
//! only system that has the two calls.
use vstd::prelude::*;

verus! {

/// The error numbers that mean something to this crate, as the machine numbers them.
///
/// Linux does not number errors alike on every architecture, so the numbers are values
/// that every decision takes along.
#[derive(Debug, Clone, Copy, PartialEq, Eq, Structural)]
pub struct Errnos {
    /// The kernel lacks the call.
    pub enosys: i32,
    /// The buffer was too small for the handle.
    pub eoverflow: i32,
    /// An argument was invalid.
    pub einval: i32,
}

impl Errnos {
    /// Each of the numbers is one that some Linux architecture uses for its error.
    pub open spec fn is_linux(self) -> bool {
        &&& self.enosys == 38 || self.enosys == 89 || self.enosys == 90
        &&& self.eoverflow == 75 || self.eoverflow == 79 || self.eoverflow == 92
        &&& self.einval == 22
    }

    /// The numbers are those that `libc` gives on the machine that this runs on.
    pub closed spec fn is_host(self) -> bool {
        &&& call_ensures(enosys, (), self.enosys)
        &&& call_ensures(eoverflow, (), self.eoverflow)
        &&& call_ensures(einval, (), self.einval)
    }

    /// The numbers of the machine that this runs on.
    pub fn host() -> (errnos: Errnos)
        ensures
            errnos.is_host(),
            errnos.is_linux(),
            errnos.enosys == 38 || errnos.enosys == 89 || errnos.enosys == 90,
            errnos.eoverflow == 75 || errnos.eoverflow == 79 || errnos.eoverflow == 92,
            errnos.einval == 22,
    {
        Errnos { enosys: enosys(), eoverflow: eoverflow(), einval: einval() }
    }
}

/// The number of `ENOSYS`, from the constant `libc::ENOSYS`.
///
/// Which number it is depends on the architecture. Trusted: on Linux `libc` gives it as
/// 89 on MIPS, 90 on SPARC, and 38 everywhere else.
#[verifier::external_body]
fn enosys() -> (code: i32)
    ensures
        code == 38 || code == 89 || code == 90,
{
    libc::ENOSYS
}

/// The number of `EOVERFLOW`, from the constant `libc::EOVERFLOW`.
///
/// Which number it is depends on the architecture. Trusted: on Linux `libc` gives it as
/// 79 on MIPS, 92 on SPARC, and 75 everywhere else.
#[verifier::external_body]
fn eoverflow() -> (code: i32)
    ensures
        code == 75 || code == 79 || code == 92,
{
    libc::EOVERFLOW
}

/// The number of `EINVAL`, from the constant `libc::EINVAL`.
///
/// Trusted: on Linux `libc` gives it as 22 on every architecture.
#[verifier::external_body]
fn einval() -> (code: i32)
    ensures
        code == 22,
{
    libc::EINVAL
}

/// Numbers of the host are those that the C library's constants gave, each under its own name.
proof fn host_numbers_come_from_libc(errnos: Errnos)
    requires
        errnos.is_host(),
    ensures
        call_ensures(enosys, (), errnos.enosys),
        call_ensures(eoverflow, (), errnos.eoverflow),
        call_ensures(einval, (), errnos.einval),
{
}

} // verus!
