//! Whether the kernel has a system call, as far as that is known.
use vstd::prelude::*;

use crate::errno::Errnos;

verus! {

/// What is known of a system call.
#[derive(Debug, Clone, Copy, PartialEq, Eq, Structural)]
pub enum Supported {
    /// The call was not made yet.
    Unknown,
    /// The kernel has the call.
    Yes,
    /// The kernel lacks the call.
    No,
}

impl Supported {
    /// The byte that stands for the value.
    pub open spec fn spec_code(self) -> u8 {
        match self {
            Supported::Unknown => 0,
            Supported::Yes => 1,
            Supported::No => 2,
        }
    }

    /// The byte that stands for the value.
    #[verifier::when_used_as_spec(spec_code)]
    pub fn code(self) -> (code: u8)
        ensures
            code == self.code(),
            self == Supported::Unknown <==> code == 0,
            self == Supported::Yes <==> code == 1,
            self == Supported::No <==> code == 2,
    {
        match self {
            Supported::Unknown => 0,
            Supported::Yes => 1,
            Supported::No => 2,
        }
    }

    /// The value that a byte stands for, if it stands for one.
    pub open spec fn spec_from_code(code: u8) -> Option<Supported> {
        if code == Supported::Unknown.code() {
            Some(Supported::Unknown)
        } else if code == Supported::Yes.code() {
            Some(Supported::Yes)
        } else if code == Supported::No.code() {
            Some(Supported::No)
        } else {
            None
        }
    }

    /// The value that a byte stands for, if it stands for one.
    #[verifier::when_used_as_spec(spec_from_code)]
    pub fn from_code(code: u8) -> (r: Option<Supported>)
        ensures
            r == Supported::from_code(code),
            r == Some(Supported::Unknown) <==> code == 0,
            r == Some(Supported::Yes) <==> code == 1,
            r == Some(Supported::No) <==> code == 2,
    {
        match code {
            0 => Some(Supported::Unknown),
            1 => Some(Supported::Yes),
            2 => Some(Supported::No),
            _ => None,
        }
    }
}

/// What one reply of the kernel teaches, where `known` is what was known when the call
/// began and `failure` is the error number that the call failed with, if it failed.
///
/// `None` means that there is nothing to write down.
pub open spec fn spec_verdict(errnos: Errnos, known: Supported, failure: Option<i32>) -> Option<
    Supported,
> {
    if failure == Some(errnos.enosys) {
        Some(Supported::No)
    } else if known == Supported::Unknown {
        Some(Supported::Yes)
    } else {
        None
    }
}

/// What one reply of the kernel teaches, where `known` is what was known when the call
/// began and `failure` is the error number that the call failed with, if it failed.
#[verifier::when_used_as_spec(spec_verdict)]
pub fn verdict(errnos: Errnos, known: Supported, failure: Option<i32>) -> (r: Option<Supported>)
    ensures
        r == verdict(errnos, known, failure),
        r == Some(Supported::No) <==> failure == Some(errnos.enosys),
        r == Some(Supported::Yes) <==> failure != Some(errnos.enosys) && known
            == Supported::Unknown,
        r is None <==> failure != Some(errnos.enosys) && known != Supported::Unknown,
{
    match failure {
        Some(code) if code == errnos.enosys => Some(Supported::No),
        _ => if known == Supported::Unknown {
            Some(Supported::Yes)
        } else {
            None
        },
    }
}

/// The error number that a call is refused with before it is made: `ENOSYS` if the kernel is
/// known to lack the call.
pub open spec fn known_missing(errnos: Errnos, known: Supported) -> Option<i32> {
    if known == Supported::No {
        Some(errnos.enosys)
    } else {
        None
    }
}

/// A [`Supported`] that threads share.
///
/// Only the three codes of [`Supported`] are ever written to the byte.
#[derive(Debug)]
pub struct AtomicSupported(std::sync::atomic::AtomicU8);

impl AtomicSupported {
    /// The shared byte itself. Its contents change under the eyes of other threads and are
    /// no part of it.
    pub closed spec fn byte(&self) -> std::sync::atomic::AtomicU8 {
        self.0
    }

    /// A shared value that starts as `supported`: its byte is a new one that starts as the
    /// code of `supported`.
    pub fn new(supported: Supported) -> (shared: Self)
        ensures
            call_ensures(std::sync::atomic::AtomicU8::new, (supported.code(),), shared.byte()),
    {
        AtomicSupported(std::sync::atomic::AtomicU8::new(supported.code()))
    }

    /// The value. Which one it is depends on what other threads have stored: it is the one
    /// that the byte stands for at the time.
    ///
    /// A byte that stands for no value cannot come up; it would count as nothing known.
    pub fn load(&self) -> (supported: Supported)
        ensures
            exists|code: u8|
                call_ensures(
                    std::sync::atomic::AtomicU8::load,
                    (&self.byte(), std::sync::atomic::Ordering::Relaxed),
                    code,
                ) && supported == match Supported::from_code(code) {
                    Some(s) => s,
                    None => Supported::Unknown,
                },
    {
        let code: u8 = self.0.load(std::sync::atomic::Ordering::Relaxed);
        match Supported::from_code(code) {
            Some(supported) => supported,
            None => Supported::Unknown,
        }
    }

    /// Writes a value: the byte is set to the code of `supported`.
    pub fn store(&self, supported: Supported)
        ensures
            call_ensures(
                std::sync::atomic::AtomicU8::store,
                (&self.byte(), supported.code(), std::sync::atomic::Ordering::Relaxed),
                (),
            ),
    {
        self.0.store(supported.code(), std::sync::atomic::Ordering::Relaxed);
    }
}

} // verus!
