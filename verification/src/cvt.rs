//! From the return value of a system call to a `Result`.
use vstd::prelude::*;

verus! {

/// Declares `std::io::Error` to the verifier. Nothing is claimed of its contents.
#[verifier::external_type_specification]
#[verifier::external_body]
pub struct ExIoError(std::io::Error);

/// A signed integer, which can be compared with -1.
pub trait IsMinusOne: Sized {
    /// The integer as a mathematical number.
    spec fn number(self) -> int;

    /// Whether the integer is -1.
    fn is_minus_one(&self) -> (b: bool)
        ensures
            b == (self.number() == -1),
    ;
}

impl IsMinusOne for i8 {
    open spec fn number(self) -> int {
        self as int
    }

    fn is_minus_one(&self) -> (b: bool) {
        *self == -1
    }
}

impl IsMinusOne for i16 {
    open spec fn number(self) -> int {
        self as int
    }

    fn is_minus_one(&self) -> (b: bool) {
        *self == -1
    }
}

impl IsMinusOne for i32 {
    open spec fn number(self) -> int {
        self as int
    }

    fn is_minus_one(&self) -> (b: bool) {
        *self == -1
    }
}

impl IsMinusOne for i64 {
    open spec fn number(self) -> int {
        self as int
    }

    fn is_minus_one(&self) -> (b: bool) {
        *self == -1
    }
}

impl IsMinusOne for isize {
    open spec fn number(self) -> int {
        self as int
    }

    fn is_minus_one(&self) -> (b: bool) {
        *self == -1
    }
}

/// What a call returned, or the given error if it returned -1.
pub fn cvt_with<T: IsMinusOne, E>(t: T, error: E) -> (r: Result<T, E>)
    ensures
        r == if t.number() == -1 {
            Err::<T, E>(error)
        } else {
            Ok::<T, E>(t)
        },
{
    if t.is_minus_one() {
        Err(error)
    } else {
        Ok(t)
    }
}

/// `std::io::Error::last_os_error`, the last error of this thread's C library.
///
/// Trusted: nothing but that the call returns. The error is the machine's.
pub assume_specification[ std::io::Error::last_os_error ]() -> (error: std::io::Error)
;

/// `std::io::Error::raw_os_error`, the error number that an error carries, if it carries one.
///
/// Trusted: an error that `std::io::Error::last_os_error` returned carries a number. Of other
/// errors nothing is claimed, nor which number it is.
pub assume_specification[ std::io::Error::raw_os_error ](error: &std::io::Error) -> (code: Option<
    i32,
>)
    ensures
        call_ensures(std::io::Error::last_os_error, (), *error) ==> code is Some,
;

/// The error carries an error number.
pub open spec fn has_code(error: std::io::Error) -> bool {
    forall|code: Option<i32>|
        call_ensures(std::io::Error::raw_os_error, (&error,), code) ==> code is Some
}

/// What a call returned, or the last error of this thread's C library if it returned -1.
///
/// To be called right after the call whose return value it takes. Which error comes out
/// is up to the machine, but it carries an error number; [`cvt_with`] states what becomes of
/// it.
pub fn cvt<T: IsMinusOne>(t: T) -> (r: std::io::Result<T>)
    ensures
        r is Err <==> t.number() == -1,
        t.number() != -1 ==> r == Ok::<T, std::io::Error>(t),
        r matches Err(error) ==> call_ensures(std::io::Error::last_os_error, (), error)
            && has_code(error),
{
    cvt_with(t, std::io::Error::last_os_error())
}

/// The code is the error number of a last error of this thread's C library.
pub open spec fn is_last_code(code: i32) -> bool {
    exists|error: std::io::Error|
        call_ensures(std::io::Error::last_os_error, (), error) && #[trigger] call_ensures(
            std::io::Error::raw_os_error,
            (&error,),
            Some(code),
        )
}

/// As [`cvt`], with the error number in place of the error.
pub fn cvt_code<T: IsMinusOne>(t: T) -> (r: Result<T, i32>)
    ensures
        r is Err <==> t.number() == -1,
        t.number() != -1 ==> r == Ok::<T, i32>(t),
        r matches Err(code) ==> is_last_code(code),
{
    match cvt(t) {
        Ok(t) => Ok(t),
        Err(error) => {
            let code: i32 = error.raw_os_error().unwrap();
            assert(call_ensures(std::io::Error::raw_os_error, (&error,), Some(code)));
            Err(code)
        },
    }
}

} // verus!
