use vstd::prelude::*;
use vstd::pervasive::unreached;

verus! {

/// Test-only extraction of a success value. Callers outside verified code
/// that apply it to a failure observe a panic; verified callers must show
/// the value is a success first.
pub trait TestAssert: Sized {
    type Output;

    /// Whether extraction is allowed.
    spec fn assert_ok(self) -> bool;

    /// The extracted value.
    spec fn assert_val(self) -> Self::Output;

    /// Extract the success value.
    fn confirm(self) -> (r: Self::Output)
        requires
            self.assert_ok(),
        ensures
            r == self.assert_val(),
    ;
}

impl<T, E> TestAssert for Result<T, E> {
    type Output = T;

    open spec fn assert_ok(self) -> bool {
        self is Ok
    }

    open spec fn assert_val(self) -> T {
        self->Ok_0
    }

    fn confirm(self) -> (r: T) {
        match self {
            Ok(v) => v,
            Err(_) => unreached(),
        }
    }
}

impl<T> TestAssert for Option<T> {
    type Output = T;

    open spec fn assert_ok(self) -> bool {
        self is Some
    }

    open spec fn assert_val(self) -> T {
        self->0
    }

    fn confirm(self) -> (r: T) {
        match self {
            Some(v) => v,
            None => unreached(),
        }
    }
}

/// As `TestAssert`, but the caller supplies a message naming the failed
/// expectation.
pub trait TestAssertWithMsg<A>: Sized {
    type Output;

    /// Whether extraction is allowed.
    spec fn assert_ok(self) -> bool;

    /// The extracted value.
    spec fn assert_val(self) -> Self::Output;

    /// Extract the success value; `msg` names the expectation.
    fn confirm(self, msg: A) -> (r: Self::Output)
        requires
            self.assert_ok(),
        ensures
            r == self.assert_val(),
    ;
}

impl<'a, T, E> TestAssertWithMsg<&'a str> for Result<T, E> {
    type Output = T;

    open spec fn assert_ok(self) -> bool {
        self is Ok
    }

    open spec fn assert_val(self) -> T {
        self->Ok_0
    }

    fn confirm(self, msg: &'a str) -> (r: T) {
        match self {
            Ok(v) => v,
            Err(_) => unreached(),
        }
    }
}

} // verus!
