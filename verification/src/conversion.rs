use vstd::prelude::*;

use crate::context::CtxView;
use crate::error::{
    convert_error, converted, ErrorView, StructError, StructReasonView,
};

verus! {

/// Re-typing the error arm of a result across a module boundary.
pub trait ErrorConv<T, R>: Sized {
    /// How the re-typed result relates to the original.
    spec fn conv_rel(pre: Self, post: Result<T, StructError<R>>) -> bool;

    fn err_conv(self) -> (r: Result<T, StructError<R>>)
        ensures
            Self::conv_rel(self, r),
    ;
}

impl<T, R1, R2: From<R1>> ErrorConv<T, R2> for Result<T, StructError<R1>> {
    open spec fn conv_rel(pre: Self, post: Result<T, StructError<R2>>) -> bool {
        match pre {
            Ok(v) => post == Result::<T, StructError<R2>>::Ok(v),
            Err(e) => post matches Err(e2) && converted(e, e2),
        }
    }

    fn err_conv(self) -> (r: Result<T, StructError<R2>>) {
        match self {
            Ok(v) => Ok(v),
            Err(e) => Err(convert_error::<R1, R2>(e)),
        }
    }
}

/// Re-typing a structured error itself across a module boundary.
pub trait ConvStructError<R>: Sized {
    /// How the re-typed error relates to the original.
    spec fn conv_rel(pre: Self, post: StructError<R>) -> bool;

    fn conv(self) -> (r: StructError<R>)
        ensures
            Self::conv_rel(self, r),
    ;
}

impl<R1, R2: From<R1>> ConvStructError<R2> for StructError<R1> {
    open spec fn conv_rel(pre: Self, post: StructError<R2>) -> bool {
        converted(pre, post)
    }

    fn conv(self) -> (r: StructError<R2>) {
        convert_error::<R1, R2>(self)
    }
}

/// Wrapping a bare domain reason as a structured error.
pub trait ToStructError<R>: Sized {
    /// The reason value this receiver wraps.
    spec fn reason_val(self) -> R;

    /// Wrap as an error with no detail, position or context.
    fn to_err(self) -> (r: StructError<R>)
        ensures
            r@.reason == StructReasonView::<R>::Domain(self.reason_val()),
            r@.detail is None,
            r@.position is None,
            r@.context == Seq::<CtxView>::empty(),
    ;

    /// Wrap as the `Err` arm of a result.
    fn err_result<T>(self) -> (r: Result<T, StructError<R>>)
        ensures
            r matches Err(e) && {
                &&& e@.reason == StructReasonView::<R>::Domain(self.reason_val())
                &&& e@.detail is None
                &&& e@.position is None
                &&& e@.context == Seq::<CtxView>::empty()
            },
    ;
}

impl<R> ToStructError<R> for R {
    open spec fn reason_val(self) -> R {
        self
    }

    fn to_err(self) -> (r: StructError<R>) {
        StructError::from_domain(self)
    }

    fn err_result<T>(self) -> (r: Result<T, StructError<R>>) {
        Err(StructError::from_domain(self))
    }
}

} // verus!
