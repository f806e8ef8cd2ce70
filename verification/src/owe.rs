use vstd::prelude::*;

use crate::context::CtxView;
use crate::error::{StructError, StructReasonView};
use crate::universal::{ConfView, ReasonView, UvsReason};

verus! {

/// How an `owe_<category>` call relates a foreign result to the structured
/// result: success passes through; a failure message `m` becomes an error
/// whose reason is the universal category built by `mk` from `m` and whose
/// detail is `m` itself.
pub open spec fn owe_universal<T, R>(
    f: Result<T, Seq<char>>,
    r: Result<T, StructError<R>>,
    mk: spec_fn(Seq<char>) -> ReasonView,
) -> bool {
    match f {
        Ok(v) => r == Result::<T, StructError<R>>::Ok(v),
        Err(m) => r matches Err(e) && {
            &&& e@.reason == StructReasonView::<R>::Universal(mk(m))
            &&& e@.detail == Some(m)
            &&& e@.position is None
            &&& e@.context == Seq::<CtxView>::empty()
        },
    }
}

/// As `owe_universal`, but the failure is classified by the given domain
/// reason instead of a universal category.
pub open spec fn owe_domain<T, R>(
    f: Result<T, Seq<char>>,
    reason: R,
    r: Result<T, StructError<R>>,
) -> bool {
    match f {
        Ok(v) => r == Result::<T, StructError<R>>::Ok(v),
        Err(m) => r matches Err(e) && {
            &&& e@.reason == StructReasonView::<R>::Domain(reason)
            &&& e@.detail == Some(m)
            &&& e@.position is None
            &&& e@.context == Seq::<CtxView>::empty()
        },
    }
}

/// Classify a foreign fallible result into a structured error, keeping the
/// foreign failure message as the detail text.
pub trait ErrorOwe<T, R>: Sized {
    /// The foreign result this value stands for: its success value, or its
    /// rendered failure message.
    spec fn foreign(self) -> Result<T, Seq<char>>;

    /// Classify the failure by a caller-chosen domain reason.
    fn owe(self, reason: R) -> (r: Result<T, StructError<R>>)
        ensures
            owe_domain(self.foreign(), reason, r),
    ;

    /// Classify the failure as an internal logic bug.
    fn owe_logic(self) -> (r: Result<T, StructError<R>>)
        ensures
            owe_universal(self.foreign(), r, (|m: Seq<char>| ReasonView::Logic(m))),
    ;

    /// Classify the failure as a business rule violation.
    fn owe_biz(self) -> (r: Result<T, StructError<R>>)
        ensures
            owe_universal(self.foreign(), r, (|m: Seq<char>| ReasonView::Business(m))),
    ;

    /// Classify the failure as a validation failure.
    fn owe_validation(self) -> (r: Result<T, StructError<R>>)
        ensures
            owe_universal(self.foreign(), r, (|m: Seq<char>| ReasonView::Validation(m))),
    ;

    /// Classify the failure as a data failure (no offset).
    fn owe_data(self) -> (r: Result<T, StructError<R>>)
        ensures
            owe_universal(self.foreign(), r, (|m: Seq<char>| ReasonView::Data(m, None))),
    ;

    /// Classify the failure as a core configuration failure.
    fn owe_conf(self) -> (r: Result<T, StructError<R>>)
        ensures
            owe_universal(
                self.foreign(),
                r,
                (|m: Seq<char>| ReasonView::Config(ConfView::Core(m))),
            ),
    ;

    /// Classify the failure as resource exhaustion.
    fn owe_res(self) -> (r: Result<T, StructError<R>>)
        ensures
            owe_universal(self.foreign(), r, (|m: Seq<char>| ReasonView::Resource(m))),
    ;

    /// Classify the failure as a network failure.
    fn owe_net(self) -> (r: Result<T, StructError<R>>)
        ensures
            owe_universal(self.foreign(), r, (|m: Seq<char>| ReasonView::Network(m))),
    ;

    /// Classify the failure as a timeout.
    fn owe_timeout(self) -> (r: Result<T, StructError<R>>)
        ensures
            owe_universal(self.foreign(), r, (|m: Seq<char>| ReasonView::Timeout(m))),
    ;

    /// Classify the failure as a system failure.
    fn owe_sys(self) -> (r: Result<T, StructError<R>>)
        ensures
            owe_universal(self.foreign(), r, (|m: Seq<char>| ReasonView::System(m))),
    ;
}

impl<T, R> ErrorOwe<T, R> for Result<T, String> {
    open spec fn foreign(self) -> Result<T, Seq<char>> {
        match self {
            Ok(v) => Ok(v),
            Err(s) => Err(s@),
        }
    }

    fn owe(self, reason: R) -> (r: Result<T, StructError<R>>) {
        match self {
            Ok(v) => Ok(v),
            Err(s) => Err(StructError::from_domain(reason).with_detail(s.as_str())),
        }
    }

    fn owe_logic(self) -> (r: Result<T, StructError<R>>) {
        match self {
            Ok(v) => Ok(v),
            Err(s) => Err(
                StructError::from_universal(UvsReason::logic_error(s.as_str())).with_detail(
                    s.as_str(),
                ),
            ),
        }
    }

    fn owe_biz(self) -> (r: Result<T, StructError<R>>) {
        match self {
            Ok(v) => Ok(v),
            Err(s) => Err(
                StructError::from_universal(UvsReason::business_error(s.as_str())).with_detail(
                    s.as_str(),
                ),
            ),
        }
    }

    fn owe_validation(self) -> (r: Result<T, StructError<R>>) {
        match self {
            Ok(v) => Ok(v),
            Err(s) => Err(
                StructError::from_universal(UvsReason::validation_error(s.as_str())).with_detail(
                    s.as_str(),
                ),
            ),
        }
    }

    fn owe_data(self) -> (r: Result<T, StructError<R>>) {
        match self {
            Ok(v) => Ok(v),
            Err(s) => Err(
                StructError::from_universal(UvsReason::data_error(s.as_str(), None)).with_detail(
                    s.as_str(),
                ),
            ),
        }
    }

    fn owe_conf(self) -> (r: Result<T, StructError<R>>) {
        match self {
            Ok(v) => Ok(v),
            Err(s) => Err(
                StructError::from_universal(UvsReason::core_conf(s.as_str())).with_detail(
                    s.as_str(),
                ),
            ),
        }
    }

    fn owe_res(self) -> (r: Result<T, StructError<R>>) {
        match self {
            Ok(v) => Ok(v),
            Err(s) => Err(
                StructError::from_universal(UvsReason::resource_error(s.as_str())).with_detail(
                    s.as_str(),
                ),
            ),
        }
    }

    fn owe_net(self) -> (r: Result<T, StructError<R>>) {
        match self {
            Ok(v) => Ok(v),
            Err(s) => Err(
                StructError::from_universal(UvsReason::network_error(s.as_str())).with_detail(
                    s.as_str(),
                ),
            ),
        }
    }

    fn owe_timeout(self) -> (r: Result<T, StructError<R>>) {
        match self {
            Ok(v) => Ok(v),
            Err(s) => Err(
                StructError::from_universal(UvsReason::timeout_error(s.as_str())).with_detail(
                    s.as_str(),
                ),
            ),
        }
    }

    fn owe_sys(self) -> (r: Result<T, StructError<R>>) {
        match self {
            Ok(v) => Ok(v),
            Err(s) => Err(
                StructError::from_universal(UvsReason::system_error(s.as_str())).with_detail(
                    s.as_str(),
                ),
            ),
        }
    }
}

impl<'e, T, R> ErrorOwe<T, R> for Result<T, &'e str> {
    open spec fn foreign(self) -> Result<T, Seq<char>> {
        match self {
            Ok(v) => Ok(v),
            Err(s) => Err(s@),
        }
    }

    fn owe(self, reason: R) -> (r: Result<T, StructError<R>>) {
        match self {
            Ok(v) => Ok(v),
            Err(s) => Err(StructError::from_domain(reason).with_detail(s)),
        }
    }

    fn owe_logic(self) -> (r: Result<T, StructError<R>>) {
        match self {
            Ok(v) => Ok(v),
            Err(s) => Err(
                StructError::from_universal(UvsReason::logic_error(s)).with_detail(s),
            ),
        }
    }

    fn owe_biz(self) -> (r: Result<T, StructError<R>>) {
        match self {
            Ok(v) => Ok(v),
            Err(s) => Err(
                StructError::from_universal(UvsReason::business_error(s)).with_detail(s),
            ),
        }
    }

    fn owe_validation(self) -> (r: Result<T, StructError<R>>) {
        match self {
            Ok(v) => Ok(v),
            Err(s) => Err(
                StructError::from_universal(UvsReason::validation_error(s)).with_detail(s),
            ),
        }
    }

    fn owe_data(self) -> (r: Result<T, StructError<R>>) {
        match self {
            Ok(v) => Ok(v),
            Err(s) => Err(
                StructError::from_universal(UvsReason::data_error(s, None)).with_detail(s),
            ),
        }
    }

    fn owe_conf(self) -> (r: Result<T, StructError<R>>) {
        match self {
            Ok(v) => Ok(v),
            Err(s) => Err(StructError::from_universal(UvsReason::core_conf(s)).with_detail(s)),
        }
    }

    fn owe_res(self) -> (r: Result<T, StructError<R>>) {
        match self {
            Ok(v) => Ok(v),
            Err(s) => Err(
                StructError::from_universal(UvsReason::resource_error(s)).with_detail(s),
            ),
        }
    }

    fn owe_net(self) -> (r: Result<T, StructError<R>>) {
        match self {
            Ok(v) => Ok(v),
            Err(s) => Err(
                StructError::from_universal(UvsReason::network_error(s)).with_detail(s),
            ),
        }
    }

    fn owe_timeout(self) -> (r: Result<T, StructError<R>>) {
        match self {
            Ok(v) => Ok(v),
            Err(s) => Err(
                StructError::from_universal(UvsReason::timeout_error(s)).with_detail(s),
            ),
        }
    }

    fn owe_sys(self) -> (r: Result<T, StructError<R>>) {
        match self {
            Ok(v) => Ok(v),
            Err(s) => Err(
                StructError::from_universal(UvsReason::system_error(s)).with_detail(s),
            ),
        }
    }
}

} // verus!
