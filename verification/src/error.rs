use vstd::prelude::*;
use vstd::string::StringExecFns;

use crate::context::{
    ctx_text, CallContext, ContextAdd, CtxView, OperationContext, Outcome,
};
use crate::domain::DomainReason;
use crate::reason::ErrorCode;
use crate::text::{append_dec, append_int, dec_int, dec_nat};
use crate::universal::{code_of, uvs_text, ReasonView, UvsReason};

verus! {

/// The two-tier reason of a structured error: either a shared universal
/// category, or a case of the calling module's own reason type `T`.
#[derive(Debug, Clone, PartialEq)]
pub enum StructReason<T> {
    Universal(UvsReason),
    Domain(T),
}

/// Spec-level model of a `StructReason`: the universal arm is modelled by
/// its view, the domain arm by the domain value itself.
pub enum StructReasonView<T> {
    Universal(ReasonView),
    Domain(T),
}

impl<T> View for StructReason<T> {
    type V = StructReasonView<T>;

    open spec fn view(&self) -> StructReasonView<T> {
        match self {
            StructReason::Universal(u) => StructReasonView::Universal(u@),
            StructReason::Domain(d) => StructReasonView::Domain(*d),
        }
    }
}

/// The code of a two-tier reason: the universal table for the universal arm,
/// the domain type's own code for the domain arm.
pub open spec fn union_code<T: ErrorCode>(r: StructReasonView<T>) -> int {
    match r {
        StructReasonView::Universal(u) => code_of(u),
        StructReasonView::Domain(d) => d.code_spec(),
    }
}

/// The rendered text of a two-tier reason.
pub open spec fn union_text<T: DomainReason>(r: StructReasonView<T>) -> Seq<char> {
    match r {
        StructReasonView::Universal(u) => uvs_text(u),
        StructReasonView::Domain(d) => d.text_spec(),
    }
}

impl<T: ErrorCode> ErrorCode for StructReason<T> {
    open spec fn code_spec(&self) -> int {
        union_code(self@)
    }

    fn error_code(&self) -> (c: i32) {
        match self {
            StructReason::Universal(u) => u.error_code(),
            StructReason::Domain(d) => d.error_code(),
        }
    }
}

/// Spec-level model of a `StructError`.
pub struct ErrorView<T> {
    pub reason: StructReasonView<T>,
    pub detail: Option<Seq<char>>,
    pub position: Option<Seq<char>>,
    pub context: Seq<CtxView>,
}

/// A structured error: a two-tier reason, free-form diagnostic text, an
/// optional source coordinate, and the ordered stack of context frames
/// pushed by the call frames the error travelled through (oldest first).
#[derive(Debug, Clone, PartialEq)]
pub struct StructError<T> {
    pub reason: StructReason<T>,
    pub detail: Option<String>,
    pub position: Option<String>,
    pub context: Vec<OperationContext>,
}

impl<T> View for StructError<T> {
    type V = ErrorView<T>;

    open spec fn view(&self) -> ErrorView<T> {
        ErrorView {
            reason: self.reason@,
            detail: self.detail.deep_view(),
            position: self.position.deep_view(),
            context: self.context.deep_view(),
        }
    }
}

/// The displayed target of an error: the target label of the innermost
/// context frame that set one. A frame without a target label leaves the
/// displayed target of the frames below it visible.
pub open spec fn target_of(ctxs: Seq<CtxView>) -> Option<Seq<char>>
    decreases ctxs.len(),
{
    if ctxs.len() == 0 {
        None
    } else {
        match ctxs.last().target {
            Some(t) => Some(t),
            None => target_of(ctxs.drop_last()),
        }
    }
}

impl<T: ErrorCode> ErrorCode for StructError<T> {
    open spec fn code_spec(&self) -> int {
        union_code(self@.reason)
    }

    fn error_code(&self) -> (c: i32) {
        self.reason.error_code()
    }
}

impl<T> StructError<T> {
    /// Assemble an error from its four parts.
    pub fn new(
        reason: StructReason<T>,
        detail: Option<String>,
        position: Option<String>,
        context: Vec<OperationContext>,
    ) -> (r: Self)
        ensures
            r.reason == reason,
            r.detail == detail,
            r.position == position,
            r.context == context,
    {
        StructError { reason, detail, position, context }
    }

    /// Wrap a module-specific reason; no detail, position or context yet.
    pub fn from_domain(reason: T) -> (r: Self)
        ensures
            r@.reason == StructReasonView::<T>::Domain(reason),
            r@.detail is None,
            r@.position is None,
            r@.context == Seq::<CtxView>::empty(),
    {
        let r = StructError {
            reason: StructReason::Domain(reason),
            detail: None,
            position: None,
            context: Vec::new(),
        };
        proof {
            assert(r@.context =~= Seq::<CtxView>::empty());
        }
        r
    }

    /// Wrap a universal reason; no detail, position or context yet.
    pub fn from_universal(reason: UvsReason) -> (r: Self)
        ensures
            r@.reason == StructReasonView::<T>::Universal(reason@),
            r@.detail is None,
            r@.position is None,
            r@.context == Seq::<CtxView>::empty(),
    {
        let r = StructError {
            reason: StructReason::Universal(reason),
            detail: None,
            position: None,
            context: Vec::new(),
        };
        proof {
            assert(r@.context =~= Seq::<CtxView>::empty());
        }
        r
    }

    /// Attach a source coordinate; a later call replaces an earlier one.
    pub fn with_position(self, position: &str) -> (r: Self)
        ensures
            r@ == (ErrorView { position: Some(position@), ..self@ }),
    {
        StructError {
            reason: self.reason,
            detail: self.detail,
            position: Some(position.to_owned()),
            context: self.context,
        }
    }

    /// Attach free-form diagnostic text; a later call replaces an earlier
    /// one.
    pub fn with_detail(self, detail: &str) -> (r: Self)
        ensures
            r@ == (ErrorView { detail: Some(detail@), ..self@ }),
    {
        StructError {
            reason: self.reason,
            detail: Some(detail.to_owned()),
            position: self.position,
            context: self.context,
        }
    }

    /// Append a fully formed set of key/value facts as a new, targetless
    /// context frame.
    pub fn with_context(self, context: CallContext) -> (r: Self)
        ensures
            r@ == (ErrorView {
                context: self@.context.push(
                    CtxView {
                        target: None,
                        items: context@,
                        outcome: Outcome::Fail,
                        exit_log: false,
                    },
                ),
                ..self@
            }),
    {
        let mut ctxs = self.context;
        ctxs.push(
            OperationContext { target: None, context, outcome: Outcome::Fail, exit_log: false },
        );
        let r = StructError {
            reason: self.reason,
            detail: self.detail,
            position: self.position,
            context: ctxs,
        };
        proof {
            assert(r@.context =~= self@.context.push(
                CtxView { target: None, items: context@, outcome: Outcome::Fail, exit_log: false },
            ));
        }
        r
    }

    /// This error as the `Err` arm of a result.
    pub fn err<V>(self) -> (r: Result<V, Self>)
        ensures
            r == Result::<V, Self>::Err(self),
    {
        Err(self)
    }

    /// The displayed target: the innermost context frame's label wins.
    pub fn target(&self) -> (r: Option<String>)
        ensures
            r.deep_view() == target_of(self@.context),
    {
        let n = self.context.len();
        proof {
            assert(self@.context.take(n as int) =~= self@.context);
        }
        let mut i: usize = n;
        while i > 0
            invariant
                i <= n,
                n == self.context.len(),
                self@.context.len() == n,
                target_of(self@.context.take(i as int)) == target_of(self@.context),
            decreases i,
        {
            proof {
                assert(self@.context.take(i as int).drop_last() =~= self@.context.take(
                    i - 1 as int,
                ));
                assert(self@.context.take(i as int).last() == self@.context[i - 1 as int]);
            }
            match &self.context[i - 1].target {
                Some(t) => {
                    return Some(t.clone());
                },
                None => {},
            }
            i -= 1;
        }
        proof {
            assert(self@.context.take(0) =~= Seq::<CtxView>::empty());
        }
        None
    }

    pub fn reason(&self) -> (r: &StructReason<T>)
        ensures
            r == &self.reason,
    {
        &self.reason
    }

    pub fn detail(&self) -> (r: &Option<String>)
        ensures
            r == &self.detail,
    {
        &self.detail
    }

    pub fn context(&self) -> (r: &Vec<OperationContext>)
        ensures
            r == &self.context,
    {
        &self.context
    }
}

/// One rendered context frame of the context stack, 0-indexed.
pub open spec fn frame_text(c: CtxView, idx: int) -> Seq<char> {
    "context "@ + dec_nat(idx) + ": \n"@ + ctx_text(c) + "\n"@
}

/// The rendered context stack, oldest frame first.
pub open spec fn stack_text(ctxs: Seq<CtxView>) -> Seq<char>
    decreases ctxs.len(),
{
    if ctxs.len() == 0 {
        Seq::<char>::empty()
    } else {
        stack_text(ctxs.drop_last()) + frame_text(ctxs.last(), ctxs.len() - 1)
    }
}

/// The canonical rendered form of a structured error: the bracketed code
/// and reason text, then one indented line each for position, displayed
/// target and detail when present, then the context stack when non-empty.
pub open spec fn error_text<T: DomainReason + ErrorCode>(v: ErrorView<T>) -> Seq<char> {
    "["@ + dec_int(union_code(v.reason)) + "] "@ + union_text(v.reason) + (match v.position {
        Some(p) => "\n  -> At: "@ + p,
        None => Seq::<char>::empty(),
    }) + (match target_of(v.context) {
        Some(t) => "\n  -> Want: "@ + t,
        None => Seq::<char>::empty(),
    }) + (match v.detail {
        Some(d) => "\n  -> Details: "@ + d,
        None => Seq::<char>::empty(),
    }) + (if v.context.len() > 0 {
        "\n  -> Context stack:\n"@ + stack_text(v.context)
    } else {
        Seq::<char>::empty()
    })
}

impl<T: DomainReason + ErrorCode> StructError<T> {
    /// Render this error in its canonical display form. The text is a pure
    /// function of the error value, so rendering the same value twice
    /// yields identical text.
    #[verifier::rlimit(60)]
    pub fn to_text(&self) -> (r: String)
        ensures
            r@ == error_text(self@),
    {
        let mut s = String::new();
        s.append("[");
        append_int(&mut s, self.error_code());
        s.append("] ");
        match &self.reason {
            StructReason::Universal(u) => {
                let t = u.text();
                s.append(t.as_str());
            },
            StructReason::Domain(d) => {
                let t = d.text();
                s.append(t.as_str());
            },
        }
        let ghost mut t = "["@ + dec_int(union_code(self@.reason)) + "] "@ + union_text(
            self@.reason,
        );
        assert(s@ =~= t);
        match &self.position {
            Some(p) => {
                s.append("\n  -> At: ");
                s.append(p.as_str());
            },
            None => {},
        }
        proof {
            t = t + (match self@.position {
                Some(p) => "\n  -> At: "@ + p,
                None => Seq::<char>::empty(),
            });
            assert(s@ =~= t);
        }
        let tgt = self.target();
        match &tgt {
            Some(t0) => {
                s.append("\n  -> Want: ");
                s.append(t0.as_str());
            },
            None => {},
        }
        proof {
            t = t + (match target_of(self@.context) {
                Some(w) => "\n  -> Want: "@ + w,
                None => Seq::<char>::empty(),
            });
            assert(s@ =~= t);
        }
        match &self.detail {
            Some(d) => {
                s.append("\n  -> Details: ");
                s.append(d.as_str());
            },
            None => {},
        }
        proof {
            t = t + (match self@.detail {
                Some(d) => "\n  -> Details: "@ + d,
                None => Seq::<char>::empty(),
            });
            assert(s@ =~= t);
        }
        let n = self.context.len();
        if n > 0 {
            s.append("\n  -> Context stack:\n");
            let mut i: usize = 0;
            while i < n
                invariant
                    i <= n,
                    n == self.context.len(),
                    self@.context.len() == n,
                    s@ == t + "\n  -> Context stack:\n"@ + stack_text(self@.context.take(i as int)),
                decreases n - i,
            {
                s.append("context ");
                append_dec(&mut s, i as u64);
                s.append(": \n");
                let ct = self.context[i].to_text();
                s.append(ct.as_str());
                s.append("\n");
                proof {
                    assert(self@.context.take(i + 1 as int).drop_last() =~= self@.context.take(
                        i as int,
                    ));
                    assert(self@.context.take(i + 1 as int).last() == self@.context[i as int]);
                    assert(s@ =~= t + "\n  -> Context stack:\n"@ + stack_text(
                        self@.context.take(i + 1 as int),
                    ));
                }
                i += 1;
            }
            proof {
                assert(self@.context.take(n as int) =~= self@.context);
                assert(s@ =~= error_text(self@));
            }
        } else {
            proof {
                assert(s@ =~= error_text(self@));
            }
        }
        s
    }
}

/// How a re-typed error relates to its source: detail, position and context
/// move unchanged; a universal reason is copied verbatim into the universal
/// arm of the result; a domain reason goes through the `From` mapping.
pub open spec fn converted<R1, R2: From<R1>>(e: StructError<R1>, r: StructError<R2>) -> bool {
    &&& r.detail == e.detail
    &&& r.position == e.position
    &&& r.context == e.context
    &&& (e.reason matches StructReason::Universal(u) ==> r.reason == StructReason::<
        R2,
    >::Universal(u))
    &&& (e.reason matches StructReason::Domain(d) ==> {
        &&& r.reason is Domain
        &&& (<R2 as vstd::std_specs::convert::FromSpec<R1>>::obeys_from_spec()
            ==> r.reason == StructReason::<R2>::Domain(
            <R2 as vstd::std_specs::convert::FromSpec<R1>>::from_spec(d),
        ))
    })
}

/// Re-type an error from one domain reason type to another. The universal
/// arm is never downgraded into module-specific semantics: callers above a
/// module boundary can still classify the failure from the universal
/// category alone.
pub fn convert_error<R1, R2: From<R1>>(other: StructError<R1>) -> (r: StructError<R2>)
    ensures
        converted(other, r),
{
    match other.reason {
        StructReason::Universal(u) => StructError {
            reason: StructReason::Universal(u),
            detail: other.detail,
            position: other.position,
            context: other.context,
        },
        StructReason::Domain(d) => StructError {
            reason: StructReason::Domain(R2::from(d)),
            detail: other.detail,
            position: other.position,
            context: other.context,
        },
    }
}

impl<T> From<T> for StructError<T> {
    fn from(value: T) -> (r: Self) {
        StructError {
            reason: StructReason::Domain(value),
            detail: None,
            position: None,
            context: Vec::new(),
        }
    }
}

impl<T> vstd::std_specs::convert::FromSpecImpl<T> for StructError<T> {
    open spec fn obeys_from_spec() -> bool {
        false
    }

    open spec fn from_spec(value: T) -> Self {
        arbitrary()
    }
}

/// Read-only access to the parts of a structured error that generic
/// handling code needs.
pub trait StructErrorTrait<T>: Sized {
    spec fn reason_view(&self) -> StructReasonView<T>;

    spec fn detail_view(&self) -> Option<Seq<char>>;

    spec fn target_view(&self) -> Option<Seq<char>>;

    fn get_reason(&self) -> (r: &StructReason<T>)
        ensures
            r@ == self.reason_view(),
    ;

    fn get_detail(&self) -> (r: Option<&String>)
        ensures
            r.deep_view() == self.detail_view(),
    ;

    fn get_target(&self) -> (r: Option<String>)
        ensures
            r.deep_view() == self.target_view(),
    ;
}

impl<T> StructErrorTrait<T> for StructError<T> {
    open spec fn reason_view(&self) -> StructReasonView<T> {
        self@.reason
    }

    open spec fn detail_view(&self) -> Option<Seq<char>> {
        self@.detail
    }

    open spec fn target_view(&self) -> Option<Seq<char>> {
        target_of(self@.context)
    }

    fn get_reason(&self) -> (r: &StructReason<T>) {
        &self.reason
    }

    fn get_detail(&self) -> (r: Option<&String>) {
        self.detail.as_ref()
    }

    fn get_target(&self) -> (r: Option<String>) {
        self.target()
    }
}

impl<T> ContextAdd<&OperationContext> for StructError<T> {
    open spec fn added(pre: Self, val: &OperationContext, post: Self) -> bool {
        post@ == (ErrorView { context: pre@.context.push(val@), ..pre@ })
    }

    fn add_context(&mut self, val: &OperationContext) {
        self.context.push(val.clone());
        proof {
            assert(final(self)@.context =~= old(self)@.context.push(val@));
        }
    }
}

impl<T> ContextAdd<OperationContext> for StructError<T> {
    open spec fn added(pre: Self, val: OperationContext, post: Self) -> bool {
        post@ == (ErrorView { context: pre@.context.push(val@), ..pre@ })
    }

    fn add_context(&mut self, val: OperationContext) {
        self.context.push(val);
        proof {
            assert(final(self)@.context =~= old(self)@.context.push(val@));
        }
    }
}

} // verus!
