//! A structured-error composition layer.
//!
//! Independently developed modules each define their own closed set of
//! domain-specific failure reasons, while sharing a common "universal"
//! taxonomy for infrastructure-level failures.  A [`StructError`] couples a
//! two-tier reason ([`StructReason`]) with free-form diagnostic text and an
//! ordered stack of per-call-frame annotations ([`OperationContext`]), and a
//! small conversion algebra re-types an error across module boundaries
//! without losing the universal classification.

mod context;
mod contextual;
mod conversion;
mod domain;
mod error;
mod laws;
mod owe;
mod reason;
mod target;
mod testcase;
mod text;
mod universal;

pub use context::{
    call_items_text, call_text, ctx_text, exit_text, format_ctx, item_line, items_text,
    CallContext, ContextAdd, ContextTake, CtxView, OperationContext, Outcome,
};
pub use context::OperationContext as WithContext;
pub use contextual::{want_view, ErrorWith};
pub use conversion::{ConvStructError, ErrorConv, ToStructError};
pub use domain::{DomainReason, NullReason};
pub use error::{
    convert_error, converted, error_text, frame_text, stack_text, target_of, union_code,
    union_text, ErrorView, StructError, StructErrorTrait, StructReason, StructReasonView,
};
pub use laws::{
    lemma_code_injective, lemma_code_ranges, lemma_code_stability,
    lemma_convert_preserves_universal, lemma_display_deterministic,
    lemma_innermost_target_wins, lemma_with_target_wins,
};
pub use owe::{owe_domain, owe_universal, ErrorOwe};
pub use reason::{ErrStrategy, ErrorCode};
pub use target::CallTarget;
pub use testcase::{TestAssert, TestAssertWithMsg};
pub use text::{dec_int, dec_nat, digit_char};
pub use universal::{
    category_of, code_of, conf_text, payload_text, retryable_of, severe_of, uvs_text,
    ConfErrReason, ConfView, ErrorPayload, ReasonView, UvsBizFrom, UvsConfFrom, UvsDataFrom,
    UvsExternalFrom, UvsLogicFrom, UvsNetFrom, UvsNotFoundFrom, UvsPermissionFrom, UvsReason,
    UvsResFrom, UvsSysFrom, UvsTimeoutFrom, UvsValidationFrom,
};
