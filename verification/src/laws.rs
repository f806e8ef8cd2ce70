use vstd::prelude::*;

use crate::contextual::want_view;
use crate::domain::DomainReason;
use crate::error::{
    converted, error_text, target_of, ErrorView, StructError, StructReason,
};
use crate::reason::ErrorCode;
use crate::universal::{code_of, ConfView, ReasonView, UvsReason};

verus! {

/// Law: the category-to-code table is fixed. Every universal reason maps
/// to the table value of its category, whatever its payload; codes are
/// stable across releases because this mapping has no other inputs.
pub proof fn lemma_code_stability()
    ensures
        forall|m: Seq<char>| code_of(ReasonView::Validation(m)) == 100,
        forall|m: Seq<char>| code_of(ReasonView::Business(m)) == 101,
        forall|m: Seq<char>| code_of(ReasonView::NotFound(m)) == 102,
        forall|m: Seq<char>| code_of(ReasonView::Permission(m)) == 103,
        forall|m: Seq<char>| code_of(ReasonView::Logic(m)) == 104,
        forall|m: Seq<char>, pos: Option<usize>| code_of(ReasonView::Data(m, pos)) == 200,
        forall|m: Seq<char>| code_of(ReasonView::System(m)) == 201,
        forall|m: Seq<char>| code_of(ReasonView::Network(m)) == 202,
        forall|m: Seq<char>| code_of(ReasonView::Resource(m)) == 203,
        forall|m: Seq<char>| code_of(ReasonView::Timeout(m)) == 204,
        forall|c: ConfView| code_of(ReasonView::Config(c)) == 300,
        forall|m: Seq<char>| code_of(ReasonView::External(m)) == 301,
{
}

/// Law: the category-to-code mapping is injective. Two universal reasons
/// with the same code belong to the same category.
pub proof fn lemma_code_injective(r1: ReasonView, r2: ReasonView)
    requires
        code_of(r1) == code_of(r2),
    ensures
        crate::universal::category_of(r1) == crate::universal::category_of(r2),
{
}

/// Law: codes are partitioned into ranges, so a consumer can bucket errors
/// by range alone: 100-199 business-facing, 200-299 infrastructure,
/// 300-399 configuration and external services.
pub proof fn lemma_code_ranges(r: ReasonView)
    ensures
        100 <= code_of(r) <= 301,
        (100 <= code_of(r) < 200) == (r is Validation || r is Business || r is NotFound
            || r is Permission || r is Logic),
        (200 <= code_of(r) < 300) == (r is Data || r is System || r is Network || r is Resource
            || r is Timeout),
        (300 <= code_of(r) < 400) == (r is Config || r is External),
{
}

/// Law: a context frame appended to an error overwrites the displayed
/// target exactly when it carries a target label of its own; a targetless
/// frame leaves the displayed target unchanged.
pub proof fn lemma_with_target_wins<T>(v: ErrorView<T>, c: crate::context::CtxView)
    ensures
        c.target is Some ==> target_of(v.context.push(c)) == c.target,
        c.target is None ==> target_of(v.context.push(c)) == target_of(v.context),
{
    assert(v.context.push(c).last() == c);
    assert(v.context.push(c).drop_last() =~= v.context);
}

/// Law: re-typing never downgrades the universal arm. Whenever a
/// conversion relates a source error carrying a universal reason to its
/// re-typed form, the result carries the very same universal reason.
pub proof fn lemma_convert_preserves_universal<R1, R2: From<R1>>(
    e: StructError<R1>,
    r: StructError<R2>,
    u: UvsReason,
)
    requires
        converted(e, r),
        e.reason == StructReason::<R1>::Universal(u),
    ensures
        r.reason == StructReason::<R2>::Universal(u),
{
}

/// Law: the innermost target label wins. Setting a target label twice in a
/// row leaves the second label as the displayed target, whatever the error
/// looked like before.
pub proof fn lemma_innermost_target_wins<T>(v: ErrorView<T>, a: Seq<char>, b: Seq<char>)
    ensures
        target_of(want_view(want_view(v, a), b).context) == Some(b),
{
    let v1 = want_view(v, a);
    let v2 = want_view(v1, b);
    assert(v2.context.len() > 0);
    assert(v2.context.last().target == Some(b));
}

/// Law: display is deterministic. The rendered text is a function of the
/// error value alone, so equal errors render to byte-identical text.
pub proof fn lemma_display_deterministic<T: DomainReason + ErrorCode>(
    a: ErrorView<T>,
    b: ErrorView<T>,
)
    requires
        a == b,
    ensures
        error_text(a) == error_text(b),
{
}

} // verus!
