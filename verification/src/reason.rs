use vstd::prelude::*;

verus! {

/// A reason type that resolves to a stable numeric error code.
///
/// Machine consumers bucket errors by this code (and by category name)
/// rather than by parsing rendered text.
pub trait ErrorCode {
    /// The mathematical value that `error_code` returns. Verified
    /// implementations override this; an implementation outside verified
    /// code leaves it unconstrained.
    open spec fn code_spec(&self) -> int {
        arbitrary()
    }

    fn error_code(&self) -> (c: i32)
        ensures
            c as int == self.code_spec(),
    ;
}

/// Conceptual handling strategy for an error, reported to the caller.
///
/// The core only shapes errors; it never executes a retry loop itself.
#[derive(Debug, Clone, Copy, PartialEq, Eq)]
pub enum ErrStrategy {
    /// Retry the failed operation (with whatever backoff the caller uses).
    Retry,
    /// Silently ignore the error.
    Ignore,
    /// Propagate the error to the caller (the default behaviour).
    Throw,
}

} // verus!
