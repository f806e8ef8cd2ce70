use vstd::prelude::*;

use crate::context::{CtxView, OperationContext, Outcome};
use crate::error::{ErrorView, StructError};

verus! {

/// The model of `want` on a structured error: open a first context frame
/// with the label when no frame exists yet, else relabel the most recent
/// frame. A call chain can thus refine the displayed target at each layer
/// without building a full context object.
pub open spec fn want_view<T>(v: ErrorView<T>, desc: Seq<char>) -> ErrorView<T> {
    if v.context.len() == 0 {
        ErrorView {
            context: seq![
                CtxView {
                    target: Some(desc),
                    items: Seq::<(Seq<char>, Seq<char>)>::empty(),
                    outcome: Outcome::Fail,
                    exit_log: false,
                },
            ],
            ..v
        }
    } else {
        ErrorView {
            context: v.context.update(
                v.context.len() - 1,
                CtxView { target: Some(desc), ..v.context.last() },
            ),
            ..v
        }
    }
}

/// Annotating a fallible value (or a structured error directly) with a
/// target label, a source position, or a full context frame. On a
/// `Result`, an `Ok` value passes through untouched.
pub trait ErrorWith: Sized {
    /// How the value after `want` relates to the one before.
    spec fn wanted(pre: Self, desc: Seq<char>, post: Self) -> bool;

    /// How the value after `position` relates to the one before.
    spec fn positioned(pre: Self, pos: Seq<char>, post: Self) -> bool;

    /// How the value after `with` relates to the one before.
    spec fn with_added(pre: Self, ctx: CtxView, post: Self) -> bool;

    /// Set the target label of the most recent context frame (opening one
    /// if none exists).
    fn want(self, desc: &str) -> (r: Self)
        ensures
            Self::wanted(self, desc@, r),
    ;

    /// Set the source position.
    fn position(self, pos: &str) -> (r: Self)
        ensures
            Self::positioned(self, pos@, r),
    ;

    /// Append a full context frame.
    fn with(self, ctx: OperationContext) -> (r: Self)
        ensures
            Self::with_added(self, ctx@, r),
    ;
}

impl<T> ErrorWith for StructError<T> {
    open spec fn wanted(pre: Self, desc: Seq<char>, post: Self) -> bool {
        post@ == want_view(pre@, desc)
    }

    open spec fn positioned(pre: Self, pos: Seq<char>, post: Self) -> bool {
        post@ == (ErrorView { position: Some(pos), ..pre@ })
    }

    open spec fn with_added(pre: Self, ctx: CtxView, post: Self) -> bool {
        post@ == (ErrorView { context: pre@.context.push(ctx), ..pre@ })
    }

    fn want(self, desc: &str) -> (r: Self) {
        let mut this = self;
        if this.context.len() == 0 {
            this.context.push(OperationContext::want(desc));
            proof {
                assert(this@.context =~= want_view(self@, desc@).context);
            }
        } else {
            let mut last = this.context.pop().unwrap();
            last.with_want(desc);
            this.context.push(last);
            proof {
                assert(this@.context =~= want_view(self@, desc@).context);
            }
        }
        this
    }

    fn position(self, pos: &str) -> (r: Self) {
        self.with_position(pos)
    }

    fn with(self, ctx: OperationContext) -> (r: Self) {
        let mut this = self;
        this.context.push(ctx);
        proof {
            assert(this@.context =~= self@.context.push(ctx@));
        }
        this
    }
}

impl<T, E: ErrorWith> ErrorWith for Result<T, E> {
    open spec fn wanted(pre: Self, desc: Seq<char>, post: Self) -> bool {
        match pre {
            Ok(v) => post == Result::<T, E>::Ok(v),
            Err(e) => post matches Err(e2) && E::wanted(e, desc, e2),
        }
    }

    open spec fn positioned(pre: Self, pos: Seq<char>, post: Self) -> bool {
        match pre {
            Ok(v) => post == Result::<T, E>::Ok(v),
            Err(e) => post matches Err(e2) && E::positioned(e, pos, e2),
        }
    }

    open spec fn with_added(pre: Self, ctx: CtxView, post: Self) -> bool {
        match pre {
            Ok(v) => post == Result::<T, E>::Ok(v),
            Err(e) => post matches Err(e2) && E::with_added(e, ctx, e2),
        }
    }

    fn want(self, desc: &str) -> (r: Self) {
        match self {
            Ok(v) => Ok(v),
            Err(e) => Err(e.want(desc)),
        }
    }

    fn position(self, pos: &str) -> (r: Self) {
        match self {
            Ok(v) => Ok(v),
            Err(e) => Err(e.position(pos)),
        }
    }

    fn with(self, ctx: OperationContext) -> (r: Self) {
        match self {
            Ok(v) => Ok(v),
            Err(e) => Err(e.with(ctx)),
        }
    }
}

} // verus!
