use vstd::prelude::*;
use vstd::string::StringExecFns;

use crate::text::{append_dec, dec_nat};

verus! {

/// A flat, ordered list of key/value facts recorded during an operation.
/// Duplicate keys are allowed; insertion order is the display order.
#[derive(Debug, PartialEq)]
pub struct CallContext {
    pub items: Vec<(String, String)>,
}

impl View for CallContext {
    type V = Seq<(Seq<char>, Seq<char>)>;

    open spec fn view(&self) -> Seq<(Seq<char>, Seq<char>)> {
        self.items.deep_view()
    }
}

impl DeepView for CallContext {
    type V = Seq<(Seq<char>, Seq<char>)>;

    open spec fn deep_view(&self) -> Seq<(Seq<char>, Seq<char>)> {
        self.view()
    }
}

/// Rendered lines of the key/value facts: one tab-indented line per entry.
pub open spec fn call_items_text(items: Seq<(Seq<char>, Seq<char>)>) -> Seq<char>
    decreases items.len(),
{
    if items.len() == 0 {
        Seq::<char>::empty()
    } else {
        call_items_text(items.drop_last()) + "\t"@ + items.last().0 + " : "@ + items.last().1
            + "\n"@
    }
}

/// Rendered form of a `CallContext`: empty when there are no facts, else a
/// header line followed by one line per fact.
pub open spec fn call_text(items: Seq<(Seq<char>, Seq<char>)>) -> Seq<char> {
    if items.len() == 0 {
        Seq::<char>::empty()
    } else {
        "\ncall context:\n"@ + call_items_text(items)
    }
}

impl CallContext {
    /// Render the facts for display.
    pub fn to_text(&self) -> (r: String)
        ensures
            r@ == call_text(self@),
    {
        let mut s = String::new();
        if self.items.len() > 0 {
            s.append("\ncall context:\n");
            let n = self.items.len();
            let mut i: usize = 0;
            while i < n
                invariant
                    i <= n,
                    n == self.items.len(),
                    self@.len() == n,
                    s@ == "\ncall context:\n"@ + call_items_text(self@.take(i as int)),
                decreases n - i,
            {
                let kv = &self.items[i];
                s.append("\t");
                s.append(kv.0.as_str());
                s.append(" : ");
                s.append(kv.1.as_str());
                s.append("\n");
                proof {
                    assert(self@.take(i + 1 as int).drop_last() =~= self@.take(i as int));
                    assert(self@.take(i + 1 as int).last() == (kv.0@, kv.1@));
                    assert(s@ =~= "\ncall context:\n"@ + call_items_text(
                        self@.take(i + 1 as int),
                    ));
                }
                i += 1;
            }
            proof {
                assert(self@.take(n as int) =~= self@);
            }
        }
        s
    }
}

impl Clone for CallContext {
    fn clone(&self) -> (r: Self)
        ensures
            r.items@ == self.items@,
            r@ == self@,
    {
        let mut out: Vec<(String, String)> = Vec::new();
        let n = self.items.len();
        let mut i: usize = 0;
        while i < n
            invariant
                i <= n,
                n == self.items.len(),
                out@ == self.items@.take(i as int),
            decreases n - i,
        {
            let kv = &self.items[i];
            out.push((kv.0.clone(), kv.1.clone()));
            proof {
                assert(self.items@.take(i + 1 as int) =~= self.items@.take(i as int).push(
                    self.items@[i as int],
                ));
            }
            i += 1;
        }
        proof {
            assert(self.items@.take(n as int) =~= self.items@);
        }
        let r = CallContext { items: out };
        proof {
            assert(r@ =~= self@);
        }
        r
    }
}

impl Default for CallContext {
    fn default() -> (r: Self)
        ensures
            r@ == Seq::<(Seq<char>, Seq<char>)>::empty(),
    {
        let r = CallContext { items: Vec::new() };
        proof {
            assert(r@ =~= Seq::<(Seq<char>, Seq<char>)>::empty());
        }
        r
    }
}

/// The terminal outcome of an operation. It starts as `Fail` and a single
/// transition may take it to `Success` or to `Cancel`; both are terminal.
#[derive(Debug, Clone, Copy, PartialEq, Eq, Structural)]
pub enum Outcome {
    Success,
    Fail,
    Cancel,
}

/// Spec-level model of an `OperationContext`.
pub struct CtxView {
    pub target: Option<Seq<char>>,
    pub items: Seq<(Seq<char>, Seq<char>)>,
    pub outcome: Outcome,
    pub exit_log: bool,
}

/// One call frame's annotations for an in-flight operation: an optional
/// target label (what the operation was trying to do), ordered key/value
/// facts, a terminal outcome flag and an opt-in scope-exit logging flag.
#[derive(Debug, PartialEq)]
pub struct OperationContext {
    pub target: Option<String>,
    pub context: CallContext,
    pub outcome: Outcome,
    pub exit_log: bool,
}

impl View for OperationContext {
    type V = CtxView;

    open spec fn view(&self) -> CtxView {
        CtxView {
            target: self.target.deep_view(),
            items: self.context@,
            outcome: self.outcome,
            exit_log: self.exit_log,
        }
    }
}

impl DeepView for OperationContext {
    type V = CtxView;

    open spec fn deep_view(&self) -> CtxView {
        self.view()
    }
}

/// One rendered fact line of an `OperationContext`, 1-indexed.
pub open spec fn item_line(kv: (Seq<char>, Seq<char>), idx: int) -> Seq<char> {
    dec_nat(idx) + ". "@ + kv.0 + ": "@ + kv.1 + " \n"@
}

/// Rendered fact lines of an `OperationContext`, numbered from `first_idx`.
pub open spec fn items_text(items: Seq<(Seq<char>, Seq<char>)>, first_idx: int) -> Seq<char>
    decreases items.len(),
{
    if items.len() == 0 {
        Seq::<char>::empty()
    } else {
        items_text(items.drop_last(), first_idx) + item_line(
            items.last(),
            first_idx + items.len() - 1,
        )
    }
}

/// Rendered form of an `OperationContext`: the target line when a target is
/// set, then the numbered fact lines.
pub open spec fn ctx_text(c: CtxView) -> Seq<char> {
    (match c.target {
        Some(t) => "target: "@ + t + " \n"@,
        None => Seq::<char>::empty(),
    }) + items_text(c.items, 1)
}

/// One-line summary of an `OperationContext`, used for log messages.
pub open spec fn format_ctx(c: CtxView) -> Seq<char> {
    let t = match c.target {
        Some(t) => t,
        None => Seq::<char>::empty(),
    };
    if c.items.len() == 0 {
        t
    } else {
        t + ": "@ + call_text(c.items)
    }
}

/// The scope-exit log line: the outcome tag followed by the summary.
pub open spec fn exit_text(c: CtxView) -> Seq<char> {
    (match c.outcome {
        Outcome::Success => "suc! "@,
        Outcome::Fail => "fail! "@,
        Outcome::Cancel => "cancel! "@,
    }) + format_ctx(c)
}

impl OperationContext {
    /// An empty context: no target, no facts, outcome not yet successful.
    pub fn new() -> (r: Self)
        ensures
            r@ == (CtxView {
                target: None,
                items: Seq::<(Seq<char>, Seq<char>)>::empty(),
                outcome: Outcome::Fail,
                exit_log: false,
            }),
    {
        let r = OperationContext {
            target: None,
            context: CallContext { items: Vec::new() },
            outcome: Outcome::Fail,
            exit_log: false,
        };
        proof {
            assert(r@.items =~= Seq::<(Seq<char>, Seq<char>)>::empty());
        }
        r
    }

    /// A context opened for a named operation.
    pub fn want(target: &str) -> (r: Self)
        ensures
            r@ == (CtxView {
                target: Some(target@),
                items: Seq::<(Seq<char>, Seq<char>)>::empty(),
                outcome: Outcome::Fail,
                exit_log: false,
            }),
    {
        let r = OperationContext {
            target: Some(target.to_owned()),
            context: CallContext { items: Vec::new() },
            outcome: Outcome::Fail,
            exit_log: false,
        };
        proof {
            assert(r@.items =~= Seq::<(Seq<char>, Seq<char>)>::empty());
        }
        r
    }

    /// Request one summary log line when the scope owning this context ends.
    pub fn with_exit_log(self) -> (r: Self)
        ensures
            r@ == (CtxView { exit_log: true, ..self@ }),
    {
        OperationContext {
            target: self.target,
            context: self.context,
            outcome: self.outcome,
            exit_log: true,
        }
    }

    /// Record one key/value fact.
    pub fn with(&mut self, key: &str, val: &str)
        ensures
            final(self)@ == (CtxView { items: old(self)@.items.push((key@, val@)), ..old(self)@ }),
    {
        self.context.items.push((key.to_owned(), val.to_owned()));
        proof {
            assert(final(self)@.items =~= old(self)@.items.push((key@, val@)));
        }
    }

    /// Record a path-valued fact; the caller renders the path to text.
    pub fn with_path(&mut self, key: &str, val: &str)
        ensures
            final(self)@ == (CtxView { items: old(self)@.items.push((key@, val@)), ..old(self)@ }),
    {
        self.with(key, val);
    }

    /// Set (or replace) the target label.
    pub fn with_want(&mut self, target: &str)
        ensures
            final(self)@ == (CtxView { target: Some(target@), ..old(self)@ }),
    {
        self.target = Some(target.to_owned());
    }

    /// Mark the operation as having succeeded. The outcome only moves out
    /// of its initial `Fail` state; `Success` and `Cancel` are terminal.
    pub fn mark_suc(&mut self)
        ensures
            old(self)@.outcome is Fail ==> final(self)@ == (CtxView {
                outcome: Outcome::Success,
                ..old(self)@
            }),
            !(old(self)@.outcome is Fail) ==> *final(self) == *old(self),
    {
        match self.outcome {
            Outcome::Fail => {
                self.outcome = Outcome::Success;
            },
            _ => {},
        }
    }

    /// Mark the operation as cancelled. The outcome only moves out of its
    /// initial `Fail` state; `Success` and `Cancel` are terminal.
    pub fn mark_cancel(&mut self)
        ensures
            old(self)@.outcome is Fail ==> final(self)@ == (CtxView {
                outcome: Outcome::Cancel,
                ..old(self)@
            }),
            !(old(self)@.outcome is Fail) ==> *final(self) == *old(self),
    {
        match self.outcome {
            Outcome::Fail => {
                self.outcome = Outcome::Cancel;
            },
            _ => {},
        }
    }

    pub fn target(&self) -> (r: &Option<String>)
        ensures
            r.deep_view() == self@.target,
    {
        &self.target
    }

    pub fn context(&self) -> (r: &CallContext)
        ensures
            r@ == self@.items,
    {
        &self.context
    }

    pub fn is_suc(&self) -> (r: bool)
        ensures
            r == (self@.outcome is Success),
    {
        match self.outcome {
            Outcome::Success => true,
            _ => false,
        }
    }

    pub fn outcome(&self) -> (r: Outcome)
        ensures
            r == self@.outcome,
    {
        self.outcome
    }

    pub fn exit_log(&self) -> (r: bool)
        ensures
            r == self@.exit_log,
    {
        self.exit_log
    }

    /// Render this context frame for display.
    pub fn to_text(&self) -> (r: String)
        ensures
            r@ == ctx_text(self@),
    {
        let mut s = String::new();
        match &self.target {
            Some(t) => {
                s.append("target: ");
                s.append(t.as_str());
                s.append(" \n");
            },
            None => {},
        }
        let ghost head = s@;
        proof {
            assert(head =~= (match self@.target {
                Some(t) => "target: "@ + t + " \n"@,
                None => Seq::<char>::empty(),
            }));
        }
        let n = self.context.items.len();
        let mut i: usize = 0;
        while i < n
            invariant
                i <= n,
                n == self.context.items.len(),
                self@.items.len() == n,
                s@ == head + items_text(self@.items.take(i as int), 1),
            decreases n - i,
        {
            let kv = &self.context.items[i];
            append_dec(&mut s, (i + 1) as u64);
            s.append(". ");
            s.append(kv.0.as_str());
            s.append(": ");
            s.append(kv.1.as_str());
            s.append(" \n");
            proof {
                assert(self@.items.take(i + 1 as int).drop_last() =~= self@.items.take(i as int));
                assert(self@.items.take(i + 1 as int).last() == (kv.0@, kv.1@));
                assert(s@ =~= head + items_text(self@.items.take(i + 1 as int), 1));
            }
            i += 1;
        }
        proof {
            assert(self@.items.take(n as int) =~= self@.items);
            assert(s@ =~= ctx_text(self@));
        }
        s
    }

    /// One-line summary of this context, used as the prefix of log lines.
    pub fn format_context(&self) -> (r: String)
        ensures
            r@ == format_ctx(self@),
    {
        let mut s = match &self.target {
            Some(t) => t.clone(),
            None => String::new(),
        };
        if self.context.items.len() > 0 {
            s.append(": ");
            let c = self.context.to_text();
            s.append(c.as_str());
            assert(s@ =~= format_ctx(self@));
        }
        s
    }

    /// The line that a scope guard should emit when the scope ends.
    pub fn exit_line(&self) -> (r: String)
        ensures
            r@ == exit_text(self@),
    {
        let mut s = String::new();
        match self.outcome {
            Outcome::Success => s.append("suc! "),
            Outcome::Fail => s.append("fail! "),
            Outcome::Cancel => s.append("cancel! "),
        }
        let f = self.format_context();
        s.append(f.as_str());
        assert(s@ =~= exit_text(self@));
        s
    }

    fn log_line(&self, message: &str) -> (r: String)
        ensures
            r@ == format_ctx(self@) + ": "@ + message@,
    {
        let mut s = self.format_context();
        s.append(": ");
        s.append(message);
        s
    }

    /// The info-level log line for `message` in this context.
    pub fn info(&self, message: &str) -> (r: String)
        ensures
            r@ == format_ctx(self@) + ": "@ + message@,
    {
        self.log_line(message)
    }

    /// The debug-level log line for `message` in this context.
    pub fn debug(&self, message: &str) -> (r: String)
        ensures
            r@ == format_ctx(self@) + ": "@ + message@,
    {
        self.log_line(message)
    }

    /// The warn-level log line for `message` in this context.
    pub fn warn(&self, message: &str) -> (r: String)
        ensures
            r@ == format_ctx(self@) + ": "@ + message@,
    {
        self.log_line(message)
    }

    /// The error-level log line for `message` in this context.
    pub fn error(&self, message: &str) -> (r: String)
        ensures
            r@ == format_ctx(self@) + ": "@ + message@,
    {
        self.log_line(message)
    }

    /// The trace-level log line for `message` in this context.
    pub fn trace(&self, message: &str) -> (r: String)
        ensures
            r@ == format_ctx(self@) + ": "@ + message@,
    {
        self.log_line(message)
    }
}

impl Clone for OperationContext {
    fn clone(&self) -> (r: Self)
        ensures
            r@ == self@,
    {
        OperationContext {
            target: match &self.target {
                Some(t) => Some(t.clone()),
                None => None,
            },
            context: self.context.clone(),
            outcome: self.outcome,
            exit_log: self.exit_log,
        }
    }
}

/// Record a key/value fact, accepting owned or borrowed text for either
/// side.
pub trait ContextTake<S1, S2>: Sized {
    /// How the context after `take` relates to the context before.
    spec fn taken(pre: Self, key: S1, val: S2, post: Self) -> bool;

    fn take(&mut self, key: S1, val: S2)
        ensures
            Self::taken(*old(self), key, val, *final(self)),
    ;
}

impl ContextTake<&str, &str> for OperationContext {
    open spec fn taken(pre: Self, key: &str, val: &str, post: Self) -> bool {
        post@ == (CtxView { items: pre@.items.push((key@, val@)), ..pre@ })
    }

    fn take(&mut self, key: &str, val: &str) {
        self.with(key, val);
    }
}

impl ContextTake<&str, String> for OperationContext {
    open spec fn taken(pre: Self, key: &str, val: String, post: Self) -> bool {
        post@ == (CtxView { items: pre@.items.push((key@, val@)), ..pre@ })
    }

    fn take(&mut self, key: &str, val: String) {
        self.context.items.push((key.to_owned(), val));
        proof {
            assert(final(self)@.items =~= old(self)@.items.push((key@, val@)));
        }
    }
}

impl ContextTake<String, &str> for OperationContext {
    open spec fn taken(pre: Self, key: String, val: &str, post: Self) -> bool {
        post@ == (CtxView { items: pre@.items.push((key@, val@)), ..pre@ })
    }

    fn take(&mut self, key: String, val: &str) {
        self.context.items.push((key, val.to_owned()));
        proof {
            assert(final(self)@.items =~= old(self)@.items.push((key@, val@)));
        }
    }
}

impl ContextTake<String, String> for OperationContext {
    open spec fn taken(pre: Self, key: String, val: String, post: Self) -> bool {
        post@ == (CtxView { items: pre@.items.push((key@, val@)), ..pre@ })
    }

    fn take(&mut self, key: String, val: String) {
        self.context.items.push((key, val));
        proof {
            assert(final(self)@.items =~= old(self)@.items.push((key@, val@)));
        }
    }
}

/// Absorb a value as additional context.
pub trait ContextAdd<T>: Sized {
    /// How the receiver after `add_context` relates to the one before.
    spec fn added(pre: Self, val: T, post: Self) -> bool;

    fn add_context(&mut self, val: T)
        ensures
            Self::added(*old(self), val, *final(self)),
    ;
}

impl ContextAdd<(&str, &str)> for OperationContext {
    open spec fn added(pre: Self, val: (&str, &str), post: Self) -> bool {
        post@ == (CtxView { items: pre@.items.push((val.0@, val.1@)), ..pre@ })
    }

    fn add_context(&mut self, val: (&str, &str)) {
        self.with(val.0, val.1);
    }
}

impl ContextAdd<(&str, String)> for OperationContext {
    open spec fn added(pre: Self, val: (&str, String), post: Self) -> bool {
        post@ == (CtxView { items: pre@.items.push((val.0@, val.1@)), ..pre@ })
    }

    fn add_context(&mut self, val: (&str, String)) {
        self.context.items.push((val.0.to_owned(), val.1));
        proof {
            assert(final(self)@.items =~= old(self)@.items.push((val.0@, val.1@)));
        }
    }
}

impl ContextAdd<(&str, &String)> for OperationContext {
    open spec fn added(pre: Self, val: (&str, &String), post: Self) -> bool {
        post@ == (CtxView { items: pre@.items.push((val.0@, val.1@)), ..pre@ })
    }

    fn add_context(&mut self, val: (&str, &String)) {
        self.context.items.push((val.0.to_owned(), val.1.clone()));
        proof {
            assert(final(self)@.items =~= old(self)@.items.push((val.0@, val.1@)));
        }
    }
}

impl<'a, 'b> From<(&'a str, &'b str)> for CallContext {
    fn from(value: (&'a str, &'b str)) -> (r: Self) {
        CallContext { items: vec![(value.0.to_owned(), value.1.to_owned())] }
    }
}

impl From<(String, String)> for CallContext {
    fn from(value: (String, String)) -> (r: Self) {
        CallContext { items: vec![(value.0, value.1)] }
    }
}

impl<'a> From<(&'a str, String)> for CallContext {
    fn from(value: (&'a str, String)) -> (r: Self) {
        CallContext { items: vec![(value.0.to_owned(), value.1)] }
    }
}

impl<'a, 'b> vstd::std_specs::convert::FromSpecImpl<(&'a str, &'b str)> for CallContext {
    open spec fn obeys_from_spec() -> bool {
        false
    }

    open spec fn from_spec(value: (&'a str, &'b str)) -> Self {
        arbitrary()
    }
}

impl vstd::std_specs::convert::FromSpecImpl<(String, String)> for CallContext {
    open spec fn obeys_from_spec() -> bool {
        false
    }

    open spec fn from_spec(value: (String, String)) -> Self {
        arbitrary()
    }
}

impl<'a> vstd::std_specs::convert::FromSpecImpl<(&'a str, String)> for CallContext {
    open spec fn obeys_from_spec() -> bool {
        false
    }

    open spec fn from_spec(value: (&'a str, String)) -> Self {
        arbitrary()
    }
}

impl From<CallContext> for OperationContext {
    fn from(value: CallContext) -> (r: Self) {
        OperationContext { target: None, context: value, outcome: Outcome::Fail, exit_log: false }
    }
}

impl vstd::std_specs::convert::FromSpecImpl<CallContext> for OperationContext {
    open spec fn obeys_from_spec() -> bool {
        true
    }

    open spec fn from_spec(value: CallContext) -> Self {
        OperationContext { target: None, context: value, outcome: Outcome::Fail, exit_log: false }
    }
}

impl From<String> for OperationContext {
    fn from(value: String) -> (r: Self) {
        OperationContext {
            target: None,
            context: CallContext::from(("key", value)),
            outcome: Outcome::Fail,
            exit_log: false,
        }
    }
}

impl vstd::std_specs::convert::FromSpecImpl<String> for OperationContext {
    open spec fn obeys_from_spec() -> bool {
        false
    }

    open spec fn from_spec(value: String) -> Self {
        arbitrary()
    }
}

impl<'a> From<&'a str> for OperationContext {
    fn from(value: &'a str) -> (r: Self) {
        OperationContext {
            target: None,
            context: CallContext::from(("key", value)),
            outcome: Outcome::Fail,
            exit_log: false,
        }
    }
}

impl<'a> vstd::std_specs::convert::FromSpecImpl<&'a str> for OperationContext {
    open spec fn obeys_from_spec() -> bool {
        false
    }

    open spec fn from_spec(value: &'a str) -> Self {
        arbitrary()
    }
}

impl<'a, 'b> From<(&'a str, &'b str)> for OperationContext {
    fn from(value: (&'a str, &'b str)) -> (r: Self) {
        OperationContext {
            target: None,
            context: CallContext::from(value),
            outcome: Outcome::Fail,
            exit_log: false,
        }
    }
}

impl<'a, 'b> vstd::std_specs::convert::FromSpecImpl<(&'a str, &'b str)> for OperationContext {
    open spec fn obeys_from_spec() -> bool {
        false
    }

    open spec fn from_spec(value: (&'a str, &'b str)) -> Self {
        arbitrary()
    }
}

impl<'a> From<(&'a str, String)> for OperationContext {
    fn from(value: (&'a str, String)) -> (r: Self) {
        OperationContext {
            target: None,
            context: CallContext::from(value),
            outcome: Outcome::Fail,
            exit_log: false,
        }
    }
}

impl<'a> vstd::std_specs::convert::FromSpecImpl<(&'a str, String)> for OperationContext {
    open spec fn obeys_from_spec() -> bool {
        false
    }

    open spec fn from_spec(value: (&'a str, String)) -> Self {
        arbitrary()
    }
}

impl From<(String, String)> for OperationContext {
    fn from(value: (String, String)) -> (r: Self) {
        OperationContext {
            target: None,
            context: CallContext::from(value),
            outcome: Outcome::Fail,
            exit_log: false,
        }
    }
}

impl vstd::std_specs::convert::FromSpecImpl<(String, String)> for OperationContext {
    open spec fn obeys_from_spec() -> bool {
        false
    }

    open spec fn from_spec(value: (String, String)) -> Self {
        arbitrary()
    }
}

impl<'a> From<&'a OperationContext> for OperationContext {
    fn from(value: &'a OperationContext) -> (r: Self) {
        value.clone()
    }
}

impl<'a> vstd::std_specs::convert::FromSpecImpl<&'a OperationContext> for OperationContext {
    open spec fn obeys_from_spec() -> bool {
        false
    }

    open spec fn from_spec(value: &'a OperationContext) -> Self {
        arbitrary()
    }
}

} // verus!
