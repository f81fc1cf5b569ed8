//! Pending control-flow signals, the evaluation context that holds them, and
//! the expressions that raise them.
use vstd::prelude::*;

use crate::diag::{SourceDiagnostic, Span};
use crate::value::Value;

verus! {

/// A control flow event that occurred during evaluation.
#[derive(Debug, PartialEq)]
pub enum FlowEvent {
    /// Stop iteration in a loop.
    Break(Span),
    /// Skip the remainder of the current iteration in a loop.
    Continue(Span),
    /// Stop execution of a function early, optionally returning an explicit
    /// value.
    Return(Span, Option<Value>),
}

impl FlowEvent {
    /// The place where the event was raised.
    pub open spec fn span_of(&self) -> Span {
        match self {
            FlowEvent::Break(s) => *s,
            FlowEvent::Continue(s) => *s,
            FlowEvent::Return(s, _) => *s,
        }
    }

    /// The message reported for the event where nothing can consume it.
    pub open spec fn forbidden_message(&self) -> Seq<char> {
        match self {
            FlowEvent::Break(_) => "cannot break outside of loop"@,
            FlowEvent::Continue(_) => "cannot continue outside of loop"@,
            FlowEvent::Return(..) => "cannot return outside of function"@,
        }
    }

    /// Return an error stating that this control flow is forbidden.
    pub fn forbidden(&self) -> (r: SourceDiagnostic)
        ensures
            r.span == self.span_of(),
            r.message@ == self.forbidden_message(),
    {
        match self {
            FlowEvent::Break(span) => SourceDiagnostic::error(*span, "cannot break outside of loop"),
            FlowEvent::Continue(span) => SourceDiagnostic::error(
                *span,
                "cannot continue outside of loop",
            ),
            FlowEvent::Return(span, _) => SourceDiagnostic::error(
                *span,
                "cannot return outside of function",
            ),
        }
    }
}

/// A name bound to a value in a scope.
#[derive(Debug)]
pub struct Binding {
    pub name: String,
    pub value: Value,
}

/// The mutable state of an evaluation: the single slot for a pending flow
/// event, and the stack of binding scopes (innermost last).
#[derive(Debug)]
pub struct Vm {
    pub flow: Option<FlowEvent>,
    pub scopes: Vec<Vec<Binding>>,
}

impl Vm {
    /// A context with nothing pending and one empty scope.
    pub fn new() -> (r: Vm)
        ensures
            r.flow is None,
            r.scopes@.len() == 1,
            r.scopes@[0]@.len() == 0,
    {
        let mut scopes: Vec<Vec<Binding>> = Vec::new();
        scopes.push(Vec::new());
        Vm { flow: None, scopes }
    }

    /// Open a new, empty innermost scope.
    pub fn enter_scope(&mut self)
        ensures
            final(self).flow == old(self).flow,
            final(self).scopes@.len() == old(self).scopes@.len() + 1,
            final(self).scopes@.drop_last() == old(self).scopes@,
            final(self).scopes@.last()@.len() == 0,
    {
        self.scopes.push(Vec::new());
    }

    /// Close the innermost scope, releasing its bindings.
    pub fn exit_scope(&mut self)
        ensures
            final(self).flow == old(self).flow,
            final(self).scopes@ == (if old(self).scopes@.len() == 0 {
                old(self).scopes@
            } else {
                old(self).scopes@.drop_last()
            }),
    {
        self.scopes.pop();
    }

    /// Bind `name` to `value` in the innermost scope; a later binding of the
    /// same name hides an earlier one.
    pub fn define(&mut self, name: String, value: Value)
        requires
            old(self).scopes@.len() > 0,
        ensures
            final(self).flow == old(self).flow,
            final(self).scopes@.len() == old(self).scopes@.len(),
            final(self).scopes@.drop_last() == old(self).scopes@.drop_last(),
            final(self).scopes@.last()@ == old(self).scopes@.last()@.push(
                Binding { name, value },
            ),
    {
        let mut top = self.scopes.pop().unwrap();
        top.push(Binding { name, value });
        self.scopes.push(top);
    }

    /// Evaluate `break`: raise the event unless one is pending already.
    pub fn eval_break(&mut self, span: Span) -> (r: Value)
        ensures
            r is Empty,
            final(self).scopes == old(self).scopes,
            final(self).flow == (if old(self).flow is None {
                Some(FlowEvent::Break(span))
            } else {
                old(self).flow
            }),
    {
        if self.flow.is_none() {
            self.flow = Some(FlowEvent::Break(span));
        }
        Value::Empty
    }

    /// Evaluate `continue`: raise the event unless one is pending already.
    pub fn eval_continue(&mut self, span: Span) -> (r: Value)
        ensures
            r is Empty,
            final(self).scopes == old(self).scopes,
            final(self).flow == (if old(self).flow is None {
                Some(FlowEvent::Continue(span))
            } else {
                old(self).flow
            }),
    {
        if self.flow.is_none() {
            self.flow = Some(FlowEvent::Continue(span));
        }
        Value::Empty
    }

    /// Evaluate `return`, whose operand (if any) has been evaluated to
    /// `value`: raise the event unless one is pending already.
    pub fn eval_return(&mut self, span: Span, value: Option<Value>) -> (r: Value)
        ensures
            r is Empty,
            final(self).scopes == old(self).scopes,
            final(self).flow == (if old(self).flow is None {
                Some(FlowEvent::Return(span, value))
            } else {
                old(self).flow
            }),
    {
        if self.flow.is_none() {
            self.flow = Some(FlowEvent::Return(span, value));
        }
        Value::Empty
    }
}

/// Which part of a conditional runs.
#[derive(Clone, Copy, Debug, PartialEq, Eq, Structural)]
pub enum Branch {
    /// The `if` body.
    If,
    /// The `else` body.
    Else,
    /// Neither: the conditional yields the empty value.
    Neither,
}

/// Decide a conditional whose condition evaluated to `condition`.
pub fn conditional(condition: bool, has_else: bool) -> (r: Branch)
    ensures
        r == (if condition {
            Branch::If
        } else if has_else {
            Branch::Else
        } else {
            Branch::Neither
        }),
{
    if condition {
        Branch::If
    } else if has_else {
        Branch::Else
    } else {
        Branch::Neither
    }
}

/// Whether a loop stops after inspecting the pending event `flow`:
/// a break or a return stops it, a continue or nothing lets it go on.
pub open spec fn stops(flow: Option<FlowEvent>) -> bool {
    match flow {
        Some(FlowEvent::Break(_)) => true,
        Some(FlowEvent::Return(..)) => true,
        _ => false,
    }
}

/// What remains pending after a loop has inspected `flow`: a break and a
/// continue are consumed, a return is left for the enclosing function.
pub open spec fn settled(flow: Option<FlowEvent>) -> Option<FlowEvent> {
    match flow {
        Some(FlowEvent::Return(..)) => flow,
        _ => None,
    }
}

/// Inspect the pending event after a loop body ran; consume a break or a
/// continue. Returns whether the loop stops.
pub fn settle_flow(flow: &mut Option<FlowEvent>) -> (stop: bool)
    ensures
        stop == stops(*old(flow)),
        *final(flow) == settled(*old(flow)),
{
    let stop = match flow {
        Some(FlowEvent::Break(_)) => true,
        Some(FlowEvent::Continue(_)) => false,
        Some(FlowEvent::Return(..)) => true,
        None => false,
    };
    if !(matches!(flow, Some(FlowEvent::Return(..)))) {
        *flow = None;
    }
    stop
}

/// The pending event after a loop ends: the event saved on entry, if there
/// was one, else whatever the loop left.
pub open spec fn restored(saved: Option<FlowEvent>, current: Option<FlowEvent>) -> Option<
    FlowEvent,
> {
    if saved is Some {
        saved
    } else {
        current
    }
}

/// After a body has run, a break stops the loop and is consumed, a continue
/// is consumed and the loop goes on, and a return stops the loop and, where
/// nothing was pending when the loop was entered, is what remains pending,
/// with its span and value unchanged.
pub proof fn loop_signal_protocol(saved: Option<FlowEvent>, span: Span, value: Option<Value>)
    requires
        saved is None,
    ensures
        stops(Some(FlowEvent::Break(span))),
        restored(saved, settled(Some(FlowEvent::Break(span)))) is None,
        !stops(Some(FlowEvent::Continue(span))),
        settled(Some(FlowEvent::Continue(span))) is None,
        stops(Some(FlowEvent::Return(span, value))),
        restored(saved, settled(Some(FlowEvent::Return(span, value)))) == Some(
            FlowEvent::Return(span, value),
        ),
{
}

/// Put back the event that was pending when a loop was entered.
pub fn restore_flow(vm: &mut Vm, saved: Option<FlowEvent>)
    ensures
        final(vm).flow == restored(saved, old(vm).flow),
        final(vm).scopes == old(vm).scopes,
{
    if saved.is_some() {
        vm.flow = saved;
    }
}

} // verus!
