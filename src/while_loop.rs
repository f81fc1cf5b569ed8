//! The `while` loop, as a machine that is handed the value of the condition
//! and of the body in turn and says what to evaluate next.
use vstd::prelude::*;

use crate::diag::{SourceDiagnostic, Span};
use crate::flow::{restored, settle_flow, settled, stops, restore_flow, FlowEvent, Vm};
use crate::syntax::{always_same, can_diverge, diverges, is_invariant, SyntaxNode};
use crate::value::{join, join_all, join_error, join_spec, Value, ValueView};

verus! {

/// The maximum number of loop iterations.
pub const MAX_ITERATIONS: usize = 10000;

/// What a `while` loop needs next.
#[derive(Clone, Copy, Debug, PartialEq, Eq, Structural)]
pub enum WhileStep {
    /// The value of the condition.
    Condition,
    /// The value of the body.
    Body,
    /// Nothing: the loop has ended.
    Done,
}

/// A `while` loop under evaluation.
pub struct WhileLoop {
    /// The event that was pending when the loop was entered.
    pub saved: Option<FlowEvent>,
    /// The join of the body values so far.
    pub output: Value,
    /// How many times the body has run to completion without stopping.
    pub iterations: usize,
    /// Whether the condition always evaluates to the same value.
    pub condition_invariant: bool,
    /// Whether the body contains a break or a return.
    pub body_diverges: bool,
    pub condition_span: Span,
    pub body_span: Span,
    /// The place of the whole loop.
    pub span: Span,
    pub step: WhileStep,
    /// The body values so far, in order.
    pub history: Ghost<Seq<ValueView>>,
}

impl WhileLoop {
    /// The output is the join of the body values so far, and a body is only
    /// awaited below the iteration cap.
    pub open spec fn wf(&self) -> bool {
        &&& join_all(self.history@) == Some(self.output@)
        &&& self.iterations <= MAX_ITERATIONS
        &&& self.step == WhileStep::Body ==> self.iterations < MAX_ITERATIONS
    }

    /// Whether a true condition now proves the loop endless: on the first
    /// pass, with a condition that never changes and a body that cannot leave.
    pub open spec fn lint_fires(&self) -> bool {
        self.iterations == 0 && self.condition_invariant && !self.body_diverges
    }

    /// Whether `self` has the same condition, body and place as `other`.
    pub open spec fn same_setup(&self, other: &WhileLoop) -> bool {
        &&& self.span == other.span
        &&& self.condition_span == other.condition_span
        &&& self.body_span == other.body_span
        &&& self.condition_invariant == other.condition_invariant
        &&& self.body_diverges == other.body_diverges
    }

    /// Enter a loop: set aside the pending event, so that the loop's own
    /// breaks and continues are told apart from it.
    pub fn start(vm: &mut Vm, condition: &SyntaxNode, body: &SyntaxNode, span: Span) -> (r:
        WhileLoop)
        ensures
            r.wf(),
            final(vm).flow is None,
            final(vm).scopes == old(vm).scopes,
            r.saved == old(vm).flow,
            r.output is Empty,
            r.history@ == Seq::<ValueView>::empty(),
            r.iterations == 0,
            r.condition_invariant == always_same(*condition),
            r.body_diverges == diverges(*body),
            r.condition_span == condition.span,
            r.body_span == body.span,
            r.span == span,
            r.step == WhileStep::Condition,
    {
        let mut saved: Option<FlowEvent> = None;
        std::mem::swap(&mut saved, &mut vm.flow);
        WhileLoop {
            saved,
            output: Value::Empty,
            iterations: 0,
            condition_invariant: is_invariant(condition),
            body_diverges: can_diverge(body),
            condition_span: condition.span,
            body_span: body.span,
            span,
            step: WhileStep::Condition,
            history: Ghost(Seq::empty()),
        }
    }

    fn finish(&mut self, vm: &mut Vm)
        ensures
            final(vm).flow == restored(old(self).saved, old(vm).flow),
            final(vm).scopes == old(vm).scopes,
            final(self).step == WhileStep::Done,
            final(self).output == old(self).output,
            final(self).history == old(self).history,
            final(self).iterations == old(self).iterations,
            final(self).same_setup(old(self)),
    {
        let mut saved: Option<FlowEvent> = None;
        std::mem::swap(&mut saved, &mut self.saved);
        restore_flow(vm, saved);
        self.step = WhileStep::Done;
    }

    /// Take the value of the condition.
    pub fn check(&mut self, vm: &mut Vm, condition: bool) -> (r: Result<WhileStep, SourceDiagnostic>)
        requires
            old(self).wf(),
            old(self).step == WhileStep::Condition,
        ensures
            final(self).wf(),
            final(self).same_setup(old(self)),
            final(vm).scopes == old(vm).scopes,
            final(self).output == old(self).output,
            final(self).history == old(self).history,
            final(self).iterations == old(self).iterations,
            !condition ==> {
                &&& r == Ok::<WhileStep, SourceDiagnostic>(WhileStep::Done)
                &&& final(self).step == WhileStep::Done
                &&& final(vm).flow == restored(old(self).saved, old(vm).flow)
            },
            condition && old(self).lint_fires() ==> {
                &&& r matches Err(e) && e.span == old(self).condition_span && e.message@
                    == "condition is always true"@
                &&& final(self).step == WhileStep::Done
                &&& final(vm).flow == restored(old(self).saved, old(vm).flow)
            },
            condition && !old(self).lint_fires() && old(self).iterations >= MAX_ITERATIONS ==> {
                &&& r matches Err(e) && e.span == old(self).span && e.message@
                    == "loop seems to be infinite"@
                &&& final(self).step == WhileStep::Done
                &&& final(vm).flow == restored(old(self).saved, old(vm).flow)
            },
            condition && !old(self).lint_fires() && old(self).iterations < MAX_ITERATIONS ==> {
                &&& r == Ok::<WhileStep, SourceDiagnostic>(WhileStep::Body)
                &&& final(self).step == WhileStep::Body
                &&& final(self).saved == old(self).saved
                &&& final(vm).flow == old(vm).flow
            },
    {
        if !condition {
            self.finish(vm);
            return Ok(WhileStep::Done);
        }
        if self.iterations == 0 && self.condition_invariant && !self.body_diverges {
            self.finish(vm);
            return Err(SourceDiagnostic::error(self.condition_span, "condition is always true"));
        } else if self.iterations >= MAX_ITERATIONS {
            self.finish(vm);
            return Err(SourceDiagnostic::error(self.span, "loop seems to be infinite"));
        }
        self.step = WhileStep::Body;
        Ok(WhileStep::Body)
    }

    /// Take the value of the body: join it into the output, then inspect the
    /// pending event.
    pub fn after_body(&mut self, vm: &mut Vm, value: Value) -> (r: Result<
        WhileStep,
        SourceDiagnostic,
    >)
        requires
            old(self).wf(),
            old(self).step == WhileStep::Body,
        ensures
            final(self).same_setup(old(self)),
            final(vm).scopes == old(vm).scopes,
            join_spec(old(self).output@, value@) is None ==> {
                &&& r matches Err(e) && e.span == old(self).body_span && e.message@ == join_error(
                    old(self).output@,
                    value@,
                )
                &&& final(self).step == WhileStep::Done
                &&& final(vm).flow == restored(old(self).saved, old(vm).flow)
            },
            join_spec(old(self).output@, value@) is Some ==> {
                &&& final(self).wf()
                &&& Some(final(self).output@) == join_spec(old(self).output@, value@)
                &&& final(self).history@ == old(self).history@.push(value@)
                &&& stops(old(vm).flow) ==> {
                    &&& r == Ok::<WhileStep, SourceDiagnostic>(WhileStep::Done)
                    &&& final(self).step == WhileStep::Done
                    &&& final(self).iterations == old(self).iterations
                    &&& final(vm).flow == restored(old(self).saved, settled(old(vm).flow))
                }
                &&& !stops(old(vm).flow) ==> {
                    &&& r == Ok::<WhileStep, SourceDiagnostic>(WhileStep::Condition)
                    &&& final(self).step == WhileStep::Condition
                    &&& final(self).iterations == old(self).iterations + 1
                    &&& final(self).saved == old(self).saved
                    &&& final(vm).flow is None
                }
            },
    {
        let mut output = Value::Empty;
        std::mem::swap(&mut output, &mut self.output);
        match join(output, value) {
            Ok(v) => {
                self.output = v;
            },
            Err(m) => {
                self.finish(vm);
                return Err(SourceDiagnostic::with_message(self.body_span, m));
            },
        }
        proof {
            let h = self.history@.push(value@);
            assert(h.drop_last() =~= self.history@);
            self.history = Ghost(h);
        }
        if settle_flow(&mut vm.flow) {
            self.finish(vm);
            return Ok(WhileStep::Done);
        }
        self.iterations = self.iterations + 1;
        self.step = WhileStep::Condition;
        Ok(WhileStep::Condition)
    }
}

/// A loop's output is the join, left to right from the empty value, of the
/// values its body produced so far, the one of a pass that broke included.
pub proof fn while_output_is_join(l: &WhileLoop)
    requires
        l.wf(),
    ensures
        join_all(l.history@) == Some(l.output@),
{
}

} // verus!
