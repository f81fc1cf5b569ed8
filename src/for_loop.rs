//! The `for` loop, as a machine that is handed the iterable and the value of
//! each body in turn and says what to evaluate next.
use unicode_segmentation::UnicodeSegmentation;
use vstd::prelude::*;
use vstd::string::*;

use crate::diag::{SourceDiagnostic, Span};
use crate::flow::{restored, settle_flow, settled, stops, restore_flow, FlowEvent, Vm};
use crate::pattern::{destructure, destructured, Pattern};
use crate::value::{join, join_all, join_error, join_spec, type_label, type_of, Type, Value, ValueView};

verus! {

/// The extended grapheme clusters of a string, in order.
pub uninterp spec fn graphemes_of(s: Seq<char>) -> Seq<Seq<char>>;

/// Relies on `UnicodeSegmentation::graphemes(s, true)` of unicode-segmentation:
/// the extended grapheme clusters, which depend on the characters alone.
#[verifier::external_body]
fn graphemes(s: &str) -> (r: Vec<String>)
    ensures
        r@.len() == graphemes_of(s@).len(),
        forall|i: int| 0 <= i < r@.len() ==> #[trigger] r@[i]@ == graphemes_of(s@)[i],
{
    s.graphemes(true).map(String::from).collect()
}

/// What a `for` loop needs next.
#[derive(Clone, Copy, Debug, PartialEq, Eq, Structural)]
pub enum ForStep {
    /// The value of the iterable.
    Iterable,
    /// Nothing from outside: the next item is to be bound.
    Item,
    /// The value of the body.
    Body,
    /// Nothing: the loop has ended.
    Done,
}

/// Why a value cannot be looped over with a pattern, if it cannot: a single
/// name loops over strings, dictionaries and arrays; any other pattern over
/// dictionaries and arrays.
pub open spec fn source_error(p: Pattern, v: ValueView, iter_span: Span) -> Option<
    (Span, Seq<char>),
> {
    match v {
        ValueView::Str(_) => if p is Normal {
            None
        } else {
            Some((p.span_of(), "cannot destructure values of "@ + type_label(type_of(v))))
        },
        ValueView::Dict(_) => None,
        ValueView::Array(_) => None,
        _ => if p is Normal {
            Some((iter_span, "cannot loop over "@ + type_label(type_of(v))))
        } else {
            Some((p.span_of(), "cannot destructure values of "@ + type_label(type_of(v))))
        },
    }
}

/// Whether `items` are the items of `v`, in order: the grapheme clusters of
/// a string, the key-value pairs of a dictionary as two-element arrays, the
/// elements of an array.
pub open spec fn items_of(v: Value, items: Seq<Value>) -> bool {
    match v {
        Value::Str(s) => {
            &&& items.len() == graphemes_of(s@).len()
            &&& forall|i: int|
                0 <= i < items.len() ==> #[trigger] items[i]@ == ValueView::Str(
                    graphemes_of(s@)[i],
                )
        },
        Value::Dict(d) => {
            &&& items.len() == d@.len()
            &&& forall|i: int| 0 <= i < items.len() ==> #[trigger] pair_item(items[i], d@[i])
        },
        Value::Array(a) => items == a@,
        _ => items.len() == 0,
    }
}

/// Whether `item` is the array `(key, value)` of a dictionary entry.
pub open spec fn pair_item(item: Value, entry: (String, Value)) -> bool {
    match item {
        Value::Array(a) => a@.len() == 2 && a@[0]@ == ValueView::Str(entry.0@) && a@[1] == entry.1,
        _ => false,
    }
}

fn grapheme_items(s: &str) -> (r: Vec<Value>)
    ensures
        r@.len() == graphemes_of(s@).len(),
        forall|i: int| 0 <= i < r@.len() ==> #[trigger] r@[i]@ == ValueView::Str(graphemes_of(s@)[i]),
{
    let mut clusters = graphemes(s);
    let ghost all = clusters@;
    let mut r: Vec<Value> = Vec::new();
    while clusters.len() > 0
        invariant
            all.len() == graphemes_of(s@).len(),
            forall|i: int| 0 <= i < all.len() ==> #[trigger] all[i]@ == graphemes_of(s@)[i],
            r@.len() + clusters@.len() == all.len(),
            clusters@ == all.skip(r@.len() as int),
            forall|i: int| 0 <= i < r@.len() ==> #[trigger] r@[i]@ == ValueView::Str(all[i]@),
        decreases clusters.len(),
    {
        let g = clusters.remove(0);
        r.push(Value::Str(g));
    }
    r
}

fn pair_items(d: Vec<(String, Value)>) -> (r: Vec<Value>)
    ensures
        r@.len() == d@.len(),
        forall|i: int| 0 <= i < r@.len() ==> #[trigger] pair_item(r@[i], d@[i]),
{
    let ghost all = d@;
    let mut d = d;
    let mut r: Vec<Value> = Vec::new();
    while d.len() > 0
        invariant
            r@.len() + d@.len() == all.len(),
            d@ == all.skip(r@.len() as int),
            forall|i: int| 0 <= i < r@.len() ==> #[trigger] pair_item(r@[i], all[i]),
        decreases d.len(),
    {
        let (k, v) = d.remove(0);
        let mut pair: Vec<Value> = Vec::new();
        pair.push(Value::Str(k));
        pair.push(v);
        r.push(Value::Array(pair));
    }
    r
}

/// A `for` loop under evaluation.
pub struct ForLoop {
    /// The event that was pending when the loop was entered.
    pub saved: Option<FlowEvent>,
    /// The join of the body values so far.
    pub output: Value,
    /// The items not yet bound, in order.
    pub items: Vec<Value>,
    pub pattern: Pattern,
    pub body_span: Span,
    pub step: ForStep,
    /// The body values so far, in order.
    pub history: Ghost<Seq<ValueView>>,
}

impl ForLoop {
    /// The output is the join of the body values so far.
    pub open spec fn wf(&self) -> bool {
        join_all(self.history@) == Some(self.output@)
    }

    /// Enter a loop: set aside the pending event, so that the loop's own
    /// breaks and continues are told apart from it.
    pub fn enter(vm: &mut Vm, pattern: Pattern, body_span: Span) -> (r: ForLoop)
        ensures
            r.wf(),
            final(vm).flow is None,
            final(vm).scopes == old(vm).scopes,
            r.saved == old(vm).flow,
            r.output is Empty,
            r.items@.len() == 0,
            r.history@ == Seq::<ValueView>::empty(),
            r.pattern == pattern,
            r.body_span == body_span,
            r.step == ForStep::Iterable,
    {
        let mut saved: Option<FlowEvent> = None;
        std::mem::swap(&mut saved, &mut vm.flow);
        ForLoop {
            saved,
            output: Value::Empty,
            items: Vec::new(),
            pattern,
            body_span,
            step: ForStep::Iterable,
            history: Ghost(Seq::empty()),
        }
    }

    /// Take the value of the iterable (at `iter_span`), choose what to
    /// iterate, and open the loop's scope.
    pub fn start(&mut self, vm: &mut Vm, iterable: Value, iter_span: Span) -> (r: Result<
        ForStep,
        SourceDiagnostic,
    >)
        requires
            old(self).step == ForStep::Iterable,
        ensures
            final(self).wf() == old(self).wf(),
            final(self).output == old(self).output,
            final(self).history == old(self).history,
            final(self).pattern == old(self).pattern,
            final(self).body_span == old(self).body_span,
            match source_error(old(self).pattern, iterable@, iter_span) {
                Some((sp, m)) => {
                    &&& r matches Err(e) && e.span == sp && e.message@ == m
                    &&& final(self).step == ForStep::Done
                    &&& final(vm).scopes == old(vm).scopes
                    &&& final(vm).flow == restored(old(self).saved, old(vm).flow)
                },
                None => {
                    &&& r == Ok::<ForStep, SourceDiagnostic>(ForStep::Item)
                    &&& final(self).saved == old(self).saved
                    &&& final(vm).flow == old(vm).flow
                    &&& final(self).step == ForStep::Item
                    &&& items_of(iterable, final(self).items@)
                    &&& final(vm).scopes@.drop_last() == old(vm).scopes@
                    &&& final(vm).scopes@.len() == old(vm).scopes@.len() + 1
                    &&& final(vm).scopes@.last()@.len() == 0
                },
            },
    {
        let normal = self.pattern.is_normal();
        let items = match iterable {
            Value::Str(s) => {
                if !normal {
                    self.give_back(vm);
                    let mut m = String::from_str("cannot destructure values of ");
                    m.append(Type::Str.name());
                    return Err(SourceDiagnostic::with_message(self.pattern.span(), m));
                }
                grapheme_items(s.as_str())
            },
            Value::Dict(d) => pair_items(d),
            Value::Array(a) => a,
            other => {
                self.give_back(vm);
                if normal {
                    let mut m = String::from_str("cannot loop over ");
                    m.append(other.ty().name());
                    return Err(SourceDiagnostic::with_message(iter_span, m));
                } else {
                    let mut m = String::from_str("cannot destructure values of ");
                    m.append(other.ty().name());
                    return Err(SourceDiagnostic::with_message(self.pattern.span(), m));
                }
            },
        };
        self.items = items;
        vm.enter_scope();
        self.step = ForStep::Item;
        Ok(ForStep::Item)
    }

    fn give_back(&mut self, vm: &mut Vm)
        ensures
            final(vm).flow == restored(old(self).saved, old(vm).flow),
            final(vm).scopes == old(vm).scopes,
            final(self).step == ForStep::Done,
            final(self).output == old(self).output,
            final(self).history == old(self).history,
            final(self).items == old(self).items,
            final(self).pattern == old(self).pattern,
            final(self).body_span == old(self).body_span,
    {
        let mut saved: Option<FlowEvent> = None;
        std::mem::swap(&mut saved, &mut self.saved);
        restore_flow(vm, saved);
        self.step = ForStep::Done;
    }

    fn finish(&mut self, vm: &mut Vm)
        ensures
            final(vm).flow == restored(old(self).saved, old(vm).flow),
            final(vm).scopes@ == (if old(vm).scopes@.len() == 0 {
                old(vm).scopes@
            } else {
                old(vm).scopes@.drop_last()
            }),
            final(self).step == ForStep::Done,
            final(self).output == old(self).output,
            final(self).history == old(self).history,
            final(self).items == old(self).items,
            final(self).pattern == old(self).pattern,
            final(self).body_span == old(self).body_span,
    {
        vm.exit_scope();
        self.give_back(vm);
    }

    /// Bind the next item to the pattern, or end the loop where no item is
    /// left.
    pub fn next_item(&mut self, vm: &mut Vm) -> (r: Result<ForStep, SourceDiagnostic>)
        requires
            old(self).step == ForStep::Item,
            old(vm).scopes@.len() > 0,
        ensures
            final(self).wf() == old(self).wf(),
            final(self).output == old(self).output,
            final(self).history == old(self).history,
            final(self).pattern == old(self).pattern,
            final(self).body_span == old(self).body_span,
            old(self).items@.len() == 0 ==> {
                &&& r == Ok::<ForStep, SourceDiagnostic>(ForStep::Done)
                &&& final(self).step == ForStep::Done
                &&& final(vm).scopes@ == old(vm).scopes@.drop_last()
                &&& final(vm).flow == restored(old(self).saved, old(vm).flow)
            },
            old(self).items@.len() > 0 ==> {
                &&& final(self).items@ == old(self).items@.drop_first()
                &&& match destructured(old(self).pattern, old(self).items@[0]) {
                    Ok(bs) => {
                        &&& r == Ok::<ForStep, SourceDiagnostic>(ForStep::Body)
                        &&& final(self).step == ForStep::Body
                        &&& final(self).saved == old(self).saved
                        &&& final(vm).flow == old(vm).flow
                        &&& final(vm).scopes@.len() == old(vm).scopes@.len()
                        &&& final(vm).scopes@.drop_last() == old(vm).scopes@.drop_last()
                        &&& final(vm).scopes@.last()@ == old(vm).scopes@.last()@ + bs
                    },
                    Err(m) => {
                        &&& r matches Err(e) && e.span == old(self).pattern.span_of()
                            && e.message@ == m
                        &&& final(self).step == ForStep::Done
                        &&& final(vm).scopes@ == old(vm).scopes@.drop_last()
                        &&& final(vm).flow == restored(old(self).saved, old(vm).flow)
                    },
                }
            },
    {
        if self.items.len() == 0 {
            self.finish(vm);
            return Ok(ForStep::Done);
        }
        let item = self.items.remove(0);
        match destructure(vm, &self.pattern, item) {
            Ok(()) => {
                self.step = ForStep::Body;
                Ok(ForStep::Body)
            },
            Err(e) => {
                self.finish(vm);
                Err(e)
            },
        }
    }

    /// Take the value of the body: join it into the output, then inspect the
    /// pending event.
    pub fn after_body(&mut self, vm: &mut Vm, value: Value) -> (r: Result<
        ForStep,
        SourceDiagnostic,
    >)
        requires
            old(self).wf(),
            old(self).step == ForStep::Body,
        ensures
            final(self).items == old(self).items,
            final(self).pattern == old(self).pattern,
            final(self).body_span == old(self).body_span,
            join_spec(old(self).output@, value@) is None ==> {
                &&& r matches Err(e) && e.span == old(self).body_span && e.message@ == join_error(
                    old(self).output@,
                    value@,
                )
                &&& final(self).step == ForStep::Done
                &&& final(vm).flow == restored(old(self).saved, old(vm).flow)
                &&& final(vm).scopes@ == (if old(vm).scopes@.len() == 0 {
                    old(vm).scopes@
                } else {
                    old(vm).scopes@.drop_last()
                })
            },
            join_spec(old(self).output@, value@) is Some ==> {
                &&& final(self).wf()
                &&& Some(final(self).output@) == join_spec(old(self).output@, value@)
                &&& final(self).history@ == old(self).history@.push(value@)
                &&& stops(old(vm).flow) ==> {
                    &&& r == Ok::<ForStep, SourceDiagnostic>(ForStep::Done)
                    &&& final(self).step == ForStep::Done
                    &&& final(vm).flow == restored(old(self).saved, settled(old(vm).flow))
                    &&& final(vm).scopes@ == (if old(vm).scopes@.len() == 0 {
                        old(vm).scopes@
                    } else {
                        old(vm).scopes@.drop_last()
                    })
                }
                &&& !stops(old(vm).flow) ==> {
                    &&& r == Ok::<ForStep, SourceDiagnostic>(ForStep::Item)
                    &&& final(self).step == ForStep::Item
                    &&& final(self).saved == old(self).saved
                    &&& final(vm).flow is None
                    &&& final(vm).scopes == old(vm).scopes
                }
            },
    {
        let mut output = Value::Empty;
        std::mem::swap(&mut output, &mut self.output);
        match join(output, value) {
            Ok(v) => {
                self.output = v;
            },
            Err(m) => {
                self.finish(vm);
                return Err(SourceDiagnostic::with_message(self.body_span, m));
            },
        }
        proof {
            let h = self.history@.push(value@);
            assert(h.drop_last() =~= self.history@);
            self.history = Ghost(h);
        }
        if settle_flow(&mut vm.flow) {
            self.finish(vm);
            return Ok(ForStep::Done);
        }
        self.step = ForStep::Item;
        Ok(ForStep::Item)
    }
}

/// A loop's output is the join, left to right from the empty value, of the
/// values its body produced so far, the one of a pass that broke included.
pub proof fn for_output_is_join(l: &ForLoop)
    requires
        l.wf(),
    ensures
        join_all(l.history@) == Some(l.output@),
{
}

} // verus!
