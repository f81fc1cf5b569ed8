//! Binding patterns and the destructuring that binds a value to one.
use vstd::prelude::*;
use vstd::string::*;

use crate::diag::{SourceDiagnostic, Span};
use crate::flow::{Binding, Vm};
use crate::value::{type_label, type_of, Value};

verus! {

/// A pattern that a loop binds each item to.
#[derive(Debug)]
pub enum Pattern {
    /// A single name, bound to the whole value.
    Normal(Span, String),
    /// An ordered list of names, bound to the elements of an array of the
    /// same length.
    Destructuring(Span, Vec<String>),
}

impl Pattern {
    /// The place of the pattern in the source.
    pub open spec fn span_of(&self) -> Span {
        match self {
            Pattern::Normal(s, _) => *s,
            Pattern::Destructuring(s, _) => *s,
        }
    }

    /// The place of the pattern in the source.
    pub fn span(&self) -> (r: Span)
        ensures
            r == self.span_of(),
    {
        match self {
            Pattern::Normal(s, _) => *s,
            Pattern::Destructuring(s, _) => *s,
        }
    }

    /// Whether the pattern is a single name.
    pub fn is_normal(&self) -> (r: bool)
        ensures
            r == self is Normal,
    {
        matches!(self, Pattern::Normal(..))
    }
}

/// The bindings that `p` makes of `v`, in order, or the message of the
/// error that binding it raises.
pub open spec fn destructured(p: Pattern, v: Value) -> Result<Seq<Binding>, Seq<char>> {
    match p {
        Pattern::Normal(_, name) => Ok(seq![Binding { name, value: v }]),
        Pattern::Destructuring(_, names) => match v {
            Value::Array(items) => {
                if items@.len() < names@.len() {
                    Err("not enough elements to destructure"@)
                } else if items@.len() > names@.len() {
                    Err("too many elements to destructure"@)
                } else {
                    Ok(
                        Seq::new(
                            names@.len(),
                            |i: int| Binding { name: names@[i], value: items@[i] },
                        ),
                    )
                }
            },
            _ => Err("cannot destructure "@ + type_label(type_of(v@))),
        },
    }
}

/// Bind `value` to `pattern` in the innermost scope of `vm`.
pub fn destructure(vm: &mut Vm, pattern: &Pattern, value: Value) -> (r: Result<
    (),
    SourceDiagnostic,
>)
    requires
        old(vm).scopes@.len() > 0,
    ensures
        final(vm).flow == old(vm).flow,
        match destructured(*pattern, value) {
            Ok(bs) => {
                &&& r is Ok
                &&& final(vm).scopes@.len() == old(vm).scopes@.len()
                &&& final(vm).scopes@.drop_last() == old(vm).scopes@.drop_last()
                &&& final(vm).scopes@.last()@ == old(vm).scopes@.last()@ + bs
            },
            Err(m) => r matches Err(e) && e.span == pattern.span_of() && e.message@ == m
                && final(vm).scopes == old(vm).scopes,
        },
{
    match pattern {
        Pattern::Normal(_, name) => {
            vm.define(name.clone(), value);
            proof {
                assert(seq![Binding { name: *name, value }] == seq![].push(
                    Binding { name: *name, value },
                ));
            }
            Ok(())
        },
        Pattern::Destructuring(span, names) => {
            match value {
                Value::Array(items) => {
                    if items.len() < names.len() {
                        return Err(
                            SourceDiagnostic::error(*span, "not enough elements to destructure"),
                        );
                    }
                    if items.len() > names.len() {
                        return Err(
                            SourceDiagnostic::error(*span, "too many elements to destructure"),
                        );
                    }
                    let ghost all = items@;
                    let ghost scopes0 = vm.scopes@;
                    let mut items = items;
                    let mut i: usize = 0;
                    while i < names.len()
                        invariant
                            all.len() == names@.len(),
                            0 <= i <= names@.len(),
                            items@ == all.skip(i as int),
                            vm.flow == old(vm).flow,
                            vm.scopes@.len() == scopes0.len(),
                            vm.scopes@.drop_last() == scopes0.drop_last(),
                            vm.scopes@.last()@ == scopes0.last()@ + Seq::new(
                                i as nat,
                                |j: int| Binding { name: names@[j], value: all[j] },
                            ),
                            scopes0 == old(vm).scopes@,
                            scopes0.len() > 0,
                        decreases names.len() - i,
                    {
                        let item = items.remove(0);
                        vm.define(names[i].clone(), item);
                        i += 1;
                        proof {
                            assert(Seq::new(
                                i as nat,
                                |j: int| Binding { name: names@[j], value: all[j] },
                            ) =~= Seq::new(
                                (i - 1) as nat,
                                |j: int| Binding { name: names@[j], value: all[j] },
                            ).push(Binding { name: names@[i - 1], value: all[i - 1] }));
                        }
                    }
                    Ok(())
                },
                other => {
                    let mut m = String::from_str("cannot destructure ");
                    m.append(other.ty().name());
                    Err(SourceDiagnostic::with_message(*span, m))
                },
            }
        },
    }
}

} // verus!
