use typst_flow::diag::Span;
use typst_flow::flow::{FlowEvent, Vm};
use typst_flow::for_loop::{ForLoop, ForStep};
use typst_flow::pattern::Pattern;
use typst_flow::syntax::{SyntaxKind, SyntaxNode};
use typst_flow::value::Value;
use typst_flow::while_loop::{WhileLoop, WhileStep, MAX_ITERATIONS};

fn leaf(kind: SyntaxKind, id: u64) -> SyntaxNode {
    SyntaxNode { kind, span: Span::new(id), children: vec![] }
}

fn node(kind: SyntaxKind, id: u64, children: Vec<SyntaxNode>) -> SyntaxNode {
    SyntaxNode { kind, span: Span::new(id), children }
}

fn s(text: &str) -> Value {
    Value::Str(text.to_string())
}

fn name(n: &str) -> String {
    n.to_string()
}

fn top(vm: &Vm) -> &Vec<typst_flow::flow::Binding> {
    vm.scopes.last().unwrap()
}

/// Runs a for loop whose body evaluates to the bound item, which it reads
/// back from the innermost scope; `brk` raises a break in that pass.
fn run_for_identity(items: Vec<Value>, brk: Option<usize>) -> Result<Value, String> {
    let mut vm = Vm::new();
    let mut l = ForLoop::enter(&mut vm, Pattern::Normal(Span::new(1), name("x")), Span::new(3));
    l.start(&mut vm, Value::Array(items), Span::new(2)).map_err(|e| e.message)?;
    let mut pass = 0;
    loop {
        match l.next_item(&mut vm).map_err(|e| e.message)? {
            ForStep::Done => break,
            ForStep::Body => {}
            _ => unreachable!(),
        }
        let value = match &top(&vm).last().unwrap().value {
            Value::Str(t) => Value::Str(t.clone()),
            Value::Int(i) => Value::Int(*i),
            _ => unreachable!(),
        };
        if brk == Some(pass) {
            vm.eval_break(Span::new(9));
        }
        pass += 1;
        match l.after_body(&mut vm, value).map_err(|e| e.message)? {
            ForStep::Done => break,
            ForStep::Item => {}
            _ => unreachable!(),
        }
    }
    assert_eq!(vm.flow, None);
    assert_eq!(vm.scopes.len(), 1);
    Ok(l.output)
}

#[test]
fn for_output_joins_body_values_in_order() {
    let out = run_for_identity(vec![s("a"), s("b"), s("c")], None).unwrap();
    assert_eq!(out, s("abc"));
}

#[test]
fn for_output_includes_pass_that_breaks() {
    let out = run_for_identity(vec![s("a"), s("b"), s("c")], Some(1)).unwrap();
    assert_eq!(out, s("ab"));
}

#[test]
fn for_over_integers_joins_them_and_fails() {
    let err = run_for_identity(vec![Value::Int(1), Value::Int(2), Value::Int(3)], None);
    assert_eq!(err, Err(name("cannot join integer with integer")));
}

#[test]
fn while_true_empty_body_fails_lint_without_running_body() {
    let mut vm = Vm::new();
    let cond = leaf(SyntaxKind::Literal, 1);
    let body = node(SyntaxKind::Block, 2, vec![]);
    let mut l = WhileLoop::start(&mut vm, &cond, &body, Span::new(3));
    let e = l.check(&mut vm, true).unwrap_err();
    assert_eq!(e.message, "condition is always true");
    assert_eq!(e.span, Span::new(1));
    assert_eq!(l.step, WhileStep::Done);
    assert_eq!(l.output, Value::Empty);
}

#[test]
fn while_true_break_runs_once() {
    let mut vm = Vm::new();
    let cond = leaf(SyntaxKind::Literal, 1);
    let body = node(SyntaxKind::Block, 2, vec![leaf(SyntaxKind::Break, 4)]);
    let mut l = WhileLoop::start(&mut vm, &cond, &body, Span::new(3));
    assert_eq!(l.check(&mut vm, true).unwrap(), WhileStep::Body);
    let v = vm.eval_break(Span::new(4));
    assert_eq!(vm.flow, Some(FlowEvent::Break(Span::new(4))));
    assert_eq!(l.after_body(&mut vm, v).unwrap(), WhileStep::Done);
    assert_eq!(l.output, Value::Empty);
    assert_eq!(vm.flow, None);
    assert_eq!(l.iterations, 0);
}

/// `while x > 0 { x = x - 1 }` with `x` starting at `start`.
fn run_countdown(start: i64) -> Result<usize, (Span, String)> {
    let mut vm = Vm::new();
    let cond = node(
        SyntaxKind::Operation,
        1,
        vec![leaf(SyntaxKind::Ident, 5), leaf(SyntaxKind::Token, 6), leaf(SyntaxKind::Literal, 7)],
    );
    let body = node(SyntaxKind::Assign, 2, vec![leaf(SyntaxKind::Ident, 8)]);
    let mut l = WhileLoop::start(&mut vm, &cond, &body, Span::new(3));
    assert!(!l.condition_invariant);
    let mut x = start;
    loop {
        match l.check(&mut vm, x > 0).map_err(|e| (e.span, e.message))? {
            WhileStep::Done => return Ok(l.iterations),
            WhileStep::Body => {}
            WhileStep::Condition => unreachable!(),
        }
        x -= 1;
        assert_eq!(l.after_body(&mut vm, Value::Empty).unwrap(), WhileStep::Condition);
    }
}

#[test]
fn while_stopping_just_below_cap_succeeds() {
    assert_eq!(run_countdown(MAX_ITERATIONS as i64), Ok(MAX_ITERATIONS));
}

#[test]
fn while_reaching_cap_fails() {
    assert_eq!(
        run_countdown(MAX_ITERATIONS as i64 + 1),
        Err((Span::new(3), name("loop seems to be infinite")))
    );
}

#[test]
fn while_false_condition_is_done_at_once() {
    assert_eq!(run_countdown(0), Ok(0));
}

#[test]
fn while_continue_is_consumed_and_loop_goes_on() {
    let mut vm = Vm::new();
    let cond = leaf(SyntaxKind::Ident, 1);
    let body = node(SyntaxKind::Block, 2, vec![leaf(SyntaxKind::Continue, 4)]);
    let mut l = WhileLoop::start(&mut vm, &cond, &body, Span::new(3));
    assert!(!l.body_diverges);
    assert_eq!(l.check(&mut vm, true).unwrap(), WhileStep::Body);
    vm.eval_continue(Span::new(4));
    assert_eq!(l.after_body(&mut vm, s("a")).unwrap(), WhileStep::Condition);
    assert_eq!(vm.flow, None);
    assert_eq!(l.iterations, 1);
    assert_eq!(l.check(&mut vm, true).unwrap(), WhileStep::Body);
    assert_eq!(l.after_body(&mut vm, s("b")).unwrap(), WhileStep::Condition);
    assert_eq!(l.check(&mut vm, false).unwrap(), WhileStep::Done);
    assert_eq!(l.output, s("ab"));
}

#[test]
fn while_return_is_left_pending_unchanged() {
    let mut vm = Vm::new();
    let cond = leaf(SyntaxKind::Ident, 1);
    let body = node(SyntaxKind::Block, 2, vec![leaf(SyntaxKind::Return, 4)]);
    let mut l = WhileLoop::start(&mut vm, &cond, &body, Span::new(3));
    assert_eq!(l.check(&mut vm, true).unwrap(), WhileStep::Body);
    vm.eval_return(Span::new(4), Some(Value::Int(7)));
    assert_eq!(l.after_body(&mut vm, Value::Empty).unwrap(), WhileStep::Done);
    assert_eq!(vm.flow, Some(FlowEvent::Return(Span::new(4), Some(Value::Int(7)))));
}

#[test]
fn while_restores_event_pending_on_entry() {
    let mut vm = Vm::new();
    vm.eval_break(Span::new(20));
    let cond = leaf(SyntaxKind::Ident, 1);
    let body = node(SyntaxKind::Block, 2, vec![]);
    let mut l = WhileLoop::start(&mut vm, &cond, &body, Span::new(3));
    assert_eq!(vm.flow, None);
    assert_eq!(l.check(&mut vm, true).unwrap(), WhileStep::Body);
    vm.eval_break(Span::new(4));
    assert_eq!(l.after_body(&mut vm, Value::Empty).unwrap(), WhileStep::Done);
    assert_eq!(vm.flow, Some(FlowEvent::Break(Span::new(20))));
}

#[test]
fn while_join_failure_is_reported_at_body() {
    let mut vm = Vm::new();
    let cond = leaf(SyntaxKind::Ident, 1);
    let body = node(SyntaxKind::Block, 2, vec![]);
    let mut l = WhileLoop::start(&mut vm, &cond, &body, Span::new(3));
    l.check(&mut vm, true).unwrap();
    l.after_body(&mut vm, s("a")).unwrap();
    l.check(&mut vm, true).unwrap();
    let e = l.after_body(&mut vm, Value::Int(1)).unwrap_err();
    assert_eq!(e.span, Span::new(2));
    assert_eq!(e.message, "cannot join string with integer");
}

#[test]
fn for_over_string_binds_grapheme_clusters() {
    let mut vm = Vm::new();
    let mut l = ForLoop::enter(&mut vm, Pattern::Normal(Span::new(1), name("c")), Span::new(3));
    assert_eq!(l.start(&mut vm, s("e\u{301}x\r\n"), Span::new(2)).unwrap(), ForStep::Item);
    assert_eq!(l.items, vec![s("e\u{301}"), s("x"), s("\r\n")]);
    assert_eq!(l.next_item(&mut vm).unwrap(), ForStep::Body);
    assert_eq!(top(&vm)[0].name, "c");
    assert_eq!(top(&vm)[0].value, s("e\u{301}"));
}

#[test]
fn for_over_dict_binds_key_and_value() {
    let mut vm = Vm::new();
    let pat = Pattern::Destructuring(Span::new(1), vec![name("k"), name("v")]);
    let mut l = ForLoop::enter(&mut vm, pat, Span::new(3));
    let dict = Value::Dict(vec![(name("a"), Value::Int(1)), (name("b"), Value::Int(2))]);
    l.start(&mut vm, dict, Span::new(2)).unwrap();
    assert_eq!(l.next_item(&mut vm).unwrap(), ForStep::Body);
    assert_eq!(top(&vm)[0].name, "k");
    assert_eq!(top(&vm)[0].value, s("a"));
    assert_eq!(top(&vm)[1].name, "v");
    assert_eq!(top(&vm)[1].value, Value::Int(1));
    assert_eq!(l.after_body(&mut vm, Value::Empty).unwrap(), ForStep::Item);
    assert_eq!(l.next_item(&mut vm).unwrap(), ForStep::Body);
    assert_eq!(top(&vm)[3].value, Value::Int(2));
    assert_eq!(l.after_body(&mut vm, Value::Empty).unwrap(), ForStep::Item);
    assert_eq!(l.next_item(&mut vm).unwrap(), ForStep::Done);
    assert_eq!(vm.scopes.len(), 1);
}

#[test]
fn for_pair_pattern_over_plain_array_fails() {
    let mut vm = Vm::new();
    let pat = Pattern::Destructuring(Span::new(1), vec![name("a"), name("b")]);
    let mut l = ForLoop::enter(&mut vm, pat, Span::new(3));
    l.start(&mut vm, Value::Array(vec![Value::Int(1), Value::Int(2)]), Span::new(2)).unwrap();
    let e = l.next_item(&mut vm).unwrap_err();
    assert_eq!(e.span, Span::new(1));
    assert_eq!(e.message, "cannot destructure integer");
    assert_eq!(l.step, ForStep::Done);
}

#[test]
fn for_single_name_over_dict_binds_pairs() {
    let mut vm = Vm::new();
    let mut l = ForLoop::enter(&mut vm, Pattern::Normal(Span::new(1), name("p")), Span::new(3));
    l.start(&mut vm, Value::Dict(vec![(name("a"), Value::Int(1))]), Span::new(2)).unwrap();
    assert_eq!(l.next_item(&mut vm).unwrap(), ForStep::Body);
    assert_eq!(top(&vm)[0].value, Value::Array(vec![s("a"), Value::Int(1)]));
}

#[test]
fn for_over_integer_cannot_loop() {
    let mut vm = Vm::new();
    let mut l = ForLoop::enter(&mut vm, Pattern::Normal(Span::new(1), name("x")), Span::new(3));
    let e = l.start(&mut vm, Value::Int(5), Span::new(2)).unwrap_err();
    assert_eq!(e.span, Span::new(2));
    assert_eq!(e.message, "cannot loop over integer");
    assert_eq!(vm.scopes.len(), 1);
}

#[test]
fn for_pair_pattern_over_string_cannot_destructure() {
    let mut vm = Vm::new();
    let pat = Pattern::Destructuring(Span::new(1), vec![name("a"), name("b")]);
    let mut l = ForLoop::enter(&mut vm, pat, Span::new(3));
    let e = l.start(&mut vm, s("ab"), Span::new(2)).unwrap_err();
    assert_eq!(e.span, Span::new(1));
    assert_eq!(e.message, "cannot destructure values of string");
}

#[test]
fn for_pair_pattern_length_mismatch() {
    let mut vm = Vm::new();
    let pat = Pattern::Destructuring(Span::new(1), vec![name("a"), name("b")]);
    let mut l = ForLoop::enter(&mut vm, pat, Span::new(3));
    let items = vec![Value::Array(vec![Value::Int(1)]), Value::Array(vec![Value::Int(1), Value::Int(2), Value::Int(3)])];
    l.start(&mut vm, Value::Array(items), Span::new(2)).unwrap();
    assert_eq!(l.next_item(&mut vm).unwrap_err().message, "not enough elements to destructure");
}

#[test]
fn for_empty_array_yields_empty_value() {
    assert_eq!(run_for_identity(vec![], None), Ok(Value::Empty));
}

#[test]
fn for_return_stops_and_propagates() {
    let mut vm = Vm::new();
    let mut l = ForLoop::enter(&mut vm, Pattern::Normal(Span::new(1), name("x")), Span::new(3));
    l.start(&mut vm, Value::Array(vec![Value::Int(1), Value::Int(2)]), Span::new(2)).unwrap();
    l.next_item(&mut vm).unwrap();
    vm.eval_return(Span::new(8), None);
    assert_eq!(l.after_body(&mut vm, Value::Empty).unwrap(), ForStep::Done);
    assert_eq!(vm.flow, Some(FlowEvent::Return(Span::new(8), None)));
    assert_eq!(vm.scopes.len(), 1);
}

#[test]
fn while_lint_error_restores_event_pending_on_entry() {
    let mut vm = Vm::new();
    vm.eval_continue(Span::new(20));
    let cond = leaf(SyntaxKind::Literal, 1);
    let body = node(SyntaxKind::Block, 2, vec![]);
    let mut l = WhileLoop::start(&mut vm, &cond, &body, Span::new(3));
    assert_eq!(vm.flow, None);
    assert!(l.check(&mut vm, true).is_err());
    assert_eq!(vm.flow, Some(FlowEvent::Continue(Span::new(20))));
}

#[test]
fn while_join_error_restores_event_pending_on_entry() {
    let mut vm = Vm::new();
    vm.eval_break(Span::new(20));
    let cond = leaf(SyntaxKind::Ident, 1);
    let body = node(SyntaxKind::Block, 2, vec![]);
    let mut l = WhileLoop::start(&mut vm, &cond, &body, Span::new(3));
    l.check(&mut vm, true).unwrap();
    l.after_body(&mut vm, Value::Int(1)).unwrap();
    l.check(&mut vm, true).unwrap();
    assert!(l.after_body(&mut vm, Value::Int(2)).is_err());
    assert_eq!(vm.flow, Some(FlowEvent::Break(Span::new(20))));
}

#[test]
fn for_errors_restore_event_pending_on_entry() {
    let mut vm = Vm::new();
    vm.eval_break(Span::new(20));
    let mut l = ForLoop::enter(&mut vm, Pattern::Normal(Span::new(1), name("x")), Span::new(3));
    assert_eq!(vm.flow, None);
    assert!(l.start(&mut vm, Value::Bool(true), Span::new(2)).is_err());
    assert_eq!(vm.flow, Some(FlowEvent::Break(Span::new(20))));
    assert_eq!(vm.scopes.len(), 1);

    let pat = Pattern::Destructuring(Span::new(1), vec![name("a"), name("b")]);
    let mut l = ForLoop::enter(&mut vm, pat, Span::new(3));
    l.start(&mut vm, Value::Array(vec![Value::Int(1)]), Span::new(2)).unwrap();
    assert!(l.next_item(&mut vm).is_err());
    assert_eq!(vm.flow, Some(FlowEvent::Break(Span::new(20))));
    assert_eq!(vm.scopes.len(), 1);

    let mut l = ForLoop::enter(&mut vm, Pattern::Normal(Span::new(1), name("x")), Span::new(3));
    l.start(&mut vm, Value::Array(vec![s("a"), Value::Int(1)]), Span::new(2)).unwrap();
    l.next_item(&mut vm).unwrap();
    l.after_body(&mut vm, s("a")).unwrap();
    l.next_item(&mut vm).unwrap();
    let e = l.after_body(&mut vm, Value::Int(1)).unwrap_err();
    assert_eq!(e.span, Span::new(3));
    assert_eq!(vm.flow, Some(FlowEvent::Break(Span::new(20))));
    assert_eq!(vm.scopes.len(), 1);
}

#[test]
fn while_true_with_conditional_break_hits_cap() {
    let mut vm = Vm::new();
    let cond = leaf(SyntaxKind::Literal, 1);
    let inner = node(SyntaxKind::Conditional, 4, vec![leaf(SyntaxKind::Literal, 5), leaf(SyntaxKind::Break, 6)]);
    let body = node(SyntaxKind::Block, 2, vec![inner]);
    let mut l = WhileLoop::start(&mut vm, &cond, &body, Span::new(3));
    let mut passes = 0;
    let e = loop {
        match l.check(&mut vm, true) {
            Ok(WhileStep::Body) => {}
            Ok(_) => unreachable!(),
            Err(e) => break e,
        }
        passes += 1;
        l.after_body(&mut vm, Value::Empty).unwrap();
    };
    assert_eq!(passes, MAX_ITERATIONS);
    assert_eq!(e.span, Span::new(3));
    assert_eq!(e.message, "loop seems to be infinite");
}
