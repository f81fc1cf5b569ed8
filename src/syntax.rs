//! Untyped syntax trees and the two structural predicates that the `while`
//! lint rests on.
use vstd::prelude::*;

use crate::diag::Span;

verus! {

/// The kind of a syntax node.
#[derive(Clone, Copy, Debug, PartialEq, Eq, Structural)]
pub enum SyntaxKind {
    /// A reference to a binding in code.
    Ident,
    /// A reference to a binding in math mode.
    MathIdent,
    /// `target.field`: the first child is the target.
    FieldAccess,
    /// `callee(args)`: the first child is the callee, the second the arguments.
    FuncCall,
    /// The argument list of a call.
    Args,
    /// A literal: integer, boolean, string, `none`.
    Literal,
    /// A unary or binary operation.
    Operation,
    /// An assignment.
    Assign,
    /// An array or dictionary literal.
    Container,
    /// A code or content block.
    Block,
    /// `if` / `else`.
    Conditional,
    /// `while`.
    WhileLoop,
    /// `for`.
    ForLoop,
    /// `break`.
    Break,
    /// `continue`.
    Continue,
    /// `return`, with an optional operand as child.
    Return,
    /// Keywords, punctuation and other leaves.
    Token,
}

/// A node of the untyped syntax tree.
#[derive(Debug)]
pub struct SyntaxNode {
    pub kind: SyntaxKind,
    pub span: Span,
    pub children: Vec<SyntaxNode>,
}

/// Whether the node always evaluates to the same value, judged from its
/// shape alone: identifiers may name mutable bindings, a field access
/// depends on its target only, a call on its callee and its arguments, and
/// every other node on all of its children.
pub open spec fn always_same(n: SyntaxNode) -> bool
    decreases n, n.children.len() + 1,
{
    match n.kind {
        SyntaxKind::Ident => false,
        SyntaxKind::MathIdent => false,
        SyntaxKind::FieldAccess => n.children.len() == 0 || always_same(n.children[0]),
        SyntaxKind::FuncCall => (n.children.len() == 0 || always_same(n.children[0])) && (
        n.children.len() < 2 || always_same(n.children[1])),
        _ => children_always_same(n, n.children.len() as int),
    }
}

/// Whether the first `k` children of `n` are all invariant.
pub open spec fn children_always_same(n: SyntaxNode, k: int) -> bool
    decreases n, k,
{
    if k <= 0 || k > n.children.len() {
        k <= 0
    } else {
        children_always_same(n, k - 1) && always_same(n.children[k - 1])
    }
}

/// Whether the node is, or contains, a `break` or a `return`.
/// A `continue` alone cannot end a loop, so it does not count.
pub open spec fn diverges(n: SyntaxNode) -> bool
    decreases n, n.children.len() + 1,
{
    n.kind == SyntaxKind::Break || n.kind == SyntaxKind::Return || children_diverge(
        n,
        n.children.len() as int,
    )
}

/// Whether one of the first `k` children of `n` can diverge.
pub open spec fn children_diverge(n: SyntaxNode, k: int) -> bool
    decreases n, k,
{
    if k <= 0 || k > n.children.len() {
        false
    } else {
        children_diverge(n, k - 1) || diverges(n.children[k - 1])
    }
}

/// Whether the expression always evaluates to the same value.
pub fn is_invariant(expr: &SyntaxNode) -> (r: bool)
    ensures
        r == always_same(*expr),
    decreases *expr, expr.children.len() + 1,
{
    match expr.kind {
        SyntaxKind::Ident => false,
        SyntaxKind::MathIdent => false,
        SyntaxKind::FieldAccess => expr.children.len() == 0 || is_invariant(&expr.children[0]),
        SyntaxKind::FuncCall => {
            (expr.children.len() == 0 || is_invariant(&expr.children[0])) && (expr.children.len()
                < 2 || is_invariant(&expr.children[1]))
        },
        _ => all_children_always_same(expr),
    }
}

fn all_children_always_same(expr: &SyntaxNode) -> (r: bool)
    ensures
        r == children_always_same(*expr, expr.children.len() as int),
    decreases *expr, expr.children.len(),
{
    let mut i: usize = 0;
    while i < expr.children.len()
        invariant
            i <= expr.children.len(),
            children_always_same(*expr, i as int),
        decreases expr.children.len() - i,
    {
        if !is_invariant(&expr.children[i]) {
            proof {
                lemma_children_always_same_stops(*expr, i as int, expr.children.len() as int);
            }
            return false;
        }
        i += 1;
    }
    true
}

proof fn lemma_children_always_same_stops(n: SyntaxNode, i: int, k: int)
    requires
        0 <= i < k <= n.children.len(),
        !always_same(n.children[i]),
    ensures
        !children_always_same(n, k),
    decreases k,
{
    if k > i + 1 {
        lemma_children_always_same_stops(n, i, k - 1);
    }
}

/// Whether the expression contains a break or return.
pub fn can_diverge(expr: &SyntaxNode) -> (r: bool)
    ensures
        r == diverges(*expr),
    decreases *expr, expr.children.len() + 1,
{
    if expr.kind == SyntaxKind::Break || expr.kind == SyntaxKind::Return {
        return true;
    }
    any_child_diverges(expr)
}

fn any_child_diverges(expr: &SyntaxNode) -> (r: bool)
    ensures
        r == children_diverge(*expr, expr.children.len() as int),
    decreases *expr, expr.children.len(),
{
    let mut i: usize = 0;
    while i < expr.children.len()
        invariant
            i <= expr.children.len(),
            !children_diverge(*expr, i as int),
        decreases expr.children.len() - i,
    {
        if can_diverge(&expr.children[i]) {
            proof {
                lemma_children_diverge_stays(*expr, i as int, expr.children.len() as int);
            }
            return true;
        }
        i += 1;
    }
    false
}

proof fn lemma_children_diverge_stays(n: SyntaxNode, i: int, k: int)
    requires
        0 <= i < k <= n.children.len(),
        diverges(n.children[i]),
    ensures
        children_diverge(n, k),
    decreases k,
{
    if k > i + 1 {
        lemma_children_diverge_stays(n, i, k - 1);
    }
}

} // verus!
