//! Runtime values, their types, and the join that loops accumulate with.
use vstd::prelude::*;
use vstd::string::*;

verus! {

/// A runtime value.
#[derive(Debug, PartialEq)]
pub enum Value {
    Empty,
    Bool(bool),
    Int(i64),
    Str(String),
    Array(Vec<Value>),
    /// Key-value pairs in insertion order.
    Dict(Vec<(String, Value)>),
}

/// A value's outer shape: strings as characters, containers as sequences.
pub enum ValueView {
    Empty,
    Bool(bool),
    Int(int),
    Str(Seq<char>),
    Array(Seq<Value>),
    Dict(Seq<(String, Value)>),
}

impl View for Value {
    type V = ValueView;

    open spec fn view(&self) -> ValueView {
        match self {
            Value::Empty => ValueView::Empty,
            Value::Bool(b) => ValueView::Bool(*b),
            Value::Int(i) => ValueView::Int(*i as int),
            Value::Str(s) => ValueView::Str(s@),
            Value::Array(a) => ValueView::Array(a@),
            Value::Dict(d) => ValueView::Dict(d@),
        }
    }
}

/// The type of a value.
#[derive(Clone, Copy, Debug, PartialEq, Eq, Structural)]
pub enum Type {
    Empty,
    Bool,
    Int,
    Str,
    Array,
    Dict,
}

/// The type of a viewed value.
pub open spec fn type_of(v: ValueView) -> Type {
    match v {
        ValueView::Empty => Type::Empty,
        ValueView::Bool(_) => Type::Bool,
        ValueView::Int(_) => Type::Int,
        ValueView::Str(_) => Type::Str,
        ValueView::Array(_) => Type::Array,
        ValueView::Dict(_) => Type::Dict,
    }
}

/// The name under which a type appears in messages.
pub open spec fn type_label(t: Type) -> Seq<char> {
    match t {
        Type::Empty => "none"@,
        Type::Bool => "boolean"@,
        Type::Int => "integer"@,
        Type::Str => "string"@,
        Type::Array => "array"@,
        Type::Dict => "dictionary"@,
    }
}

impl Type {
    /// The name of the type.
    pub fn name(&self) -> (r: &'static str)
        ensures
            r@ == type_label(*self),
    {
        match self {
            Type::Empty => "none",
            Type::Bool => "boolean",
            Type::Int => "integer",
            Type::Str => "string",
            Type::Array => "array",
            Type::Dict => "dictionary",
        }
    }
}

impl Value {
    /// The type of the value.
    pub fn ty(&self) -> (r: Type)
        ensures
            r == type_of(self@),
    {
        match self {
            Value::Empty => Type::Empty,
            Value::Bool(_) => Type::Bool,
            Value::Int(_) => Type::Int,
            Value::Str(_) => Type::Str,
            Value::Array(_) => Type::Array,
            Value::Dict(_) => Type::Dict,
        }
    }
}

/// What joining `a` with `b` gives, or `None` where the two cannot be joined:
/// `none` is the identity on both sides, strings and arrays concatenate.
pub open spec fn join_spec(a: ValueView, b: ValueView) -> Option<ValueView> {
    match (a, b) {
        (ValueView::Empty, _) => Some(b),
        (_, ValueView::Empty) => Some(a),
        (ValueView::Str(x), ValueView::Str(y)) => Some(ValueView::Str(x + y)),
        (ValueView::Array(x), ValueView::Array(y)) => Some(ValueView::Array(x + y)),
        _ => None,
    }
}

/// The message of a failed join.
pub open spec fn join_error(a: ValueView, b: ValueView) -> Seq<char> {
    "cannot join "@ + type_label(type_of(a)) + " with "@ + type_label(type_of(b))
}

/// The join of a sequence of values, left to right, starting from `none`;
/// `None` where some step fails.
pub open spec fn join_all(vals: Seq<ValueView>) -> Option<ValueView>
    decreases vals.len(),
{
    if vals.len() == 0 {
        Some(ValueView::Empty)
    } else {
        match join_all(vals.drop_last()) {
            Some(acc) => join_spec(acc, vals.last()),
            None => None,
        }
    }
}

/// One more body value joins onto the output of the earlier ones.
pub proof fn join_all_push(vals: Seq<ValueView>, v: ValueView)
    ensures
        join_all(vals.push(v)) == (match join_all(vals) {
            Some(acc) => join_spec(acc, v),
            None => None,
        }),
{
    assert(vals.push(v).drop_last() =~= vals);
}

/// Join two values.
pub fn join(a: Value, b: Value) -> (r: Result<Value, String>)
    ensures
        match join_spec(a@, b@) {
            Some(v) => r matches Ok(x) && x@ == v,
            None => r matches Err(m) && m@ == join_error(a@, b@),
        },
{
    match (a, b) {
        (Value::Empty, b) => Ok(b),
        (a, Value::Empty) => Ok(a),
        (Value::Str(x), Value::Str(y)) => {
            let mut x = x;
            x.append(y.as_str());
            Ok(Value::Str(x))
        },
        (Value::Array(x), Value::Array(y)) => {
            let mut x = x;
            let mut y = y;
            x.append(&mut y);
            Ok(Value::Array(x))
        },
        (a, b) => {
            let mut m = String::from_str("cannot join ");
            m.append(a.ty().name());
            m.append(" with ");
            m.append(b.ty().name());
            Err(m)
        },
    }
}

} // verus!
