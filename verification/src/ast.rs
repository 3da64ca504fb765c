//! The literal shapes an UPDATE assignment's right-hand side may take,
//! modelled as plain values, and the coercion that reduces them to the
//! textual form the constraint and codec engines consume.

use vstd::prelude::*;

verus! {

/// A unary operator as it appears in a parsed expression.
#[derive(PartialEq, Eq, Structural, Debug, Copy, Clone)]
pub enum UnaryOperator {
    Plus,
    Minus,
    Not,
}

/// A literal value as it appears in a parsed expression. `Other` stands
/// for every literal shape the coercion does not accept.
#[derive(Debug)]
pub enum Value {
    Number(String),
    SingleQuotedString(String),
    Other,
}

/// A parsed right-hand expression of an assignment. `Other` stands for
/// every expression shape the coercion does not accept.
#[derive(Debug)]
pub enum Expr {
    Value(Value),
    UnaryOp(UnaryOperator, Box<Expr>),
    Other,
}

/// One `column = expression` pair of an UPDATE statement.
#[derive(Debug)]
pub struct Assignment {
    pub id: String,
    pub value: Expr,
}

/// The enumerated coercion policy: a numeric literal keeps its textual
/// form; a single-quoted string keeps its unquoted form; unary minus on a
/// numeric literal prefixes `-`; everything else is unsupported.
pub open spec fn coerce_spec(e: Expr) -> Option<Seq<char>> {
    match e {
        Expr::Value(Value::Number(v)) => Some(v@),
        Expr::Value(Value::SingleQuotedString(v)) => Some(v@),
        Expr::UnaryOp(op, inner) => match (op, *inner) {
            (UnaryOperator::Minus, Expr::Value(Value::Number(v))) => Some(seq!['-'] + v@),
            _ => None,
        },
        _ => None,
    }
}

/// Reduce an assignment's right-hand expression to its textual form, per
/// the enumerated policy; `None` for an unsupported shape.
pub fn coerce_value(e: &Expr) -> (r: Option<String>)
    ensures
        match r {
            Some(s) => coerce_spec(*e) == Some(s@),
            None => coerce_spec(*e) is None,
        },
{
    match e {
        Expr::Value(Value::Number(v)) => Some(v.clone()),
        Expr::Value(Value::SingleQuotedString(v)) => Some(v.clone()),
        Expr::UnaryOp(op, inner) => match (op, &**inner) {
            (UnaryOperator::Minus, Expr::Value(Value::Number(v))) => {
                let mut s = String::from_str("-");
                proof {
                    reveal_strlit("-");
                }
                s.append(v.as_str());
                Some(s)
            },
            _ => None,
        },
        _ => None,
    }
}

/// Reduce a whole assignment list to `(column, text)` pairs; `None` when
/// any right-hand expression falls outside the accepted shapes.
pub fn coerce_assignments(assignments: &Vec<Assignment>) -> (r: Option<Vec<(String, String)>>)
    ensures
        match r {
            Some(pairs) => {
                &&& pairs@.len() == assignments@.len()
                &&& forall|i: int|
                    0 <= i < pairs@.len() ==> {
                        &&& coerce_spec(assignments@[i].value) == Some(pairs@[i].1@)
                        &&& pairs@[i].0@ == assignments@[i].id@
                    }
            },
            None => exists|i: int|
                0 <= i < assignments@.len() && coerce_spec(assignments@[i].value) is None,
        },
{
    let mut pairs: Vec<(String, String)> = Vec::new();
    let mut i: usize = 0;
    while i < assignments.len()
        invariant
            0 <= i <= assignments@.len(),
            pairs@.len() == i,
            forall|j: int|
                0 <= j < i ==> {
                    &&& coerce_spec(assignments@[j].value) == Some(pairs@[j].1@)
                    &&& pairs@[j].0@ == assignments@[j].id@
                },
        decreases assignments@.len() - i,
    {
        let a = &assignments[i];
        match coerce_value(&a.value) {
            Some(text) => {
                pairs.push((a.id.clone(), text));
            },
            None => {
                return None;
            },
        }
        i += 1;
    }
    Some(pairs)
}

} // verus!
