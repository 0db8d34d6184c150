//! Expression trees, as far as the arithmetic primitives need them.
use crate::types::{Value, ValueView};
use vstd::prelude::*;

pub mod symbols;

verus! {

/// A node of an expression tree: a literal value or a structural form.
///
/// The arithmetic primitives consume and produce literals only; every other
/// form is an operand that they refuse.
#[derive(Debug, PartialEq, Eq)]
pub enum SExpr {
    /// A literal.
    Value(Value),
    /// A name to be resolved by an evaluator.
    Symbol(String),
    /// A form made of sub-expressions.
    List(Vec<SExpr>),
}

/// What an [`SExpr`] is, with every owned buffer replaced by the sequence that
/// it holds.
pub enum SExprView {
    Value(ValueView),
    Symbol(Seq<char>),
    List(Seq<SExprView>),
}

/// The view of an expression, defined by recursion over lists.
pub open spec fn sexpr_view(e: SExpr) -> SExprView
    decreases e,
{
    match e {
        SExpr::Value(v) => SExprView::Value(v@),
        SExpr::Symbol(s) => SExprView::Symbol(s@),
        SExpr::List(items) => SExprView::List(
            Seq::new(
                items@.len(),
                |i: int|
                    if 0 <= i < items@.len() {
                        sexpr_view(items@[i])
                    } else {
                        SExprView::List(Seq::empty())
                    },
            ),
        ),
    }
}

impl View for SExpr {
    type V = SExprView;

    open spec fn view(&self) -> SExprView {
        sexpr_view(*self)
    }
}

impl Clone for SExpr {
    fn clone(&self) -> (copy: SExpr)
        ensures
            copy@ == self@,
        decreases self,
    {
        match self {
            SExpr::Value(v) => SExpr::Value(v.clone()),
            SExpr::Symbol(s) => SExpr::Symbol(s.clone()),
            SExpr::List(items) => {
                let mut copies: Vec<SExpr> = Vec::new();
                let mut i: usize = 0;
                while i < items.len()
                    invariant
                        *self == SExpr::List(*items),
                        i <= items@.len(),
                        copies@.len() == i,
                        forall|j: int| 0 <= j < i ==> copies@[j]@ == items@[j]@,
                    decreases items@.len() - i,
                {
                    assert(decreases_to!(*self => self->List_0@[i as int]));
                    let item = items[i].clone();
                    copies.push(item);
                    i += 1;
                }
                let copy = SExpr::List(copies);
                assert(copy@->List_0 =~= self@->List_0);
                copy
            },
        }
    }
}

} // verus!
