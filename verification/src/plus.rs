//! Sums.
use vstd::prelude::*;
use vstd::string::*;
use std::ops::{Add, Div, Mul, Sub};
use vstd::std_specs::ops::{AddSpec, AddSpecImpl, DivSpecImpl, MulSpecImpl, SubSpecImpl};
use crate::bindings::{first_missing, lemma_first_missing_concat, Bindings, TryReplaceError};
use crate::display::{infix_text, DisplayExpr, Operation, OperationOrder};
use crate::expression::{Derivative, Evaluate, Expression, TryEvaluate, TryReplace};
use crate::divide::Divide;
use crate::minus::Minus;
use crate::times::Times;
use crate::variable::VariableId;

verus! {

/// The sum of two trees.
#[derive(Clone, Copy, Debug, PartialEq)]
pub struct Plus<A, B>(pub A, pub B);

impl<A, B> Plus<A, B> {
    /// The node with the operands `a` and `b`.
    pub fn new(a: A, b: B) -> (node: Self)
        ensures
            node == Plus(a, b),
    {
        Self(a, b)
    }
}

impl<A: Expression, B: Expression> Expression for Plus<A, B> {
    open spec fn variables(&self) -> Seq<VariableId> {
        self.0.variables() + self.1.variables()
    }
}

impl<A, B> Operation for Plus<A, B> {
    open spec fn class(&self) -> Option<OperationOrder> {
        Some(OperationOrder::Add)
    }

    fn operation(&self) -> (operation: Option<OperationOrder>) {
        Some(OperationOrder::Add)
    }
}

impl<A: DisplayExpr, B: DisplayExpr> DisplayExpr for Plus<A, B> {
    open spec fn text(&self) -> Seq<char> {
        infix_text(&self.0, '+', &self.1, OperationOrder::Add)
    }

    fn to_string(&self) -> (text: String) {
        let op = self.operation();
        let mut text = self.0.display_expr(&op);
        text.append("+");
        let right = self.1.display_expr(&op);
        text.append(right.as_str());
        proof {
            reveal_strlit("+");
            assert(text@ =~= self.text());
        }
        text
    }
}

impl<T: Add<Output = T>, A: Evaluate<T>, B: Evaluate<T>> Evaluate<T> for Plus<A, B> {
    /// Both operands have a value, and the sum of the two values is defined.
    open spec fn evaluable(&self) -> bool {
        &&& T::obeys_add_spec()
        &&& self.0.evaluable()
        &&& self.1.evaluable()
        &&& self.0.value().add_req(self.1.value())
    }

    open spec fn value(&self) -> T {
        self.0.value().add_spec(self.1.value())
    }

    fn evaluate(&self) -> (value: T) {
        self.0.evaluate() + self.1.evaluate()
    }
}

impl<T, A: TryReplace<T>, B: TryReplace<T>> TryReplace<T> for Plus<A, B> {
    type Output = Plus<A::Output, B::Output>;

    open spec fn replaced(&self, values: Map<VariableId, T>) -> Self::Output {
        Plus(self.0.replaced(values), self.1.replaced(values))
    }

    fn try_replace(&self, values: &Bindings<T>) -> (outcome: Result<Self::Output, TryReplaceError>) {
        proof {
            lemma_first_missing_concat(self.0.variables(), self.1.variables(), values@.dom());
        }
        Ok(Plus(self.0.try_replace(values)?, self.1.try_replace(values)?))
    }
}

impl<T: Add<Output = T>, A: TryEvaluate<T>, B: TryEvaluate<T>> TryEvaluate<T> for Plus<A, B> where
    A::Output: Evaluate<T>,
    B::Output: Evaluate<T>,
 {
    open spec fn computable(&self, values: Map<VariableId, T>) -> bool {
        &&& self.0.computable(values)
        &&& first_missing(self.0.variables(), values.dom()) is None ==> {
            &&& self.1.computable(values)
            &&& first_missing(self.1.variables(), values.dom()) is None ==> {
                T::obeys_add_spec() && self.0.replaced(values).value().add_req(
                    self.1.replaced(values).value(),
                )
            }
        }
    }

    fn try_evaluate(&self, values: &Bindings<T>) -> (outcome: Result<T, TryReplaceError>) {
        proof {
            lemma_first_missing_concat(self.0.variables(), self.1.variables(), values@.dom());
            if first_missing(self.variables(), values@.dom()) is None {
                self.0.lemma_computable(values@);
                self.1.lemma_computable(values@);
            }
        }
        let left = self.0.try_evaluate(values)?;
        let right = self.1.try_evaluate(values)?;
        Ok(left + right)
    }

    proof fn lemma_computable(&self, values: Map<VariableId, T>) {
        lemma_first_missing_concat(self.0.variables(), self.1.variables(), values.dom());
        self.0.lemma_computable(values);
        self.1.lemma_computable(values);
    }
}

impl<A: Derivative, B: Derivative> Derivative for Plus<A, B> {
    type Derivative = Plus<A::Derivative, B::Derivative>;

    /// The derivative of a sum is the sum of the derivatives.
    open spec fn derived(&self, unknown_id: VariableId) -> Self::Derivative {
        Plus(self.0.derived(unknown_id), self.1.derived(unknown_id))
    }

    fn derivative(&self, unknown_id: VariableId) -> (derivative: Self::Derivative) {
        Plus(self.0.derivative(unknown_id), self.1.derivative(unknown_id))
    }
}

impl<A, B, C> Add<C> for Plus<A, B> {
    type Output = Plus<Self, C>;

    fn add(self, c: C) -> (sum: Plus<Self, C>)
        ensures
            sum == Plus(self, c),
    {
        Plus(self, c)
    }
}

impl<A, B, C> AddSpecImpl<C> for Plus<A, B> {
    open spec fn obeys_add_spec() -> bool {
        true
    }

    open spec fn add_req(self, c: C) -> bool {
        true
    }

    open spec fn add_spec(self, c: C) -> Plus<Self, C> {
        Plus(self, c)
    }
}

impl<A, B, C> Mul<C> for Plus<A, B> {
    type Output = Times<Self, C>;

    fn mul(self, c: C) -> (product: Times<Self, C>)
        ensures
            product == Times(self, c),
    {
        Times(self, c)
    }
}

impl<A, B, C> MulSpecImpl<C> for Plus<A, B> {
    open spec fn obeys_mul_spec() -> bool {
        true
    }

    open spec fn mul_req(self, c: C) -> bool {
        true
    }

    open spec fn mul_spec(self, c: C) -> Times<Self, C> {
        Times(self, c)
    }
}

impl<A, B, C> Sub<C> for Plus<A, B> {
    type Output = Minus<Self, C>;

    fn sub(self, c: C) -> (difference: Minus<Self, C>)
        ensures
            difference == Minus(self, c),
    {
        Minus(self, c)
    }
}

impl<A, B, C> SubSpecImpl<C> for Plus<A, B> {
    open spec fn obeys_sub_spec() -> bool {
        true
    }

    open spec fn sub_req(self, c: C) -> bool {
        true
    }

    open spec fn sub_spec(self, c: C) -> Minus<Self, C> {
        Minus(self, c)
    }
}

impl<A, B, C> Div<C> for Plus<A, B> {
    type Output = Divide<Self, C>;

    fn div(self, c: C) -> (quotient: Divide<Self, C>)
        ensures
            quotient == Divide(self, c),
    {
        Divide(self, c)
    }
}

impl<A, B, C> DivSpecImpl<C> for Plus<A, B> {
    open spec fn obeys_div_spec() -> bool {
        true
    }

    open spec fn div_req(self, c: C) -> bool {
        true
    }

    open spec fn div_spec(self, c: C) -> Divide<Self, C> {
        Divide(self, c)
    }
}

} // verus!
