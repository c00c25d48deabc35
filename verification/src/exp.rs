//! Exponentials.
use vstd::prelude::*;
use vstd::string::*;
use std::ops::{Add, Div, Mul, Sub};
use vstd::std_specs::ops::{AddSpecImpl, DivSpecImpl, MulSpecImpl, SubSpecImpl};
use crate::bindings::{first_missing, Bindings, TryReplaceError};
use crate::display::{call_text, DisplayExpr, Operation, OperationOrder};
use crate::divide::Divide;
use crate::expression::{Derivative, Evaluate, Expression, TryEvaluate, TryReplace};
use crate::minus::Minus;
use crate::numeric::Expable;
use crate::plus::Plus;
use crate::times::Times;
use crate::variable::VariableId;

verus! {

/// The exponential of a tree.
#[derive(Clone, Copy, Debug, PartialEq)]
pub struct Exp<A>(pub A);

impl<A> Exp<A> {
    /// The node with the argument `a`.
    pub fn new(a: A) -> (node: Self)
        ensures
            node == Exp(a),
    {
        Self(a)
    }
}

/// The exponential of `a`.
pub fn exp<A>(a: A) -> (node: Exp<A>)
    ensures
        node == Exp(a),
{
    Exp::new(a)
}

impl<A: Expression> Expression for Exp<A> {
    open spec fn variables(&self) -> Seq<VariableId> {
        self.0.variables()
    }
}

impl<A> Operation for Exp<A> {
    /// A function call has no operator.
    open spec fn class(&self) -> Option<OperationOrder> {
        None
    }

    fn operation(&self) -> (operation: Option<OperationOrder>) {
        None
    }
}

impl<A: DisplayExpr> DisplayExpr for Exp<A> {
    open spec fn text(&self) -> Seq<char> {
        call_text("exp"@, &self.0)
    }

    fn to_string(&self) -> (text: String) {
        let mut text = String::from_str("exp(");
        let argument = self.0.display_expr(&self.operation());
        text.append(argument.as_str());
        text.append(")");
        proof {
            reveal_strlit("exp(");
            reveal_strlit("exp");
            reveal_strlit(")");
            assert(text@ =~= self.text());
        }
        text
    }
}

impl<T: Expable<Output = T>, A: Evaluate<T>> Evaluate<T> for Exp<A> {
    /// The argument has a value, and the exponential is defined on it.
    open spec fn evaluable(&self) -> bool {
        &&& self.0.evaluable()
        &&& self.0.value().exp_req()
    }

    open spec fn value(&self) -> T {
        self.0.value().exp_spec()
    }

    fn evaluate(&self) -> (value: T) {
        self.0.evaluate().exp()
    }
}

impl<T, A: TryReplace<T>> TryReplace<T> for Exp<A> {
    type Output = Exp<A::Output>;

    open spec fn replaced(&self, values: Map<VariableId, T>) -> Self::Output {
        Exp(self.0.replaced(values))
    }

    fn try_replace(&self, values: &Bindings<T>) -> (outcome: Result<Self::Output, TryReplaceError>) {
        Ok(Exp(self.0.try_replace(values)?))
    }
}

impl<T: Expable<Output = T>, A: TryEvaluate<T>> TryEvaluate<T> for Exp<A> where A::Output: Evaluate<T> {
    open spec fn computable(&self, values: Map<VariableId, T>) -> bool {
        &&& self.0.computable(values)
        &&& first_missing(self.0.variables(), values.dom()) is None ==> self.0.replaced(
            values,
        ).value().exp_req()
    }

    fn try_evaluate(&self, values: &Bindings<T>) -> (outcome: Result<T, TryReplaceError>) {
        proof {
            if first_missing(self.variables(), values@.dom()) is None {
                self.0.lemma_computable(values@);
            }
        }
        let argument = self.0.try_evaluate(values)?;
        Ok(argument.exp())
    }

    proof fn lemma_computable(&self, values: Map<VariableId, T>) {
        self.0.lemma_computable(values);
    }
}

impl<A: Derivative + Copy> Derivative for Exp<A> {
    type Derivative = Times<Self, A::Derivative>;

    /// The chain rule: `exp(a)` becomes `exp(a) * da`.
    open spec fn derived(&self, unknown_id: VariableId) -> Self::Derivative {
        Times(Self(self.0), self.0.derived(unknown_id))
    }

    fn derivative(&self, unknown_id: VariableId) -> (derivative: Self::Derivative) {
        Times(Self(self.0), self.0.derivative(unknown_id))
    }
}

impl<A, C> Add<C> for Exp<A> {
    type Output = Plus<Self, C>;

    fn add(self, c: C) -> (sum: Plus<Self, C>)
        ensures
            sum == Plus(self, c),
    {
        Plus(self, c)
    }
}

impl<A, C> AddSpecImpl<C> for Exp<A> {
    open spec fn obeys_add_spec() -> bool {
        true
    }

    open spec fn add_req(self, c: C) -> bool {
        true
    }

    open spec fn add_spec(self, c: C) -> Plus<Self, C> {
        Plus(self, c)
    }
}

impl<A, C> Mul<C> for Exp<A> {
    type Output = Times<Self, C>;

    fn mul(self, c: C) -> (product: Times<Self, C>)
        ensures
            product == Times(self, c),
    {
        Times(self, c)
    }
}

impl<A, C> MulSpecImpl<C> for Exp<A> {
    open spec fn obeys_mul_spec() -> bool {
        true
    }

    open spec fn mul_req(self, c: C) -> bool {
        true
    }

    open spec fn mul_spec(self, c: C) -> Times<Self, C> {
        Times(self, c)
    }
}

impl<A, C> Sub<C> for Exp<A> {
    type Output = Minus<Self, C>;

    fn sub(self, c: C) -> (difference: Minus<Self, C>)
        ensures
            difference == Minus(self, c),
    {
        Minus(self, c)
    }
}

impl<A, C> SubSpecImpl<C> for Exp<A> {
    open spec fn obeys_sub_spec() -> bool {
        true
    }

    open spec fn sub_req(self, c: C) -> bool {
        true
    }

    open spec fn sub_spec(self, c: C) -> Minus<Self, C> {
        Minus(self, c)
    }
}

impl<A, C> Div<C> for Exp<A> {
    type Output = Divide<Self, C>;

    fn div(self, c: C) -> (quotient: Divide<Self, C>)
        ensures
            quotient == Divide(self, c),
    {
        Divide(self, c)
    }
}

impl<A, C> DivSpecImpl<C> for Exp<A> {
    open spec fn obeys_div_spec() -> bool {
        true
    }

    open spec fn div_req(self, c: C) -> bool {
        true
    }

    open spec fn div_spec(self, c: C) -> Divide<Self, C> {
        Divide(self, c)
    }
}

} // verus!
