//! Constants.
use vstd::prelude::*;
use std::ops::{Add, Div, Mul, Sub};
use vstd::std_specs::ops::{AddSpecImpl, DivSpecImpl, MulSpecImpl, SubSpecImpl};
use crate::bindings::{Bindings, TryReplaceError};
use crate::display::{DisplayExpr, Literal, Operation, OperationOrder};
use crate::divide::Divide;
use crate::expression::{Derivative, Evaluate, Expression, TryEvaluate, TryReplace};
use crate::minus::Minus;
use crate::morph::Morph;
use crate::plus::Plus;
use crate::times::Times;
use crate::variable::VariableId;

verus! {

/// A value of the numeric type, standing in a tree.
#[derive(Clone, Copy, Debug, PartialEq)]
pub struct Constant<T>(pub T);

impl<T> Constant<T> {
    /// The constant that holds `value`.
    pub fn new(value: T) -> (node: Self)
        ensures
            node == Constant(value),
    {
        Self(value)
    }
}

/// The constant `a`.
pub fn constant<A>(a: A) -> (node: Constant<A>)
    ensures
        node == Constant(a),
{
    Constant::new(a)
}

impl<T> Expression for Constant<T> {
    open spec fn variables(&self) -> Seq<VariableId> {
        Seq::empty()
    }
}

impl<T> Operation for Constant<T> {
    open spec fn class(&self) -> Option<OperationOrder> {
        None
    }

    fn operation(&self) -> (operation: Option<OperationOrder>) {
        None
    }
}

impl<T: Literal> DisplayExpr for Constant<T> {
    /// A constant is written as its value is.
    open spec fn text(&self) -> Seq<char> {
        self.0.literal_text()
    }

    fn to_string(&self) -> (text: String) {
        self.0.literal()
    }
}

impl<T: Copy> Evaluate<T> for Constant<T> {
    open spec fn evaluable(&self) -> bool {
        true
    }

    open spec fn value(&self) -> T {
        self.0
    }

    fn evaluate(&self) -> (value: T) {
        self.0
    }
}

impl<T: Copy> TryReplace<T> for Constant<T> {
    type Output = Self;

    open spec fn replaced(&self, values: Map<VariableId, T>) -> Self {
        *self
    }

    fn try_replace(&self, values: &Bindings<T>) -> (outcome: Result<Self, TryReplaceError>) {
        Ok(*self)
    }
}

impl<T: Copy> TryEvaluate<T> for Constant<T> {
    open spec fn computable(&self, values: Map<VariableId, T>) -> bool {
        true
    }

    fn try_evaluate(&self, values: &Bindings<T>) -> (outcome: Result<T, TryReplaceError>) {
        Ok(self.0)
    }

    proof fn lemma_computable(&self, values: Map<VariableId, T>) {
    }
}

impl<T> Derivative for Constant<T> {
    type Derivative = Morph;

    /// A constant does not change with any variable.
    open spec fn derived(&self, unknown_id: VariableId) -> Morph {
        Morph::Zero
    }

    fn derivative(&self, unknown_id: VariableId) -> (derivative: Morph) {
        Morph::Zero
    }
}

impl<A, C> Add<C> for Constant<A> {
    type Output = Plus<Self, C>;

    fn add(self, c: C) -> (sum: Plus<Self, C>)
        ensures
            sum == Plus(self, c),
    {
        Plus(self, c)
    }
}

impl<A, C> AddSpecImpl<C> for Constant<A> {
    open spec fn obeys_add_spec() -> bool {
        true
    }

    open spec fn add_req(self, c: C) -> bool {
        true
    }

    open spec fn add_spec(self, c: C) -> Plus<Self, C> {
        Plus(self, c)
    }
}

impl<A, C> Mul<C> for Constant<A> {
    type Output = Times<Self, C>;

    fn mul(self, c: C) -> (product: Times<Self, C>)
        ensures
            product == Times(self, c),
    {
        Times(self, c)
    }
}

impl<A, C> MulSpecImpl<C> for Constant<A> {
    open spec fn obeys_mul_spec() -> bool {
        true
    }

    open spec fn mul_req(self, c: C) -> bool {
        true
    }

    open spec fn mul_spec(self, c: C) -> Times<Self, C> {
        Times(self, c)
    }
}

impl<A, C> Sub<C> for Constant<A> {
    type Output = Minus<Self, C>;

    fn sub(self, c: C) -> (difference: Minus<Self, C>)
        ensures
            difference == Minus(self, c),
    {
        Minus(self, c)
    }
}

impl<A, C> SubSpecImpl<C> for Constant<A> {
    open spec fn obeys_sub_spec() -> bool {
        true
    }

    open spec fn sub_req(self, c: C) -> bool {
        true
    }

    open spec fn sub_spec(self, c: C) -> Minus<Self, C> {
        Minus(self, c)
    }
}

impl<A, C> Div<C> for Constant<A> {
    type Output = Divide<Self, C>;

    fn div(self, c: C) -> (quotient: Divide<Self, C>)
        ensures
            quotient == Divide(self, c),
    {
        Divide(self, c)
    }
}

impl<A, C> DivSpecImpl<C> for Constant<A> {
    open spec fn obeys_div_spec() -> bool {
        true
    }

    open spec fn div_req(self, c: C) -> bool {
        true
    }

    open spec fn div_spec(self, c: C) -> Divide<Self, C> {
        Divide(self, c)
    }
}

} // verus!
