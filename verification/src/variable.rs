//! Variables: the handle that stands for one in a tree, and the generator of
//! handles.
use vstd::prelude::*;
use vstd::string::*;
use std::ops::{Add, Div, Mul, Sub};
use vstd::std_specs::ops::{AddSpecImpl, DivSpecImpl, MulSpecImpl, SubSpecImpl};
use crate::bindings::{lemma_first_missing_one, Bindings, TryReplaceError};
use crate::constant::Constant;
use crate::display::{decimal, display_decimal, DisplayExpr, Operation, OperationOrder};
use crate::divide::Divide;
use crate::expression::{Derivative, Expression, TryEvaluate, TryReplace};
use crate::minus::Minus;
use crate::morph::Morph;
use crate::plus::Plus;
use crate::times::Times;

verus! {

/// Handle of one free variable. Two handles name the same variable exactly
/// when their numbers are equal; a handle says nothing of the numeric type
/// that a value bound to it will have.
#[derive(Clone, Copy, Debug, Hash, PartialEq, Eq, Structural)]
pub struct VariableId(pub u32);

impl VariableId {
    /// The handle with the number `value`.
    pub fn new(value: u32) -> (id: Self)
        ensures
            id == VariableId(value),
    {
        Self(value)
    }
}

/// Hands out variable handles, each one once.
pub struct VariableGenerator(u32);

impl View for VariableGenerator {
    type V = nat;

    /// How many handles the generator has handed out.
    closed spec fn view(&self) -> nat {
        self.0 as nat
    }
}

impl VariableGenerator {
    /// A generator that has handed out nothing yet.
    pub fn new() -> (generator: Self)
        ensures
            generator@ == 0,
    {
        Self(0)
    }

    /// The next handle: its number is the count of handles handed out before.
    pub fn var(&mut self) -> (variable: VariableId)
        requires
            old(self)@ < u32::MAX,
        ensures
            variable.0 == old(self)@,
            final(self)@ == old(self)@ + 1,
    {
        let variable = VariableId::new(self.0);
        self.0 += 1;
        variable
    }
}

impl Expression for VariableId {
    open spec fn variables(&self) -> Seq<VariableId> {
        seq![*self]
    }
}

impl Operation for VariableId {
    open spec fn class(&self) -> Option<OperationOrder> {
        None
    }

    fn operation(&self) -> (operation: Option<OperationOrder>) {
        None
    }
}

impl DisplayExpr for VariableId {
    /// A variable without a value is written as `variable(#n)`, `n` being its
    /// number.
    open spec fn text(&self) -> Seq<char> {
        "variable(#"@ + decimal(self.0 as nat) + seq![')']
    }

    fn to_string(&self) -> (text: String) {
        let mut text = String::from_str("variable(#");
        let number = display_decimal(self.0 as u128);
        text.append(number.as_str());
        text.append(")");
        proof {
            reveal_strlit(")");
            assert(text@ =~= self.text());
        }
        text
    }
}

impl<T: Copy> TryReplace<T> for VariableId {
    type Output = Constant<T>;

    open spec fn replaced(&self, values: Map<VariableId, T>) -> Constant<T> {
        Constant(values[*self])
    }

    fn try_replace(&self, values: &Bindings<T>) -> (outcome: Result<Constant<T>, TryReplaceError>) {
        proof {
            lemma_first_missing_one(*self, values@.dom());
        }
        match values.get(*self) {
            Some(value) => Ok(Constant::new(*value)),
            None => Err(TryReplaceError::MissingUnknown(*self)),
        }
    }
}

impl<T: Copy> TryEvaluate<T> for VariableId {
    /// Looking a variable up is always defined.
    open spec fn computable(&self, values: Map<VariableId, T>) -> bool {
        true
    }

    fn try_evaluate(&self, values: &Bindings<T>) -> (outcome: Result<T, TryReplaceError>) {
        proof {
            lemma_first_missing_one(*self, values@.dom());
        }
        match values.get(*self) {
            Some(value) => Ok(*value),
            None => Err(TryReplaceError::MissingUnknown(*self)),
        }
    }

    proof fn lemma_computable(&self, values: Map<VariableId, T>) {
    }
}

impl Derivative for VariableId {
    type Derivative = Morph;

    /// One with respect to the variable itself, zero with respect to any
    /// other.
    open spec fn derived(&self, unknown_id: VariableId) -> Morph {
        if *self == unknown_id {
            Morph::Identity
        } else {
            Morph::Zero
        }
    }

    fn derivative(&self, unknown_id: VariableId) -> (derivative: Morph) {
        if *self == unknown_id {
            Morph::Identity
        } else {
            Morph::Zero
        }
    }
}

impl<C> Add<C> for VariableId {
    type Output = Plus<Self, C>;

    fn add(self, c: C) -> (sum: Plus<Self, C>)
        ensures
            sum == Plus(self, c),
    {
        Plus(self, c)
    }
}

impl<C> AddSpecImpl<C> for VariableId {
    open spec fn obeys_add_spec() -> bool {
        true
    }

    open spec fn add_req(self, c: C) -> bool {
        true
    }

    open spec fn add_spec(self, c: C) -> Plus<Self, C> {
        Plus(self, c)
    }
}

impl<C> Mul<C> for VariableId {
    type Output = Times<Self, C>;

    fn mul(self, c: C) -> (product: Times<Self, C>)
        ensures
            product == Times(self, c),
    {
        Times(self, c)
    }
}

impl<C> MulSpecImpl<C> for VariableId {
    open spec fn obeys_mul_spec() -> bool {
        true
    }

    open spec fn mul_req(self, c: C) -> bool {
        true
    }

    open spec fn mul_spec(self, c: C) -> Times<Self, C> {
        Times(self, c)
    }
}

impl<C> Sub<C> for VariableId {
    type Output = Minus<Self, C>;

    fn sub(self, c: C) -> (difference: Minus<Self, C>)
        ensures
            difference == Minus(self, c),
    {
        Minus(self, c)
    }
}

impl<C> SubSpecImpl<C> for VariableId {
    open spec fn obeys_sub_spec() -> bool {
        true
    }

    open spec fn sub_req(self, c: C) -> bool {
        true
    }

    open spec fn sub_spec(self, c: C) -> Minus<Self, C> {
        Minus(self, c)
    }
}

impl<C> Div<C> for VariableId {
    type Output = Divide<Self, C>;

    fn div(self, c: C) -> (quotient: Divide<Self, C>)
        ensures
            quotient == Divide(self, c),
    {
        Divide(self, c)
    }
}

impl<C> DivSpecImpl<C> for VariableId {
    open spec fn obeys_div_spec() -> bool {
        true
    }

    open spec fn div_req(self, c: C) -> bool {
        true
    }

    open spec fn div_spec(self, c: C) -> Divide<Self, C> {
        Divide(self, c)
    }
}

} // verus!
