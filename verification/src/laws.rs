//! Laws that hold of every tree: what substitution does to a tree without
//! variables, when it fails, and where a derivative vanishes.
use vstd::prelude::*;
use std::ops::{Add, Div, Mul, Sub};
use vstd::std_specs::ops::{AddSpec, DivSpec, MulSpec, SubSpec};
use crate::bindings::{first_missing, lemma_first_missing, replace_outcome, TryReplaceError};
use crate::constant::Constant;
use crate::divide::Divide;
use crate::exp::Exp;
use crate::expression::{Derivative, Evaluate, Expression, TryReplace};
use crate::log::Log;
use crate::minus::Minus;
use crate::morph::Morph;
use crate::numeric::{Expable, Identity, Logarithm, Pow, Zero};
use crate::plus::Plus;
use crate::power::Power;
use crate::times::Times;
use crate::variable::VariableId;

verus! {

/// A numeric type in which zero is what it is among the integers: the sum and
/// the difference of two zeros are zero, a product with a zero factor is zero,
/// zero divided by anything that it can be divided by is zero, and nothing can
/// be divided by zero.
pub trait ZeroLaws: Zero + Identity + Add<Output = Self> + Sub<Output = Self> + Mul<
    Output = Self,
> + Div<Output = Self> {
    /// Zero and zero make zero.
    proof fn lemma_zero_plus_zero()
        ensures
            Self::zero_spec().add_spec(Self::zero_spec()) == Self::zero_spec(),
    ;

    /// Zero less zero is zero.
    proof fn lemma_zero_minus_zero()
        ensures
            Self::zero_spec().sub_spec(Self::zero_spec()) == Self::zero_spec(),
    ;

    /// A product with zero on either side is zero.
    proof fn lemma_times_zero(a: Self)
        ensures
            a.mul_spec(Self::zero_spec()) == Self::zero_spec(),
            Self::zero_spec().mul_spec(a) == Self::zero_spec(),
    ;

    /// Zero divided by `a` is zero, where the quotient is defined.
    proof fn lemma_zero_divided(a: Self)
        requires
            Self::zero_spec().div_req(a),
        ensures
            Self::zero_spec().div_spec(a) == Self::zero_spec(),
    ;

    /// No quotient by zero is defined.
    proof fn lemma_divided_by_zero(a: Self)
        ensures
            !a.div_req(Self::zero_spec()),
    ;
}

impl ZeroLaws for i32 {
    proof fn lemma_zero_plus_zero() {
    }

    proof fn lemma_zero_minus_zero() {
    }

    proof fn lemma_times_zero(a: i32) {
    }

    proof fn lemma_zero_divided(a: i32) {
    }

    proof fn lemma_divided_by_zero(a: i32) {
    }
}

/// A tree whose derivative, with values in place of its variables, has a value
/// in `T`. The derivative holds no variable that the tree does not hold, and
/// its value is zero where the tree does not hold the variable of the
/// derivative.
pub trait Vanishing<T: ZeroLaws>: Derivative + Expression where
    Self::Derivative: TryReplace<T>,
    <Self::Derivative as TryReplace<T>>::Output: Evaluate<T>,
 {
    /// Where the tree does not hold `unknown_id` and its derivative can be
    /// evaluated with `values` in place of the variables, the derivative
    /// evaluates to zero.
    proof fn lemma_derivative_vanishes(&self, unknown_id: VariableId, values: Map<VariableId, T>)
        requires
            !self.variables().contains(unknown_id),
            self.derived(unknown_id).replaced(values).evaluable(),
        ensures
            self.derived(unknown_id).replaced(values).value() == T::zero_spec(),
    ;

    /// A variable of the derivative is a variable of the tree.
    proof fn lemma_derivative_variables(&self, unknown_id: VariableId, id: VariableId)
        ensures
            self.derived(unknown_id).variables().contains(id) ==> self.variables().contains(id),
    ;
}

impl<T: ZeroLaws, A> Vanishing<T> for Constant<A> {
    proof fn lemma_derivative_vanishes(&self, unknown_id: VariableId, values: Map<VariableId, T>) {
    }

    proof fn lemma_derivative_variables(&self, unknown_id: VariableId, id: VariableId) {
    }
}

impl<T: ZeroLaws> Vanishing<T> for VariableId {
    proof fn lemma_derivative_vanishes(&self, unknown_id: VariableId, values: Map<VariableId, T>) {
        assert(self.variables()[0] == *self);
    }

    proof fn lemma_derivative_variables(&self, unknown_id: VariableId, id: VariableId) {
    }
}

impl<T: ZeroLaws> Vanishing<T> for Morph {
    proof fn lemma_derivative_vanishes(&self, unknown_id: VariableId, values: Map<VariableId, T>) {
    }

    proof fn lemma_derivative_variables(&self, unknown_id: VariableId, id: VariableId) {
    }
}

/// A sequence made of two parts holds a variable exactly when one of the
/// parts does.
proof fn lemma_contains_concat(left: Seq<VariableId>, right: Seq<VariableId>, id: VariableId)
    ensures
        (left + right).contains(id) <==> left.contains(id) || right.contains(id),
{
    if left.contains(id) {
        let i = choose|i: int| 0 <= i < left.len() && left[i] == id;
        assert((left + right)[i] == id);
    }
    if right.contains(id) {
        let i = choose|i: int| 0 <= i < right.len() && right[i] == id;
        assert((left + right)[left.len() + i] == id);
    }
    if (left + right).contains(id) {
        let i = choose|i: int| 0 <= i < (left + right).len() && (left + right)[i] == id;
        if i < left.len() {
            assert(left[i] == id);
        } else {
            assert(right[i - left.len()] == id);
        }
    }
}

impl<T: ZeroLaws, A: Vanishing<T>, B: Vanishing<T>> Vanishing<T> for Plus<A, B> where
    A::Derivative: TryReplace<T>,
    <A::Derivative as TryReplace<T>>::Output: Evaluate<T>,
    B::Derivative: TryReplace<T>,
    <B::Derivative as TryReplace<T>>::Output: Evaluate<T>,
 {
    proof fn lemma_derivative_vanishes(&self, unknown_id: VariableId, values: Map<VariableId, T>) {
        lemma_contains_concat(self.0.variables(), self.1.variables(), unknown_id);
        self.0.lemma_derivative_vanishes(unknown_id, values);
        self.1.lemma_derivative_vanishes(unknown_id, values);
        T::lemma_zero_plus_zero();
    }

    proof fn lemma_derivative_variables(&self, unknown_id: VariableId, id: VariableId) {
        let da = self.0.derived(unknown_id);
        let db = self.1.derived(unknown_id);
        lemma_contains_concat(da.variables(), db.variables(), id);
        lemma_contains_concat(self.0.variables(), self.1.variables(), id);
        self.0.lemma_derivative_variables(unknown_id, id);
        self.1.lemma_derivative_variables(unknown_id, id);
    }
}

impl<T: ZeroLaws, A: Vanishing<T> + Copy, B: Vanishing<T> + Copy> Vanishing<T> for Times<A, B> where
    A: TryReplace<T>,
    <A as TryReplace<T>>::Output: Evaluate<T>,
    A::Derivative: TryReplace<T>,
    <A::Derivative as TryReplace<T>>::Output: Evaluate<T>,
    B: TryReplace<T>,
    <B as TryReplace<T>>::Output: Evaluate<T>,
    B::Derivative: TryReplace<T>,
    <B::Derivative as TryReplace<T>>::Output: Evaluate<T>,
 {
    proof fn lemma_derivative_vanishes(&self, unknown_id: VariableId, values: Map<VariableId, T>) {
        lemma_contains_concat(self.0.variables(), self.1.variables(), unknown_id);
        self.0.lemma_derivative_vanishes(unknown_id, values);
        self.1.lemma_derivative_vanishes(unknown_id, values);
        T::lemma_times_zero(self.0.replaced(values).value());
        T::lemma_times_zero(self.1.replaced(values).value());
        T::lemma_zero_plus_zero();
    }

    proof fn lemma_derivative_variables(&self, unknown_id: VariableId, id: VariableId) {
        let a = self.0.variables();
        let b = self.1.variables();
        let da = self.0.derived(unknown_id).variables();
        let db = self.1.derived(unknown_id).variables();
        lemma_contains_concat(a + db, da + b, id);
        lemma_contains_concat(a, db, id);
        lemma_contains_concat(da, b, id);
        lemma_contains_concat(a, b, id);
        self.0.lemma_derivative_variables(unknown_id, id);
        self.1.lemma_derivative_variables(unknown_id, id);
    }
}

impl<T: ZeroLaws, A: Vanishing<T>, B: Vanishing<T>> Vanishing<T> for Minus<A, B> where
    A::Derivative: TryReplace<T>,
    <A::Derivative as TryReplace<T>>::Output: Evaluate<T>,
    B::Derivative: TryReplace<T>,
    <B::Derivative as TryReplace<T>>::Output: Evaluate<T>,
 {
    proof fn lemma_derivative_vanishes(&self, unknown_id: VariableId, values: Map<VariableId, T>) {
        lemma_contains_concat(self.0.variables(), self.1.variables(), unknown_id);
        self.0.lemma_derivative_vanishes(unknown_id, values);
        self.1.lemma_derivative_vanishes(unknown_id, values);
        T::lemma_zero_minus_zero();
    }

    proof fn lemma_derivative_variables(&self, unknown_id: VariableId, id: VariableId) {
        let da = self.0.derived(unknown_id);
        let db = self.1.derived(unknown_id);
        lemma_contains_concat(da.variables(), db.variables(), id);
        lemma_contains_concat(self.0.variables(), self.1.variables(), id);
        self.0.lemma_derivative_variables(unknown_id, id);
        self.1.lemma_derivative_variables(unknown_id, id);
    }
}

impl<T: ZeroLaws, A: Vanishing<T> + Copy, B: Vanishing<T> + Copy> Vanishing<T> for Divide<A, B> where
    A: TryReplace<T>,
    <A as TryReplace<T>>::Output: Evaluate<T>,
    A::Derivative: TryReplace<T>,
    <A::Derivative as TryReplace<T>>::Output: Evaluate<T>,
    B: TryReplace<T>,
    <B as TryReplace<T>>::Output: Evaluate<T>,
    B::Derivative: TryReplace<T>,
    <B::Derivative as TryReplace<T>>::Output: Evaluate<T>,
 {
    proof fn lemma_derivative_vanishes(&self, unknown_id: VariableId, values: Map<VariableId, T>) {
        lemma_contains_concat(self.0.variables(), self.1.variables(), unknown_id);
        self.0.lemma_derivative_vanishes(unknown_id, values);
        self.1.lemma_derivative_vanishes(unknown_id, values);
        let a = self.0.replaced(values).value();
        let b = self.1.replaced(values).value();
        T::lemma_zero_divided(b);
        T::lemma_times_zero(a);
        T::lemma_zero_divided(b.mul_spec(b));
        T::lemma_zero_minus_zero();
    }

    proof fn lemma_derivative_variables(&self, unknown_id: VariableId, id: VariableId) {
        let a = self.0.variables();
        let b = self.1.variables();
        let da = self.0.derived(unknown_id).variables();
        let db = self.1.derived(unknown_id).variables();
        lemma_contains_concat(da + b, (a + db) + (b + b), id);
        lemma_contains_concat(da, b, id);
        lemma_contains_concat(a + db, b + b, id);
        lemma_contains_concat(a, db, id);
        lemma_contains_concat(b, b, id);
        lemma_contains_concat(a, b, id);
        self.0.lemma_derivative_variables(unknown_id, id);
        self.1.lemma_derivative_variables(unknown_id, id);
    }
}

impl<
    T: ZeroLaws + Pow<Output = T> + Logarithm<Output = T>,
    A: Vanishing<T> + Copy,
    B: Vanishing<T> + Copy,
> Vanishing<T> for Power<A, B> where
    A: TryReplace<T>,
    <A as TryReplace<T>>::Output: Evaluate<T>,
    A::Derivative: TryReplace<T>,
    <A::Derivative as TryReplace<T>>::Output: Evaluate<T>,
    B: TryReplace<T>,
    <B as TryReplace<T>>::Output: Evaluate<T>,
    B::Derivative: TryReplace<T>,
    <B::Derivative as TryReplace<T>>::Output: Evaluate<T>,
 {
    proof fn lemma_derivative_vanishes(&self, unknown_id: VariableId, values: Map<VariableId, T>) {
        lemma_contains_concat(self.0.variables(), self.1.variables(), unknown_id);
        self.0.lemma_derivative_vanishes(unknown_id, values);
        self.1.lemma_derivative_vanishes(unknown_id, values);
        let a = self.0.replaced(values).value();
        let b = self.1.replaced(values).value();
        T::lemma_times_zero(b);
        T::lemma_zero_divided(a);
        T::lemma_times_zero(a.log_spec());
        T::lemma_zero_plus_zero();
        T::lemma_times_zero(a.pow_spec(b));
    }

    proof fn lemma_derivative_variables(&self, unknown_id: VariableId, id: VariableId) {
        let a = self.0.variables();
        let b = self.1.variables();
        let da = self.0.derived(unknown_id).variables();
        let db = self.1.derived(unknown_id).variables();
        lemma_contains_concat(a + b, ((b + da) + a) + (a + db), id);
        lemma_contains_concat((b + da) + a, a + db, id);
        lemma_contains_concat(b + da, a, id);
        lemma_contains_concat(b, da, id);
        lemma_contains_concat(a, db, id);
        lemma_contains_concat(a, b, id);
        self.0.lemma_derivative_variables(unknown_id, id);
        self.1.lemma_derivative_variables(unknown_id, id);
    }
}

/// The derivative of a logarithm divides by the derivative of the argument,
/// which is zero here: it has no value, and the law holds of it for want of a
/// case.
impl<T: ZeroLaws, A: Vanishing<T> + Copy> Vanishing<T> for Log<A> where
    A: TryReplace<T>,
    <A as TryReplace<T>>::Output: Evaluate<T>,
    A::Derivative: TryReplace<T>,
    <A::Derivative as TryReplace<T>>::Output: Evaluate<T>,
 {
    proof fn lemma_derivative_vanishes(&self, unknown_id: VariableId, values: Map<VariableId, T>) {
        self.0.lemma_derivative_vanishes(unknown_id, values);
        T::lemma_divided_by_zero(self.0.replaced(values).value());
    }

    proof fn lemma_derivative_variables(&self, unknown_id: VariableId, id: VariableId) {
        let a = self.0.variables();
        let da = self.0.derived(unknown_id).variables();
        lemma_contains_concat(a, da, id);
        self.0.lemma_derivative_variables(unknown_id, id);
    }
}

impl<T: ZeroLaws + Expable<Output = T>, A: Vanishing<T> + Copy> Vanishing<T> for Exp<A> where
    A: TryReplace<T>,
    <A as TryReplace<T>>::Output: Evaluate<T>,
    A::Derivative: TryReplace<T>,
    <A::Derivative as TryReplace<T>>::Output: Evaluate<T>,
 {
    proof fn lemma_derivative_vanishes(&self, unknown_id: VariableId, values: Map<VariableId, T>) {
        self.0.lemma_derivative_vanishes(unknown_id, values);
        T::lemma_times_zero(self.0.replaced(values).value().exp_spec());
    }

    proof fn lemma_derivative_variables(&self, unknown_id: VariableId, id: VariableId) {
        let a = self.0.variables();
        let da = self.0.derived(unknown_id).variables();
        lemma_contains_concat(a, da, id);
        self.0.lemma_derivative_variables(unknown_id, id);
    }
}

/// A derivative holds no variable that the tree does not hold: bindings that
/// give every variable of the tree a value give every variable of the
/// derivative one, and the substitution into the derivative succeeds.
pub proof fn lemma_derivative_replaceable<T: ZeroLaws, E: Vanishing<T>>(
    expression: E,
    unknown_id: VariableId,
    values: Map<VariableId, T>,
) where
    E::Derivative: TryReplace<T>,
    <E::Derivative as TryReplace<T>>::Output: Evaluate<T>,
    requires
        first_missing(expression.variables(), values.dom()) is None,
    ensures
        forall|id: VariableId|
            expression.derived(unknown_id).variables().contains(id)
                ==> #[trigger] expression.variables().contains(id),
        replace_outcome(
            expression.derived(unknown_id).variables(),
            values.dom(),
            expression.derived(unknown_id).replaced(values),
        ) == Ok::<<E::Derivative as TryReplace<T>>::Output, TryReplaceError>(
            expression.derived(unknown_id).replaced(values),
        ),
{
    let derivative = expression.derived(unknown_id);
    assert forall|id: VariableId| derivative.variables().contains(id) implies expression.variables().contains(id) by {
        expression.lemma_derivative_variables(unknown_id, id);
    }
    lemma_first_missing(expression.variables(), values.dom());
    lemma_first_missing(derivative.variables(), values.dom());
    assert forall|i: int| 0 <= i < derivative.variables().len() implies values.dom().contains(
        #[trigger] derivative.variables()[i],
    ) by {
        let id = derivative.variables()[i];
        assert(derivative.variables().contains(id));
        assert(expression.variables().contains(id));
        let j = choose|j: int|
            0 <= j < expression.variables().len() && expression.variables()[j] == id;
        assert(values.dom().contains(expression.variables()[j]));
    }
}

/// Differentiating a tree with respect to a variable that it does not hold
/// gives a tree that evaluates to zero under any bindings: where the bindings
/// give every variable of the tree a value, the substitution into the
/// derivative succeeds, and what it returns has the value zero. This holds
/// where the numeric type obeys [`ZeroLaws`] and the derivative can be
/// evaluated at all.
pub proof fn lemma_derivative_without_variable<T: ZeroLaws, E: Vanishing<T>>(
    expression: E,
    unknown_id: VariableId,
    values: Map<VariableId, T>,
) where
    E::Derivative: TryReplace<T>,
    <E::Derivative as TryReplace<T>>::Output: Evaluate<T>,
    requires
        !expression.variables().contains(unknown_id),
        expression.derived(unknown_id).replaced(values).evaluable(),
    ensures
        expression.derived(unknown_id).replaced(values).value() == T::zero_spec(),
        first_missing(expression.variables(), values.dom()) is None ==> replace_outcome(
            expression.derived(unknown_id).variables(),
            values.dom(),
            expression.derived(unknown_id).replaced(values),
        ) == Ok::<<E::Derivative as TryReplace<T>>::Output, TryReplaceError>(
            expression.derived(unknown_id).replaced(values),
        ),
{
    expression.lemma_derivative_vanishes(unknown_id, values);
    if first_missing(expression.variables(), values.dom()) is None {
        lemma_derivative_replaceable(expression, unknown_id, values);
    }
}

/// The derivative of a constant evaluates to zero, whatever the variable.
pub proof fn lemma_constant_derivative<T: Zero + Identity, A>(
    constant: Constant<A>,
    unknown_id: VariableId,
)
    ensures
        Evaluate::<T>::evaluable(&constant.derived(unknown_id)),
        Evaluate::<T>::value(&constant.derived(unknown_id)) == T::zero_spec(),
{
}

/// A tree without variables: one that has a value as it stands, and that a
/// substitution returns as it is.
pub trait Closed<T>: Evaluate<T> + TryReplace<T, Output = Self> + Sized {
    /// The tree has no variable, and replacing variables leaves it as it is.
    proof fn lemma_closed(&self, values: Map<VariableId, T>)
        ensures
            self.variables().len() == 0,
            self.replaced(values) == *self,
    ;
}

impl<T: Copy> Closed<T> for Constant<T> {
    proof fn lemma_closed(&self, values: Map<VariableId, T>) {
    }
}

impl<T: Zero + Identity> Closed<T> for Morph {
    proof fn lemma_closed(&self, values: Map<VariableId, T>) {
    }
}

impl<T: Add<Output = T>, A: Closed<T>, B: Closed<T>> Closed<T> for Plus<A, B> {
    proof fn lemma_closed(&self, values: Map<VariableId, T>) {
        self.0.lemma_closed(values);
        self.1.lemma_closed(values);
    }
}

impl<T: Sub<Output = T>, A: Closed<T>, B: Closed<T>> Closed<T> for Minus<A, B> {
    proof fn lemma_closed(&self, values: Map<VariableId, T>) {
        self.0.lemma_closed(values);
        self.1.lemma_closed(values);
    }
}

impl<T: Mul<Output = T>, A: Closed<T>, B: Closed<T>> Closed<T> for Times<A, B> {
    proof fn lemma_closed(&self, values: Map<VariableId, T>) {
        self.0.lemma_closed(values);
        self.1.lemma_closed(values);
    }
}

impl<T: Div<Output = T>, A: Closed<T>, B: Closed<T>> Closed<T> for Divide<A, B> {
    proof fn lemma_closed(&self, values: Map<VariableId, T>) {
        self.0.lemma_closed(values);
        self.1.lemma_closed(values);
    }
}

impl<T: Pow<Output = T>, A: Closed<T>, B: Closed<T>> Closed<T> for Power<A, B> {
    proof fn lemma_closed(&self, values: Map<VariableId, T>) {
        self.0.lemma_closed(values);
        self.1.lemma_closed(values);
    }
}

impl<T: Logarithm<Output = T>, A: Closed<T>> Closed<T> for Log<A> {
    proof fn lemma_closed(&self, values: Map<VariableId, T>) {
        self.0.lemma_closed(values);
    }
}

impl<T: Expable<Output = T>, A: Closed<T>> Closed<T> for Exp<A> {
    proof fn lemma_closed(&self, values: Map<VariableId, T>) {
        self.0.lemma_closed(values);
    }
}

/// Substitution into a tree without variables succeeds whatever the bindings
/// are, and returns the tree as it was: evaluating the tree and evaluating what
/// the substitution returns give the same value.
pub proof fn lemma_replace_closed<T, E: Closed<T>>(expression: E, values: Map<VariableId, T>)
    ensures
        replace_outcome(
            expression.variables(),
            values.dom(),
            expression.replaced(values),
        ) == Ok::<E, TryReplaceError>(expression),
        expression.replaced(values).evaluable() == expression.evaluable(),
        expression.replaced(values).value() == expression.value(),
{
    expression.lemma_closed(values);
}

/// A substitution succeeds exactly when every variable of the tree has a
/// value. Where it fails, the variable that the error names stands in the tree
/// and has no value.
pub proof fn lemma_replace_fails_on_missing<T, E: TryReplace<T>>(
    expression: E,
    values: Map<VariableId, T>,
)
    ensures
        replace_outcome(expression.variables(), values.dom(), expression.replaced(values))
            is Ok <==> forall|i: int|
            0 <= i < expression.variables().len() ==> values.contains_key(
                #[trigger] expression.variables()[i],
            ),
        replace_outcome(
            expression.variables(),
            values.dom(),
            expression.replaced(values),
        ) matches Err(TryReplaceError::MissingUnknown(id)) ==> expression.variables().contains(id)
            && !values.contains_key(id),
{
    lemma_first_missing(expression.variables(), values.dom());
}

} // verus!
