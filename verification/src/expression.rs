//! The operations on trees: evaluation, substitution, evaluation under
//! bindings, and differentiation.
use vstd::prelude::*;
use crate::bindings::{first_missing, replace_outcome, Bindings, TryReplaceError};
use crate::variable::VariableId;

verus! {

/// What every node of a tree has, whatever the numeric type.
pub trait Expression {
    /// The variables of the tree, one entry for each place where one stands, in
    /// the order in which a walk from left to right meets them.
    spec fn variables(&self) -> Seq<VariableId>;
}

/// A tree without variables, which has a value in `T`.
pub trait Evaluate<T> {
    /// Every operation in the tree is defined on the values of its operands.
    spec fn evaluable(&self) -> bool;

    /// The value of the tree.
    spec fn value(&self) -> T;

    fn evaluate(&self) -> (value: T)
        requires
            self.evaluable(),
        ensures
            value == self.value(),
    ;
}

/// Replaces each variable by the constant bound to it.
pub trait TryReplace<T>: Expression {
    type Output;

    /// The tree with each variable replaced by the constant that `values`
    /// binds to it.
    spec fn replaced(&self, values: Map<VariableId, T>) -> Self::Output;

    /// Fails with the first variable, from left to right, that `values` does
    /// not bind; where there is none, returns the tree with every variable
    /// replaced.
    fn try_replace(&self, values: &Bindings<T>) -> (outcome: Result<Self::Output, TryReplaceError>)
        ensures
            outcome == replace_outcome(
                self.variables(),
                values@.dom(),
                self.replaced(values@),
            ),
    ;
}

/// Evaluates a tree in one walk, looking each variable up as the walk meets
/// it. The outcome is that of replacing the variables first and evaluating
/// what comes out: the same error, or the same value.
pub trait TryEvaluate<T>: TryReplace<T> where Self::Output: Evaluate<T> {
    /// A walk from left to right meets no operation that is undefined on the
    /// values of its operands before it meets a variable without a value.
    spec fn computable(&self, values: Map<VariableId, T>) -> bool;

    /// Fails with the first variable, from left to right, that `values` does
    /// not bind; where there is none, returns the value of the tree with
    /// every variable replaced.
    fn try_evaluate(&self, values: &Bindings<T>) -> (outcome: Result<T, TryReplaceError>)
        requires
            self.computable(values@),
        ensures
            outcome == replace_outcome(
                self.variables(),
                values@.dom(),
                self.replaced(values@).value(),
            ),
    ;

    /// Where every variable has a value, the walk is defined exactly when the
    /// tree with every variable replaced can be evaluated.
    proof fn lemma_computable(&self, values: Map<VariableId, T>)
        requires
            first_missing(self.variables(), values.dom()) is None,
        ensures
            self.computable(values) == self.replaced(values).evaluable(),
    ;
}

/// A tree that can be differentiated with respect to a variable.
pub trait Derivative {
    type Derivative;

    /// The derivative of the tree with respect to `unknown_id`, by the rules
    /// of calculus for each kind of node, nothing simplified.
    spec fn derived(&self, unknown_id: VariableId) -> Self::Derivative;

    fn derivative(&self, unknown_id: VariableId) -> (derivative: Self::Derivative)
        ensures
            derivative == self.derived(unknown_id),
    ;
}

} // verus!
