//! The identities of a numeric type that is chosen late.
use vstd::prelude::*;
use vstd::string::*;
use crate::bindings::{Bindings, TryReplaceError};
use crate::display::{DisplayExpr, Operation, OperationOrder};
use crate::expression::{Derivative, Evaluate, Expression, TryEvaluate, TryReplace};
use crate::numeric::{Identity, Zero};
use crate::variable::VariableId;

verus! {

/// The additive or the multiplicative identity of a numeric type that is not
/// chosen before the tree is evaluated.
#[derive(Clone, Copy, Debug, PartialEq, Eq, Structural)]
pub enum Morph {
    Zero,
    Identity,
}

impl Expression for Morph {
    open spec fn variables(&self) -> Seq<VariableId> {
        Seq::empty()
    }
}

impl Operation for Morph {
    open spec fn class(&self) -> Option<OperationOrder> {
        None
    }

    fn operation(&self) -> (operation: Option<OperationOrder>) {
        None
    }
}

impl DisplayExpr for Morph {
    open spec fn text(&self) -> Seq<char> {
        match self {
            Morph::Zero => seq!['0'],
            Morph::Identity => seq!['1'],
        }
    }

    fn to_string(&self) -> (text: String) {
        proof {
            reveal_strlit("0");
            reveal_strlit("1");
        }
        let text = match self {
            Morph::Zero => String::from_str("0"),
            Morph::Identity => String::from_str("1"),
        };
        assert(text@ =~= self.text());
        text
    }
}

impl<T: Zero + Identity> Evaluate<T> for Morph {
    open spec fn evaluable(&self) -> bool {
        true
    }

    open spec fn value(&self) -> T {
        match self {
            Morph::Zero => T::zero_spec(),
            Morph::Identity => T::identity_spec(),
        }
    }

    fn evaluate(&self) -> (value: T) {
        match self {
            Morph::Zero => T::zero(),
            Morph::Identity => T::identity(),
        }
    }
}

impl<T> TryReplace<T> for Morph {
    type Output = Self;

    open spec fn replaced(&self, values: Map<VariableId, T>) -> Self {
        *self
    }

    fn try_replace(&self, values: &Bindings<T>) -> (outcome: Result<Self, TryReplaceError>) {
        Ok(*self)
    }
}

impl<T: Zero + Identity> TryEvaluate<T> for Morph {
    open spec fn computable(&self, values: Map<VariableId, T>) -> bool {
        true
    }

    fn try_evaluate(&self, values: &Bindings<T>) -> (outcome: Result<T, TryReplaceError>) {
        Ok(self.evaluate())
    }

    proof fn lemma_computable(&self, values: Map<VariableId, T>) {
    }
}

impl Derivative for Morph {
    type Derivative = Morph;

    open spec fn derived(&self, unknown_id: VariableId) -> Morph {
        Morph::Zero
    }

    fn derivative(&self, unknown_id: VariableId) -> (derivative: Morph) {
        Morph::Zero
    }
}

} // verus!
