//! Values bound to variables, and what a substitution makes of the variables
//! that have none.
use vstd::prelude::*;
use vstd::string::*;
use std::collections::HashMap;
use crate::display::{decimal, display_decimal};
use crate::variable::VariableId;

verus! {

broadcast use vstd::std_specs::hash::group_hash_axioms;

/// Why a substitution failed.
#[derive(Clone, Copy, Debug, PartialEq, Eq, Structural)]
pub enum TryReplaceError {
    /// The variable has no value bound to it.
    MissingUnknown(VariableId),
}

impl TryReplaceError {
    /// The error as text: the name of the variant and, in brackets, the
    /// variable with its number.
    pub open spec fn text(&self) -> Seq<char> {
        match self {
            TryReplaceError::MissingUnknown(id) => "MissingUnknown(VariableId("@ + decimal(
                id.0 as nat,
            ) + "))"@,
        }
    }

    /// Writes the error as text.
    pub fn to_string(&self) -> (text: String)
        ensures
            text@ == self.text(),
    {
        match self {
            TryReplaceError::MissingUnknown(id) => {
                let mut text = String::from_str("MissingUnknown(VariableId(");
                let number = display_decimal(id.0 as u128);
                text.append(number.as_str());
                text.append("))");
                text
            },
        }
    }
}

/// Values bound to variables, at most one to each.
pub struct Bindings<T> {
    values: HashMap<u32, T>,
}

impl<T> View for Bindings<T> {
    type V = Map<VariableId, T>;

    closed spec fn view(&self) -> Map<VariableId, T> {
        Map::new(
            |id: VariableId| self.values@.contains_key(id.0),
            |id: VariableId| self.values@[id.0],
        )
    }
}

impl<T> Bindings<T> {
    /// No variable is bound.
    pub fn new() -> (bindings: Self)
        ensures
            bindings@ == Map::<VariableId, T>::empty(),
    {
        let bindings = Bindings { values: HashMap::new() };
        assert(bindings@ =~= Map::<VariableId, T>::empty());
        bindings
    }

    /// Binds `value` to `id`, in place of what was bound to it before.
    pub fn insert(&mut self, id: VariableId, value: T)
        ensures
            final(self)@ == old(self)@.insert(id, value),
    {
        self.values.insert(id.0, value);
        assert(self@ =~= old(self)@.insert(id, value));
    }

    /// The value bound to `id`, if there is one.
    pub fn get(&self, id: VariableId) -> (value: Option<&T>)
        ensures
            value == if self@.contains_key(id) {
                Some(&self@[id])
            } else {
                None
            },
    {
        self.values.get(&id.0)
    }
}

/// The first of `variables` that is not among `bound`.
pub open spec fn first_missing(variables: Seq<VariableId>, bound: Set<VariableId>) -> Option<
    VariableId,
>
    decreases variables.len(),
{
    if variables.len() == 0 {
        None
    } else if !bound.contains(variables[0]) {
        Some(variables[0])
    } else {
        first_missing(variables.drop_first(), bound)
    }
}

/// A sequence of one variable misses that variable, or none.
pub proof fn lemma_first_missing_one(id: VariableId, bound: Set<VariableId>)
    ensures
        first_missing(seq![id], bound) == if bound.contains(id) {
            None
        } else {
            Some(id)
        },
{
    let rest = seq![id].drop_first();
    assert(rest.len() == 0);
    assert(first_missing(rest, bound) is None);
}

/// What a substitution returns: the error that names the first variable
/// without a value, or `replaced` where every variable has one.
pub open spec fn replace_outcome<R>(
    variables: Seq<VariableId>,
    bound: Set<VariableId>,
    replaced: R,
) -> Result<R, TryReplaceError> {
    match first_missing(variables, bound) {
        Some(id) => Err(TryReplaceError::MissingUnknown(id)),
        None => Ok(replaced),
    }
}

/// In a tree made of two parts, the first missing variable is that of the left
/// part, and that of the right part where the left part misses none.
pub proof fn lemma_first_missing_concat(
    left: Seq<VariableId>,
    right: Seq<VariableId>,
    bound: Set<VariableId>,
)
    ensures
        first_missing(left + right, bound) == match first_missing(left, bound) {
            Some(id) => Some(id),
            None => first_missing(right, bound),
        },
    decreases left.len(),
{
    if left.len() == 0 {
        assert(left + right =~= right);
    } else {
        assert((left + right).drop_first() =~= left.drop_first() + right);
        if bound.contains(left[0]) {
            lemma_first_missing_concat(left.drop_first(), right, bound);
        }
    }
}

/// `first_missing` finds nothing exactly when every variable is bound, and
/// what it finds is a variable of the sequence that is not bound and has only
/// bound variables before it.
pub proof fn lemma_first_missing(variables: Seq<VariableId>, bound: Set<VariableId>)
    ensures
        first_missing(variables, bound) is None <==> forall|i: int|
            0 <= i < variables.len() ==> bound.contains(#[trigger] variables[i]),
        first_missing(variables, bound) matches Some(id) ==> exists|i: int|
            {
                &&& 0 <= i < variables.len()
                &&& #[trigger] variables[i] == id
                &&& !bound.contains(id)
                &&& forall|j: int| 0 <= j < i ==> bound.contains(#[trigger] variables[j])
            },
    decreases variables.len(),
{
    if variables.len() > 0 {
        let rest = variables.drop_first();
        lemma_first_missing(rest, bound);
        if bound.contains(variables[0]) {
            assert forall|i: int| 0 <= i < rest.len() implies rest[i] == variables[i + 1] by {}
            if first_missing(rest, bound) is None {
                assert forall|i: int| 0 <= i < variables.len() implies bound.contains(
                    #[trigger] variables[i],
                ) by {
                    if i > 0 {
                        assert(variables[i] == rest[i - 1]);
                    }
                }
            } else {
                let id = first_missing(rest, bound)->0;
                let i = choose|i: int|
                    {
                        &&& 0 <= i < rest.len()
                        &&& #[trigger] rest[i] == id
                        &&& !bound.contains(id)
                        &&& forall|j: int| 0 <= j < i ==> bound.contains(#[trigger] rest[j])
                    };
                assert(variables[i + 1] == id);
                assert forall|j: int| 0 <= j < i + 1 implies bound.contains(
                    #[trigger] variables[j],
                ) by {
                    if j > 0 {
                        assert(variables[j] == rest[j - 1]);
                    }
                }
                assert(!(forall|k: int|
                    0 <= k < variables.len() ==> bound.contains(#[trigger] variables[k])));
            }
        } else {
            assert(variables[0] == variables[0]);
        }
    }
}

} // verus!
