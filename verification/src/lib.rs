//! Symbolic expressions over a numeric type of the caller's choice.
//!
//! A tree is built from [`Constant`]s, [`VariableId`]s and the operator nodes
//! [`Plus`], [`Minus`], [`Times`], [`Divide`], [`Power`], [`Log`] and [`Exp`].
//! A tree can be evaluated ([`Evaluate`]), have its variables replaced by the
//! values bound to them ([`TryReplace`]), be differentiated with respect to a
//! variable ([`Derivative`]) and be written as infix text ([`DisplayExpr`]).
//! No operation rewrites or simplifies a tree.
pub mod bindings;
pub mod constant;
pub mod display;
pub mod divide;
pub mod exp;
pub mod expression;
pub mod laws;
pub mod log;
pub mod minus;
pub mod morph;
pub mod numeric;
pub mod plus;
pub mod power;
pub mod times;
pub mod variable;

pub use crate::bindings::{Bindings, TryReplaceError};
pub use crate::constant::{constant, Constant};
pub use crate::display::{DisplayExpr, Literal, Operation, OperationOrder};
pub use crate::divide::Divide;
pub use crate::exp::{exp, Exp};
pub use crate::expression::{Derivative, Evaluate, Expression, TryEvaluate, TryReplace};
pub use crate::log::{log, Log};
pub use crate::minus::Minus;
pub use crate::morph::Morph;
pub use crate::numeric::{Expable, Identity, Logarithm, Pow, Zero};
pub use crate::plus::Plus;
pub use crate::power::{pow, Power};
pub use crate::times::Times;
pub use crate::variable::{VariableGenerator, VariableId};
