//! Syntax tree of a small query language over repository history.
//!
//! A [`Query`] holds a chain of boolean terms ([`Expressions`]). A term is a
//! [`Feature`] on its own or a comparison of two [`Operand`]s. A feature names
//! one of four metrics, narrowed by path [`Parameter`]s and optionally reduced
//! to a [`Property`].
//!
//! Values are built from the leaves up and never changed afterwards. Two
//! constructions can fail, and both say when: a parameter from a text that is
//! no glob, and a chain from an empty list.
//!
//! Every type has a mathematical view; the constructors state what they build,
//! `clone` keeps the view, and `==` holds of two values exactly when their
//! views are equal.

pub mod operators;
pub mod pattern;
pub mod parameter;
pub mod feature;
pub mod expression;
pub mod query;
pub mod laws;

pub use expression::{
    Expression, ExpressionView, Expressions, ExpressionsView, Operand, OperandView,
};
pub use feature::{Feature, FeatureView};
pub use operators::{Connective, Property, RelationalOperator, StringOperator};
pub use parameter::{compose_parameters, composed, Parameter, ParameterView};
pub use pattern::{glob_fault, PathPattern, PatternSyntaxError};
pub use query::{Query, QueryView};
