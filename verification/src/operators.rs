//! The closed sets: operators, connectives, and what can be derived from a
//! feature.

use vstd::prelude::*;

verus! {

/// How a path is held against a pattern.
#[derive(PartialEq, Eq, Structural, Debug, Clone, Copy)]
pub enum StringOperator {
    Equal,
    Different,
}

/// How two numbers are compared.
#[derive(PartialEq, Eq, Structural, Debug, Clone, Copy)]
pub enum RelationalOperator {
    Equal,
    Different,
    Less,
    LessEqual,
    Greater,
    GreaterEqual,
}

/// How two neighbouring terms of a chain are joined.
#[derive(PartialEq, Eq, Structural, Debug, Clone, Copy)]
pub enum Connective {
    Conjunction,
}

/// A value derived from the events that a feature selects.
#[derive(PartialEq, Eq, Structural, Debug, Clone, Copy)]
pub enum Property {
    ElapsedTime,
}

impl DeepView for Connective {
    type V = Connective;

    open spec fn deep_view(&self) -> Connective {
        *self
    }
}

} // verus!
