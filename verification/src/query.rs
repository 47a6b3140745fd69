//! The query: what a parser hands to whoever evaluates it.

use vstd::prelude::*;
use vstd::std_specs::cmp::PartialEqSpecImpl;
use crate::expression::{Expressions, ExpressionsView};

verus! {

/// A whole query: one chain of terms.
#[derive(Debug)]
pub struct Query {
    pub expressions: Expressions,
}

/// What a [`Query`] stands for.
pub struct QueryView {
    pub expressions: ExpressionsView,
}

impl View for Query {
    type V = QueryView;

    open spec fn view(&self) -> QueryView {
        QueryView { expressions: self.expressions@ }
    }
}

impl DeepView for Query {
    type V = QueryView;

    open spec fn deep_view(&self) -> QueryView {
        self@
    }
}

impl Query {
    /// The query that asks for `expressions`.
    pub fn simple(expressions: Expressions) -> (r: Query)
        ensures
            r == (Query { expressions }),
    {
        Query { expressions }
    }
}

impl Clone for Query {
    fn clone(&self) -> (r: Self)
        ensures
            r@ == self@,
    {
        Query { expressions: self.expressions.clone() }
    }
}

impl PartialEq for Query {
    fn eq(&self, other: &Self) -> (r: bool) {
        self.expressions == other.expressions
    }
}

impl PartialEqSpecImpl for Query {
    open spec fn obeys_eq_spec() -> bool {
        true
    }

    open spec fn eq_spec(&self, other: &Self) -> bool {
        self@ == other@
    }
}

} // verus!
