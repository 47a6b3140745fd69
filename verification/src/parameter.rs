//! Path parameters, which narrow a feature to part of the changed files.

use vstd::prelude::*;
use vstd::std_specs::cmp::PartialEqSpecImpl;
use crate::operators::{Connective, StringOperator};
use crate::pattern::{glob_fault, PathPattern, PatternSyntaxError};

verus! {

/// A condition on the paths of changed files.
#[derive(Debug)]
pub enum Parameter {
    Path { operator: StringOperator, pattern: PathPattern },
}

/// What a [`Parameter`] stands for: an operator and the text of a pattern.
pub enum ParameterView {
    Path { operator: StringOperator, pattern: Seq<char> },
}

impl View for Parameter {
    type V = ParameterView;

    open spec fn view(&self) -> ParameterView {
        match self {
            Parameter::Path { operator, pattern } => ParameterView::Path {
                operator: *operator,
                pattern: pattern@,
            },
        }
    }
}

impl DeepView for Parameter {
    type V = ParameterView;

    open spec fn deep_view(&self) -> ParameterView {
        self@
    }
}

impl ParameterView {
    /// The parameter made of `operator` and `pattern` where `pattern` is a
    /// glob, else what is wrong with `pattern`.
    pub open spec fn path(
        operator: StringOperator,
        pattern: Seq<char>,
    ) -> Result<ParameterView, (usize, Seq<char>)> {
        match glob_fault(pattern) {
            None => Ok(ParameterView::Path { operator, pattern }),
            Some(fault) => Err(fault),
        }
    }
}

impl Parameter {
    /// The view of a parameter or of the error that came in its place.
    pub open spec fn outcome(
        r: Result<Parameter, PatternSyntaxError>,
    ) -> Result<ParameterView, (usize, Seq<char>)> {
        match r {
            Ok(parameter) => Ok(parameter@),
            Err(e) => Err(e@),
        }
    }

    /// Joins `operator` to a pattern that compiled, and hands on the error of
    /// one that did not.
    pub fn path(
        operator: StringOperator,
        compiled: Result<PathPattern, PatternSyntaxError>,
    ) -> (r: Result<Parameter, PatternSyntaxError>)
        ensures
            match compiled {
                Ok(pattern) => r == Ok::<Parameter, PatternSyntaxError>(
                    Parameter::Path { operator, pattern },
                ),
                Err(e) => r == Err::<Parameter, PatternSyntaxError>(e),
            },
    {
        match compiled {
            Ok(pattern) => Ok(Parameter::Path { operator, pattern }),
            Err(e) => Err(e),
        }
    }

    /// Paths that match `pattern`.
    pub fn path_equal(pattern: String) -> (r: Result<Parameter, PatternSyntaxError>)
        ensures
            Self::outcome(r) == ParameterView::path(StringOperator::Equal, pattern@),
    {
        Self::path(StringOperator::Equal, PathPattern::new(pattern.as_str()))
    }

    /// Paths that do not match `pattern`.
    pub fn path_different(pattern: String) -> (r: Result<Parameter, PatternSyntaxError>)
        ensures
            Self::outcome(r) == ParameterView::path(StringOperator::Different, pattern@),
    {
        Self::path(StringOperator::Different, PathPattern::new(pattern.as_str()))
    }

    /// Paths that match `pattern`.
    pub fn path_equal_str(pattern: &str) -> (r: Result<Parameter, PatternSyntaxError>)
        ensures
            Self::outcome(r) == ParameterView::path(StringOperator::Equal, pattern@),
    {
        Self::path(StringOperator::Equal, PathPattern::new(pattern))
    }

    /// Paths that do not match `pattern`.
    pub fn path_different_str(pattern: &str) -> (r: Result<Parameter, PatternSyntaxError>)
        ensures
            Self::outcome(r) == ParameterView::path(StringOperator::Different, pattern@),
    {
        Self::path(StringOperator::Different, PathPattern::new(pattern))
    }
}

impl Clone for Parameter {
    fn clone(&self) -> (r: Self)
        ensures
            r@ == self@,
    {
        match self {
            Parameter::Path { operator, pattern } => Parameter::Path {
                operator: *operator,
                pattern: pattern.clone(),
            },
        }
    }
}

impl PartialEq for Parameter {
    fn eq(&self, other: &Self) -> (r: bool) {
        match (self, other) {
            (
                Parameter::Path { operator, pattern },
                Parameter::Path { operator: other_operator, pattern: other_pattern },
            ) => *operator == *other_operator && *pattern == *other_pattern,
        }
    }
}

impl PartialEqSpecImpl for Parameter {
    open spec fn obeys_eq_spec() -> bool {
        true
    }

    open spec fn eq_spec(&self, other: &Self) -> bool {
        self@ == other@
    }
}

/// `head`, then the parameter of each pair of `tail`.
pub open spec fn composed(
    head: ParameterView,
    tail: Seq<(Connective, ParameterView)>,
) -> Seq<ParameterView> {
    seq![head] + Seq::new(tail.len(), |i: int| tail[i].1)
}

/// Flattens a chain of parameters into the list that a feature takes: `head`
/// first, then the parameters of `tail` in their order. The connectives are
/// left out, since a feature asks for all of its parameters at once.
pub fn compose_parameters(head: Parameter, tail: &[(Connective, Parameter)]) -> (r: Vec<Parameter>)
    ensures
        r.deep_view() == composed(head@, tail.deep_view()),
        r@[0] == head,
{
    let mut parameters: Vec<Parameter> = Vec::new();
    parameters.push(head);
    let mut i: usize = 0;
    while i < tail.len()
        invariant
            i <= tail.len(),
            parameters@.len() == i + 1,
            parameters@[0] == head,
            forall|k: int| 0 <= k < i ==> (#[trigger] parameters@[k + 1])@ == tail@[k].1@,
        decreases tail.len() - i,
    {
        parameters.push(tail[i].1.clone());
        i += 1;
    }
    proof {
        let flat = parameters.deep_view();
        let wanted = composed(head@, tail.deep_view());
        assert forall|k: int| 0 <= k < flat.len() implies flat[k] == wanted[k] by {
            if k > 0 {
                assert(parameters@[(k - 1) + 1]@ == tail@[k - 1].1@);
            }
        }
    }
    parameters
}

} // verus!
