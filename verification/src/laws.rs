//! What holds between the constructors, proved from their contracts.

use vstd::prelude::*;
use vstd::std_specs::cmp::PartialEqSpec;
use crate::expression::{Expression, Expressions, Operand};
use crate::feature::Feature;
use crate::operators::{Connective, RelationalOperator};
use crate::parameter::{composed, Parameter, ParameterView};
use crate::pattern::{glob_fault, PatternSyntaxError};
use crate::query::Query;

verus! {

/// From one text, the construction that takes it owned and the one that
/// borrows it end alike. Where the text is a glob both succeed, and their
/// parameters have the same view, so that `==` finds them equal; where it is
/// none both fail with the same error.
pub proof fn lemma_owned_and_borrowed_agree(
    owned_text: String,
    borrowed_text: &str,
    owned: Result<Parameter, PatternSyntaxError>,
    borrowed: Result<Parameter, PatternSyntaxError>,
)
    requires
        owned_text@ == borrowed_text@,
        ({
            ||| {
                &&& call_ensures(Parameter::path_equal, (owned_text,), owned)
                &&& call_ensures(Parameter::path_equal_str, (borrowed_text,), borrowed)
            }
            ||| {
                &&& call_ensures(Parameter::path_different, (owned_text,), owned)
                &&& call_ensures(Parameter::path_different_str, (borrowed_text,), borrowed)
            }
        }),
    ensures
        Parameter::outcome(owned) == Parameter::outcome(borrowed),
        glob_fault(owned_text@) is None ==> owned is Ok && borrowed is Ok,
        owned matches Ok(a) ==> borrowed matches Ok(b) && a@ == b@ && a.eq_spec(&b),
        owned is Err ==> glob_fault(owned_text@) is Some && borrowed is Err,
{
}

/// A list of one parameter gives the feature that the parameter alone gives,
/// for each of the four metrics.
pub proof fn lemma_one_parameter_list(
    parameter: Parameter,
    list: Vec<Parameter>,
    from_list: Feature,
    from_one: Feature,
)
    requires
        list@ == seq![parameter],
        ({
            ||| {
                &&& call_ensures(Feature::commits_with_parameters, (list,), from_list)
                &&& call_ensures(Feature::commits_with_parameter, (parameter,), from_one)
            }
            ||| {
                &&& call_ensures(Feature::additions_with_parameters, (list,), from_list)
                &&& call_ensures(Feature::additions_with_parameter, (parameter,), from_one)
            }
            ||| {
                &&& call_ensures(Feature::deletions_with_parameters, (list,), from_list)
                &&& call_ensures(Feature::deletions_with_parameter, (parameter,), from_one)
            }
            ||| {
                &&& call_ensures(Feature::changes_with_parameters, (list,), from_list)
                &&& call_ensures(Feature::changes_with_parameter, (parameter,), from_one)
            }
        }),
    ensures
        from_list@ == from_one@,
{
}

/// A list of one term gives the chain of that term alone, whatever the
/// connective.
pub proof fn lemma_one_term_list(
    connective: Connective,
    term: Expression,
    list: Vec<Expression>,
    from_list: Result<Expressions, String>,
    from_one: Expressions,
)
    requires
        list@ == seq![term],
        call_ensures(Expressions::from_expressions, (connective, list), from_list),
        call_ensures(Expressions::from_expression, (term,), from_one),
    ensures
        from_list matches Ok(chain) && chain@ == from_one@,
{
}

/// A query built from the inside out, from operands to a comparison to a chain
/// to the query, holds exactly what went in: taking it apart gives the
/// operator, both operands and the tail back.
pub proof fn lemma_query_round_trip(
    feature: Feature,
    number: i64,
    operator: RelationalOperator,
    tail: Vec<(Connective, Expression)>,
    left: Operand,
    right: Operand,
    head: Expression,
    chain: Expressions,
    query: Query,
)
    requires
        call_ensures(Operand::from_feature, (feature,), left),
        call_ensures(Operand::from_number, (number,), right),
        call_ensures(Expression::new, (operator, left, right), head),
        call_ensures(Expressions::new, (head, tail), chain),
        call_ensures(Query::simple, (chain,), query),
    ensures
        query.expressions.head == (Expression::Compound {
            operator,
            left: Operand::Feature(feature),
            right: Operand::Number(number),
        }),
        query.expressions.tail == tail,
{
}

/// What a chain of parameters flattens to does not depend on its
/// connectives: two tails with the same parameters in the same places give
/// the same list.
pub proof fn lemma_composed_ignores_connectives(
    head: ParameterView,
    tail: Seq<(Connective, ParameterView)>,
    other: Seq<(Connective, ParameterView)>,
)
    requires
        tail.len() == other.len(),
        forall|i: int| 0 <= i < tail.len() ==> tail[i].1 == other[i].1,
    ensures
        composed(head, tail) == composed(head, other),
{
}

/// A flattened chain starts with the head and goes on with the parameters of
/// the tail, one for one.
pub proof fn lemma_composed_order(head: ParameterView, tail: Seq<(Connective, ParameterView)>)
    ensures
        composed(head, tail).len() == tail.len() + 1,
        composed(head, tail)[0] == head,
        forall|i: int| 0 <= i < tail.len() ==> #[trigger] composed(head, tail)[i + 1] == tail[i].1,
{
}

} // verus!
