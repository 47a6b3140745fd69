//! Operands, boolean terms, and chains of terms.

use vstd::prelude::*;
use vstd::std_specs::cmp::PartialEqSpecImpl;
use crate::feature::{Feature, FeatureView};
use crate::operators::{Connective, RelationalOperator};

verus! {

/// One side of a comparison: what a feature measures, or a number.
#[derive(Debug)]
pub enum Operand {
    Feature(Feature),
    Number(i64),
}

/// What an [`Operand`] stands for.
pub enum OperandView {
    Feature(FeatureView),
    Number(i64),
}

impl View for Operand {
    type V = OperandView;

    open spec fn view(&self) -> OperandView {
        match self {
            Operand::Feature(feature) => OperandView::Feature(feature@),
            Operand::Number(number) => OperandView::Number(*number),
        }
    }
}

impl DeepView for Operand {
    type V = OperandView;

    open spec fn deep_view(&self) -> OperandView {
        self@
    }
}

impl Operand {
    /// The number that `feature` measures.
    pub fn from_feature(feature: Feature) -> (r: Operand)
        ensures
            r == Operand::Feature(feature),
    {
        Operand::Feature(feature)
    }

    /// The number itself.
    pub fn from_number(number: i64) -> (r: Operand)
        ensures
            r == Operand::Number(number),
    {
        Operand::Number(number)
    }
}

impl Clone for Operand {
    fn clone(&self) -> (r: Self)
        ensures
            r@ == self@,
    {
        match self {
            Operand::Feature(feature) => Operand::Feature(feature.clone()),
            Operand::Number(number) => Operand::Number(*number),
        }
    }
}

impl PartialEq for Operand {
    fn eq(&self, other: &Self) -> (r: bool) {
        match (self, other) {
            (Operand::Feature(feature), Operand::Feature(other_feature)) => *feature
                == *other_feature,
            (Operand::Number(number), Operand::Number(other_number)) => *number == *other_number,
            _ => false,
        }
    }
}

impl PartialEqSpecImpl for Operand {
    open spec fn obeys_eq_spec() -> bool {
        true
    }

    open spec fn eq_spec(&self, other: &Self) -> bool {
        self@ == other@
    }
}

/// A boolean term: a feature taken as a truth value, or a comparison of two
/// operands.
#[derive(Debug)]
pub enum Expression {
    Simple(Feature),
    Compound { operator: RelationalOperator, left: Operand, right: Operand },
}

/// What an [`Expression`] stands for.
pub enum ExpressionView {
    Simple(FeatureView),
    Compound { operator: RelationalOperator, left: OperandView, right: OperandView },
}

impl View for Expression {
    type V = ExpressionView;

    open spec fn view(&self) -> ExpressionView {
        match self {
            Expression::Simple(feature) => ExpressionView::Simple(feature@),
            Expression::Compound { operator, left, right } => ExpressionView::Compound {
                operator: *operator,
                left: left@,
                right: right@,
            },
        }
    }
}

impl DeepView for Expression {
    type V = ExpressionView;

    open spec fn deep_view(&self) -> ExpressionView {
        self@
    }
}

impl Expression {
    /// `feature` as a term.
    pub fn from_feature(feature: Feature) -> (r: Expression)
        ensures
            r == Expression::Simple(feature),
    {
        Expression::Simple(feature)
    }

    /// The comparison of `left` with `right` by `operator`. Any two operands
    /// may be compared.
    pub fn new(operator: RelationalOperator, left: Operand, right: Operand) -> (r: Expression)
        ensures
            r == (Expression::Compound { operator, left, right }),
    {
        Expression::Compound { operator, left, right }
    }
}

impl Clone for Expression {
    fn clone(&self) -> (r: Self)
        ensures
            r@ == self@,
    {
        match self {
            Expression::Simple(feature) => Expression::Simple(feature.clone()),
            Expression::Compound { operator, left, right } => Expression::Compound {
                operator: *operator,
                left: left.clone(),
                right: right.clone(),
            },
        }
    }
}

impl PartialEq for Expression {
    fn eq(&self, other: &Self) -> (r: bool) {
        match (self, other) {
            (Expression::Simple(feature), Expression::Simple(other_feature)) => *feature
                == *other_feature,
            (
                Expression::Compound { operator, left, right },
                Expression::Compound {
                    operator: other_operator,
                    left: other_left,
                    right: other_right,
                },
            ) => *operator == *other_operator && *left == *other_left && *right == *other_right,
            _ => false,
        }
    }
}

impl PartialEqSpecImpl for Expression {
    open spec fn obeys_eq_spec() -> bool {
        true
    }

    open spec fn eq_spec(&self, other: &Self) -> bool {
        self@ == other@
    }
}

/// A chain of terms: `head`, then each term of `tail` joined to what stands
/// before it by its connective.
#[derive(Debug)]
pub struct Expressions {
    pub head: Expression,
    pub tail: Vec<(Connective, Expression)>,
}

/// What an [`Expressions`] chain stands for.
#[verifier::ext_equal]
pub struct ExpressionsView {
    pub head: ExpressionView,
    pub tail: Seq<(Connective, ExpressionView)>,
}

impl View for Expressions {
    type V = ExpressionsView;

    open spec fn view(&self) -> ExpressionsView {
        ExpressionsView { head: self.head@, tail: self.tail.deep_view() }
    }
}

impl DeepView for Expressions {
    type V = ExpressionsView;

    open spec fn deep_view(&self) -> ExpressionsView {
        self@
    }
}

impl Expressions {
    /// Each of `rest`, in order, with `connective` before it.
    pub open spec fn joined(
        connective: Connective,
        rest: Seq<Expression>,
    ) -> Seq<(Connective, Expression)> {
        Seq::new(rest.len(), |i: int| (connective, rest[i]))
    }

    /// The chain of `head` and `tail`. `tail` may be empty.
    pub fn new(head: Expression, tail: Vec<(Connective, Expression)>) -> (r: Expressions)
        ensures
            r == (Expressions { head, tail }),
    {
        Expressions { head, tail }
    }

    /// The chain of one term.
    pub fn from_expression(head: Expression) -> (r: Expressions)
        ensures
            r.head == head,
            r.tail@ == Seq::<(Connective, Expression)>::empty(),
    {
        Expressions { head, tail: Vec::new() }
    }

    /// The chain of `expressions` in their order, all joined by `connective`.
    /// An empty list makes no chain.
    pub fn from_expressions(
        connective: Connective,
        expressions: Vec<Expression>,
    ) -> (r: Result<Expressions, String>)
        ensures
            match r {
                Ok(chain) => {
                    &&& expressions@.len() > 0
                    &&& chain.head == expressions@[0]
                    &&& chain.tail@ == Self::joined(connective, expressions@.skip(1))
                },
                Err(message) => {
                    &&& expressions@.len() == 0
                    &&& message@ == "At least one feature must be provided."@
                },
            },
    {
        let mut expressions = expressions;
        if expressions.len() < 1 {
            return Err("At least one feature must be provided.".to_string());
        }
        let ghost given = expressions@;
        let head = expressions.remove(0);
        let mut tail: Vec<(Connective, Expression)> = Vec::new();
        for expression in it: expressions
            invariant
                it.seq() == given.skip(1),
                tail@ == Self::joined(connective, given.skip(1).take(it.index() as int)),
        {
            tail.push((connective, expression));
        }
        Ok(Expressions { head, tail })
    }
}

/// A copy of `tail`, pair by pair.
fn clone_tail(tail: &Vec<(Connective, Expression)>) -> (r: Vec<(Connective, Expression)>)
    ensures
        r.deep_view() == tail.deep_view(),
{
    let mut copy: Vec<(Connective, Expression)> = Vec::new();
    let mut i: usize = 0;
    while i < tail.len()
        invariant
            i <= tail.len(),
            copy@.len() == i,
            forall|k: int| 0 <= k < i ==> (#[trigger] copy@[k]).0 == tail@[k].0,
            forall|k: int| 0 <= k < i ==> (#[trigger] copy@[k]).1@ == tail@[k].1@,
        decreases tail.len() - i,
    {
        copy.push((tail[i].0, tail[i].1.clone()));
        i += 1;
    }
    copy
}

/// Whether two tails hold the same connectives and terms in the same order.
fn same_tail(a: &Vec<(Connective, Expression)>, b: &Vec<(Connective, Expression)>) -> (r: bool)
    ensures
        r == (a.deep_view() == b.deep_view()),
{
    if a.len() != b.len() {
        assert(a.deep_view().len() != b.deep_view().len());
        return false;
    }
    let mut i: usize = 0;
    while i < a.len()
        invariant
            i <= a.len(),
            a.len() == b.len(),
            forall|k: int| 0 <= k < i ==> (#[trigger] a@[k]).0 == b@[k].0,
            forall|k: int| 0 <= k < i ==> (#[trigger] a@[k]).1@ == b@[k].1@,
        decreases a.len() - i,
    {
        if !(a[i].0 == b[i].0 && a[i].1 == b[i].1) {
            assert(a.deep_view()[i as int] != b.deep_view()[i as int]);
            return false;
        }
        i += 1;
    }
    assert(a.deep_view() =~= b.deep_view());
    true
}

impl Clone for Expressions {
    fn clone(&self) -> (r: Self)
        ensures
            r@ == self@,
    {
        Expressions { head: self.head.clone(), tail: clone_tail(&self.tail) }
    }
}

impl PartialEq for Expressions {
    fn eq(&self, other: &Self) -> (r: bool) {
        self.head == other.head && same_tail(&self.tail, &other.tail)
    }
}

impl PartialEqSpecImpl for Expressions {
    open spec fn obeys_eq_spec() -> bool {
        true
    }

    open spec fn eq_spec(&self, other: &Self) -> bool {
        self@ == other@
    }
}

} // verus!
