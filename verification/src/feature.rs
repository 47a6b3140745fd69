//! Features: the four metrics of repository history.

use vstd::prelude::*;
use vstd::std_specs::cmp::PartialEqSpecImpl;
use crate::operators::Property;
use crate::parameter::{Parameter, ParameterView};

verus! {

/// A metric of the history. It counts the events on the files that meet all
/// of `parameters`; with a `property` it stands for that value of those events
/// in place of their count.
#[derive(Debug)]
pub enum Feature {
    Commits { parameters: Vec<Parameter>, property: Option<Property> },
    Additions { parameters: Vec<Parameter>, property: Option<Property> },
    Deletions { parameters: Vec<Parameter>, property: Option<Property> },
    Changes { parameters: Vec<Parameter>, property: Option<Property> },
}

/// What a [`Feature`] stands for: the same metric, over the views of the
/// parameters in their order.
#[verifier::ext_equal]
pub enum FeatureView {
    Commits { parameters: Seq<ParameterView>, property: Option<Property> },
    Additions { parameters: Seq<ParameterView>, property: Option<Property> },
    Deletions { parameters: Seq<ParameterView>, property: Option<Property> },
    Changes { parameters: Seq<ParameterView>, property: Option<Property> },
}

impl View for Feature {
    type V = FeatureView;

    open spec fn view(&self) -> FeatureView {
        match self {
            Feature::Commits { parameters, property } => FeatureView::Commits {
                parameters: parameters.deep_view(),
                property: *property,
            },
            Feature::Additions { parameters, property } => FeatureView::Additions {
                parameters: parameters.deep_view(),
                property: *property,
            },
            Feature::Deletions { parameters, property } => FeatureView::Deletions {
                parameters: parameters.deep_view(),
                property: *property,
            },
            Feature::Changes { parameters, property } => FeatureView::Changes {
                parameters: parameters.deep_view(),
                property: *property,
            },
        }
    }
}

impl DeepView for Feature {
    type V = FeatureView;

    open spec fn deep_view(&self) -> FeatureView {
        self@
    }
}

impl Feature {
    /// The parameters, in the order in which they were given.
    pub open spec fn parameters(self) -> Seq<Parameter> {
        match self {
            Feature::Commits { parameters, .. } => parameters@,
            Feature::Additions { parameters, .. } => parameters@,
            Feature::Deletions { parameters, .. } => parameters@,
            Feature::Changes { parameters, .. } => parameters@,
        }
    }

    /// The number of commits.
    pub fn commits_simple() -> (r: Feature)
        ensures
            r@ == (FeatureView::Commits { parameters: Seq::empty(), property: None }),
    {
        Feature::Commits { parameters: Vec::new(), property: None }
    }

    /// The number of commits to the files that meet `parameter`.
    pub fn commits_with_parameter(parameter: Parameter) -> (r: Feature)
        ensures
            r@ == (FeatureView::Commits { parameters: seq![parameter@], property: None }),
            r.parameters() == seq![parameter],
    {
        Feature::Commits { parameters: vec![parameter], property: None }
    }

    /// The number of commits to the files that meet every one of
    /// `parameters`. The list is kept as it is given.
    pub fn commits_with_parameters(parameters: Vec<Parameter>) -> (r: Feature)
        ensures
            r == (Feature::Commits { parameters, property: None }),
            r@ == (FeatureView::Commits { parameters: parameters.deep_view(), property: None }),
    {
        Feature::Commits { parameters, property: None }
    }

    /// `property` of the commits.
    pub fn commits_with_property(property: Property) -> (r: Feature)
        ensures
            r@ == (FeatureView::Commits { parameters: Seq::empty(), property: Some(property) }),
    {
        Feature::Commits { parameters: Vec::new(), property: Some(property) }
    }

    /// `property` of the commits to the files that meet every one of
    /// `parameters`. The list is kept as it is given.
    pub fn commits(parameters: Vec<Parameter>, property: Property) -> (r: Feature)
        ensures
            r == (Feature::Commits { parameters, property: Some(property) }),
            r@ == (FeatureView::Commits {
                parameters: parameters.deep_view(),
                property: Some(property),
            }),
    {
        Feature::Commits { parameters, property: Some(property) }
    }

    /// The number of added lines.
    pub fn additions_simple() -> (r: Feature)
        ensures
            r@ == (FeatureView::Additions { parameters: Seq::empty(), property: None }),
    {
        Feature::Additions { parameters: Vec::new(), property: None }
    }

    /// The number of added lines in the files that meet `parameter`.
    pub fn additions_with_parameter(parameter: Parameter) -> (r: Feature)
        ensures
            r@ == (FeatureView::Additions { parameters: seq![parameter@], property: None }),
            r.parameters() == seq![parameter],
    {
        Feature::Additions { parameters: vec![parameter], property: None }
    }

    /// The number of added lines in the files that meet every one of
    /// `parameters`. The list is kept as it is given.
    pub fn additions_with_parameters(parameters: Vec<Parameter>) -> (r: Feature)
        ensures
            r == (Feature::Additions { parameters, property: None }),
            r@ == (FeatureView::Additions { parameters: parameters.deep_view(), property: None }),
    {
        Feature::Additions { parameters, property: None }
    }

    /// `property` of the added lines.
    pub fn additions_with_property(property: Property) -> (r: Feature)
        ensures
            r@ == (FeatureView::Additions { parameters: Seq::empty(), property: Some(property) }),
    {
        Feature::Additions { parameters: Vec::new(), property: Some(property) }
    }

    /// `property` of the added lines in the files that meet every one of
    /// `parameters`. The list is kept as it is given.
    pub fn additions(parameters: Vec<Parameter>, property: Property) -> (r: Feature)
        ensures
            r == (Feature::Additions { parameters, property: Some(property) }),
            r@ == (FeatureView::Additions {
                parameters: parameters.deep_view(),
                property: Some(property),
            }),
    {
        Feature::Additions { parameters, property: Some(property) }
    }

    /// The number of deleted lines.
    pub fn deletions_simple() -> (r: Feature)
        ensures
            r@ == (FeatureView::Deletions { parameters: Seq::empty(), property: None }),
    {
        Feature::Deletions { parameters: Vec::new(), property: None }
    }

    /// The number of deleted lines in the files that meet `parameter`.
    pub fn deletions_with_parameter(parameter: Parameter) -> (r: Feature)
        ensures
            r@ == (FeatureView::Deletions { parameters: seq![parameter@], property: None }),
            r.parameters() == seq![parameter],
    {
        Feature::Deletions { parameters: vec![parameter], property: None }
    }

    /// The number of deleted lines in the files that meet every one of
    /// `parameters`. The list is kept as it is given.
    pub fn deletions_with_parameters(parameters: Vec<Parameter>) -> (r: Feature)
        ensures
            r == (Feature::Deletions { parameters, property: None }),
            r@ == (FeatureView::Deletions { parameters: parameters.deep_view(), property: None }),
    {
        Feature::Deletions { parameters, property: None }
    }

    /// `property` of the deleted lines.
    pub fn deletions_with_property(property: Property) -> (r: Feature)
        ensures
            r@ == (FeatureView::Deletions { parameters: Seq::empty(), property: Some(property) }),
    {
        Feature::Deletions { parameters: Vec::new(), property: Some(property) }
    }

    /// `property` of the deleted lines in the files that meet every one of
    /// `parameters`. The list is kept as it is given.
    pub fn deletions(parameters: Vec<Parameter>, property: Property) -> (r: Feature)
        ensures
            r == (Feature::Deletions { parameters, property: Some(property) }),
            r@ == (FeatureView::Deletions {
                parameters: parameters.deep_view(),
                property: Some(property),
            }),
    {
        Feature::Deletions { parameters, property: Some(property) }
    }

    /// The number of changed lines.
    pub fn changes_simple() -> (r: Feature)
        ensures
            r@ == (FeatureView::Changes { parameters: Seq::empty(), property: None }),
    {
        Feature::Changes { parameters: Vec::new(), property: None }
    }

    /// The number of changed lines in the files that meet `parameter`.
    pub fn changes_with_parameter(parameter: Parameter) -> (r: Feature)
        ensures
            r@ == (FeatureView::Changes { parameters: seq![parameter@], property: None }),
            r.parameters() == seq![parameter],
    {
        Feature::Changes { parameters: vec![parameter], property: None }
    }

    /// The number of changed lines in the files that meet every one of
    /// `parameters`. The list is kept as it is given.
    pub fn changes_with_parameters(parameters: Vec<Parameter>) -> (r: Feature)
        ensures
            r == (Feature::Changes { parameters, property: None }),
            r@ == (FeatureView::Changes { parameters: parameters.deep_view(), property: None }),
    {
        Feature::Changes { parameters, property: None }
    }

    /// `property` of the changed lines.
    pub fn changes_with_property(property: Property) -> (r: Feature)
        ensures
            r@ == (FeatureView::Changes { parameters: Seq::empty(), property: Some(property) }),
    {
        Feature::Changes { parameters: Vec::new(), property: Some(property) }
    }

    /// `property` of the changed lines in the files that meet every one of
    /// `parameters`. The list is kept as it is given.
    pub fn changes(parameters: Vec<Parameter>, property: Property) -> (r: Feature)
        ensures
            r == (Feature::Changes { parameters, property: Some(property) }),
            r@ == (FeatureView::Changes {
                parameters: parameters.deep_view(),
                property: Some(property),
            }),
    {
        Feature::Changes { parameters, property: Some(property) }
    }
}

/// Two lists have the same views when they are as long as each other and
/// agree place by place.
proof fn lemma_parameter_views_equal(a: Vec<Parameter>, b: Vec<Parameter>)
    ensures
        a.deep_view() == b.deep_view() <==> {
            &&& a@.len() == b@.len()
            &&& forall|i: int| 0 <= i < a@.len() ==> (#[trigger] a@[i])@ == b@[i]@
        },
{
    if a.deep_view() == b.deep_view() {
        assert(b@.len() == b.deep_view().len());
        assert forall|i: int| 0 <= i < a@.len() implies (#[trigger] a@[i])@ == b@[i]@ by {
            assert(a.deep_view()[i] == b.deep_view()[i]);
        }
    }
    if a@.len() == b@.len() && (forall|i: int| 0 <= i < a@.len() ==> (#[trigger] a@[i])@ == b@[i]@) {
        assert(a.deep_view() =~= b.deep_view());
    }
}

/// A copy of `parameters`, one for one.
fn clone_parameters(parameters: &Vec<Parameter>) -> (r: Vec<Parameter>)
    ensures
        r.deep_view() == parameters.deep_view(),
{
    let copies = parameters.clone();
    proof {
        lemma_parameter_views_equal(copies, *parameters);
    }
    copies
}

/// Whether two lists hold equal parameters in the same order.
fn same_parameters(a: &Vec<Parameter>, b: &Vec<Parameter>) -> (r: bool)
    ensures
        r == (a.deep_view() == b.deep_view()),
{
    proof {
        lemma_parameter_views_equal(*a, *b);
    }
    *a == *b
}

/// Whether two optional properties are the same.
fn same_property(a: Option<Property>, b: Option<Property>) -> (r: bool)
    ensures
        r == (a == b),
{
    match (a, b) {
        (None, None) => true,
        (Some(x), Some(y)) => x == y,
        _ => false,
    }
}

impl Clone for Feature {
    fn clone(&self) -> (r: Self)
        ensures
            r@ == self@,
    {
        match self {
            Feature::Commits { parameters, property } => Feature::Commits {
                parameters: clone_parameters(parameters),
                property: *property,
            },
            Feature::Additions { parameters, property } => Feature::Additions {
                parameters: clone_parameters(parameters),
                property: *property,
            },
            Feature::Deletions { parameters, property } => Feature::Deletions {
                parameters: clone_parameters(parameters),
                property: *property,
            },
            Feature::Changes { parameters, property } => Feature::Changes {
                parameters: clone_parameters(parameters),
                property: *property,
            },
        }
    }
}

impl PartialEq for Feature {
    fn eq(&self, other: &Self) -> (r: bool) {
        match (self, other) {
            (
                Feature::Commits { parameters, property },
                Feature::Commits { parameters: other_parameters, property: other_property },
            ) => same_parameters(parameters, other_parameters) && same_property(
                *property,
                *other_property,
            ),
            (
                Feature::Additions { parameters, property },
                Feature::Additions { parameters: other_parameters, property: other_property },
            ) => same_parameters(parameters, other_parameters) && same_property(
                *property,
                *other_property,
            ),
            (
                Feature::Deletions { parameters, property },
                Feature::Deletions { parameters: other_parameters, property: other_property },
            ) => same_parameters(parameters, other_parameters) && same_property(
                *property,
                *other_property,
            ),
            (
                Feature::Changes { parameters, property },
                Feature::Changes { parameters: other_parameters, property: other_property },
            ) => same_parameters(parameters, other_parameters) && same_property(
                *property,
                *other_property,
            ),
            _ => false,
        }
    }
}

impl PartialEqSpecImpl for Feature {
    open spec fn obeys_eq_spec() -> bool {
        true
    }

    open spec fn eq_spec(&self, other: &Self) -> bool {
        self@ == other@
    }
}

} // verus!
