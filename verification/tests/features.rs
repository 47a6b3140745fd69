use history_query::{Feature, Parameter, Property};

fn matching(pattern: &str) -> Parameter {
    Parameter::path_equal_str(pattern).unwrap()
}

fn excluding(pattern: &str) -> Parameter {
    Parameter::path_different_str(pattern).unwrap()
}

#[test]
fn commits_simple_is_bare() {
    match Feature::commits_simple() {
        Feature::Commits { parameters, property } => {
            assert!(parameters.is_empty());
            assert_eq!(property, None);
        }
        other => panic!("not commits: {:?}", other),
    }
}

#[test]
fn additions_simple_is_bare() {
    match Feature::additions_simple() {
        Feature::Additions { parameters, property } => {
            assert!(parameters.is_empty());
            assert_eq!(property, None);
        }
        other => panic!("not additions: {:?}", other),
    }
}

#[test]
fn deletions_simple_is_bare() {
    match Feature::deletions_simple() {
        Feature::Deletions { parameters, property } => {
            assert!(parameters.is_empty());
            assert_eq!(property, None);
        }
        other => panic!("not deletions: {:?}", other),
    }
}

#[test]
fn changes_simple_is_bare() {
    match Feature::changes_simple() {
        Feature::Changes { parameters, property } => {
            assert!(parameters.is_empty());
            assert_eq!(property, None);
        }
        other => panic!("not changes: {:?}", other),
    }
}

#[test]
fn with_parameter_holds_that_parameter() {
    assert_eq!(
        Feature::commits_with_parameter(matching("*.rs")),
        Feature::Commits { parameters: vec![matching("*.rs")], property: None }
    );
    assert_eq!(
        Feature::additions_with_parameter(matching("*.rs")),
        Feature::Additions { parameters: vec![matching("*.rs")], property: None }
    );
    assert_eq!(
        Feature::deletions_with_parameter(excluding("*.rs")),
        Feature::Deletions { parameters: vec![excluding("*.rs")], property: None }
    );
    assert_eq!(
        Feature::changes_with_parameter(excluding("*.rs")),
        Feature::Changes { parameters: vec![excluding("*.rs")], property: None }
    );
}

#[test]
fn with_parameters_keeps_order_and_duplicates() {
    let given = vec![matching("b"), matching("a"), matching("b")];
    match Feature::commits_with_parameters(given.clone()) {
        Feature::Commits { parameters, property } => {
            assert_eq!(parameters, given);
            assert_eq!(property, None);
        }
        other => panic!("not commits: {:?}", other),
    }
    assert_eq!(
        Feature::additions_with_parameters(given.clone()),
        Feature::Additions { parameters: given.clone(), property: None }
    );
    assert_eq!(
        Feature::deletions_with_parameters(given.clone()),
        Feature::Deletions { parameters: given.clone(), property: None }
    );
    assert_eq!(
        Feature::changes_with_parameters(given.clone()),
        Feature::Changes { parameters: given, property: None }
    );
}

#[test]
fn with_parameters_takes_an_empty_list() {
    assert_eq!(Feature::commits_with_parameters(Vec::new()), Feature::commits_simple());
    assert_eq!(Feature::changes_with_parameters(Vec::new()), Feature::changes_simple());
}

#[test]
fn with_property_holds_that_property() {
    assert_eq!(
        Feature::commits_with_property(Property::ElapsedTime),
        Feature::Commits { parameters: Vec::new(), property: Some(Property::ElapsedTime) }
    );
    assert_eq!(
        Feature::additions_with_property(Property::ElapsedTime),
        Feature::Additions { parameters: Vec::new(), property: Some(Property::ElapsedTime) }
    );
    assert_eq!(
        Feature::deletions_with_property(Property::ElapsedTime),
        Feature::Deletions { parameters: Vec::new(), property: Some(Property::ElapsedTime) }
    );
    assert_eq!(
        Feature::changes_with_property(Property::ElapsedTime),
        Feature::Changes { parameters: Vec::new(), property: Some(Property::ElapsedTime) }
    );
}

#[test]
fn one_parameter_list_equals_single_parameter() {
    assert_eq!(
        Feature::commits_with_parameters(vec![matching("*.rs")]),
        Feature::commits_with_parameter(matching("*.rs"))
    );
    assert_eq!(
        Feature::additions_with_parameters(vec![excluding("*.rs")]),
        Feature::additions_with_parameter(excluding("*.rs"))
    );
    assert_eq!(
        Feature::deletions_with_parameters(vec![matching("a/*")]),
        Feature::deletions_with_parameter(matching("a/*"))
    );
    assert_eq!(
        Feature::changes_with_parameters(vec![matching("?")]),
        Feature::changes_with_parameter(matching("?"))
    );
}

#[test]
fn commits_holds_parameters_and_property() {
    let given = vec![matching("src/*"), excluding("src/gen/*")];
    assert_eq!(
        Feature::commits(given.clone(), Property::ElapsedTime),
        Feature::Commits { parameters: given, property: Some(Property::ElapsedTime) }
    );
}

#[test]
fn additions_holds_parameters_and_property() {
    let given = vec![matching("src/*")];
    assert_eq!(
        Feature::additions(given.clone(), Property::ElapsedTime),
        Feature::Additions { parameters: given, property: Some(Property::ElapsedTime) }
    );
}

#[test]
fn deletions_holds_parameters_and_property() {
    let given = vec![excluding("*.md"), excluding("*.txt")];
    assert_eq!(
        Feature::deletions(given.clone(), Property::ElapsedTime),
        Feature::Deletions { parameters: given, property: Some(Property::ElapsedTime) }
    );
}

#[test]
fn changes_holds_parameters_and_property() {
    assert_eq!(
        Feature::changes(Vec::new(), Property::ElapsedTime),
        Feature::changes_with_property(Property::ElapsedTime)
    );
}

#[test]
fn features_differ_by_metric() {
    assert_ne!(Feature::commits_simple(), Feature::additions_simple());
    assert_ne!(Feature::additions_simple(), Feature::deletions_simple());
    assert_ne!(Feature::deletions_simple(), Feature::changes_simple());
    assert_ne!(Feature::changes_simple(), Feature::commits_simple());
}

#[test]
fn features_differ_by_property() {
    assert_ne!(Feature::commits_simple(), Feature::commits_with_property(Property::ElapsedTime));
}

#[test]
fn features_differ_by_parameters() {
    assert_ne!(Feature::commits_simple(), Feature::commits_with_parameter(matching("*")));
    assert_ne!(
        Feature::commits_with_parameter(matching("*")),
        Feature::commits_with_parameter(excluding("*"))
    );
    assert_ne!(
        Feature::commits_with_parameters(vec![matching("a"), matching("b")]),
        Feature::commits_with_parameters(vec![matching("b"), matching("a")])
    );
    assert_ne!(
        Feature::commits_with_parameters(vec![matching("a")]),
        Feature::commits_with_parameters(vec![matching("a"), matching("a")])
    );
}

#[test]
fn feature_clone_is_equal() {
    let feature = Feature::deletions(vec![matching("a"), excluding("b")], Property::ElapsedTime);
    let copy = feature.clone();
    assert_eq!(copy, feature);
    match copy {
        Feature::Deletions { parameters, property } => {
            assert_eq!(parameters, vec![matching("a"), excluding("b")]);
            assert_eq!(property, Some(Property::ElapsedTime));
        }
        other => panic!("not deletions: {:?}", other),
    }
    for feature in [
        Feature::commits_simple(),
        Feature::additions_with_parameter(matching("x")),
        Feature::changes_with_property(Property::ElapsedTime),
    ] {
        assert_eq!(feature.clone(), feature);
    }
}
