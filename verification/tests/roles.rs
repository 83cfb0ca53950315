use message_bus::role::{ActorTypes, ParseError};

#[test]
fn parses_canonical_role_names() {
    assert_eq!(ActorTypes::from_str("ActorA"), Ok(ActorTypes::ActorA));
    assert_eq!(ActorTypes::from_str("ActorB"), Ok(ActorTypes::ActorB));
}

#[test]
fn rejects_unknown_role_names() {
    assert_eq!(ActorTypes::from_str("ActorC"), Err(ParseError::UnknownRole));
    assert_eq!(ActorTypes::from_str(""), Err(ParseError::UnknownRole));
    assert_eq!(ActorTypes::from_str("Actor"), Err(ParseError::UnknownRole));
    assert_eq!(ActorTypes::from_str("ActorAA"), Err(ParseError::UnknownRole));
    assert_eq!(ActorTypes::from_str("ActorA,ActorB"), Err(ParseError::UnknownRole));
}

#[test]
fn role_names_are_matched_exactly() {
    assert_eq!(ActorTypes::from_str("actora"), Err(ParseError::UnknownRole));
    assert_eq!(ActorTypes::from_str("ACTORA"), Err(ParseError::UnknownRole));
    assert_eq!(ActorTypes::from_str(" ActorA"), Err(ParseError::UnknownRole));
    assert_eq!(ActorTypes::from_str("ActorA "), Err(ParseError::UnknownRole));
    assert_eq!(ActorTypes::from_str("ActorÄ"), Err(ParseError::UnknownRole));
    assert_eq!(ActorTypes::from_str("ÄctorA"), Err(ParseError::UnknownRole));
}

#[test]
fn every_role_is_parsed_from_its_own_name() {
    for role in [ActorTypes::ActorA, ActorTypes::ActorB] {
        assert_eq!(ActorTypes::from_str(role.name()), Ok(role));
    }
    assert_eq!(ActorTypes::ActorA.name(), "ActorA");
    assert_eq!(ActorTypes::ActorB.name(), "ActorB");
}

#[test]
fn no_two_roles_share_a_name_or_a_code() {
    assert_ne!(ActorTypes::ActorA.name(), ActorTypes::ActorB.name());
    assert_ne!(ActorTypes::ActorA.code(), ActorTypes::ActorB.code());
    assert_eq!(ActorTypes::ActorA.code(), 0);
    assert_eq!(ActorTypes::ActorB.code(), 1);
}

#[test]
fn roles_compare_and_hash_as_values() {
    let mut seen = std::collections::HashSet::new();
    assert!(seen.insert(ActorTypes::ActorA));
    assert!(seen.insert(ActorTypes::ActorB));
    assert!(!seen.insert(ActorTypes::ActorA));
    assert_eq!(format!("{:?}", ActorTypes::ActorA), "ActorA");
    assert_eq!(format!("{:?}", ParseError::UnknownRole), "UnknownRole");
}

#[test]
fn roles_parse_through_the_standard_trait() {
    assert_eq!("ActorA".parse::<ActorTypes>(), Ok(ActorTypes::ActorA));
    assert_eq!("ActorB".parse::<ActorTypes>(), Ok(ActorTypes::ActorB));
    assert_eq!("Actor".parse::<ActorTypes>(), Err(ParseError::UnknownRole));
    assert_eq!(
        <ActorTypes as std::str::FromStr>::from_str("ActorB"),
        Ok(ActorTypes::ActorB)
    );
    assert_eq!(
        <ActorTypes as std::str::FromStr>::from_str("actorb"),
        Err(ParseError::UnknownRole)
    );
}
