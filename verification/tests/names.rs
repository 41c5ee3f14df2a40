use mongo_repo::Name;

#[test]
fn non_empty_name_can_be_constructed() {
    let new_name_result = Name::from_str("name");
    assert!(new_name_result.is_ok());
}

#[test]
fn empty_name_cannot_be_constructed() {
    let new_name_result = Name::from_str("");
    assert!(new_name_result.is_err());
}

#[test]
fn name_keeps_its_characters() {
    let name = Name::from_str("Widget").unwrap();
    assert_eq!(name.as_str(), "Widget");
}

#[test]
fn name_from_owned_string_rejects_empty() {
    assert!(Name::try_new(String::new()).is_err());
    let name = Name::try_new(String::from("box")).unwrap();
    assert_eq!(name.as_str(), "box");
}

#[test]
fn equal_names_compare_equal() {
    let a = Name::from_str("same").unwrap();
    let b = Name::from_str("same").unwrap();
    let c = Name::from_str("other").unwrap();
    assert_eq!(a, b);
    assert_ne!(a, c);
    assert_eq!(a.clone(), b);
}
