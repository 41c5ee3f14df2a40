use mongo_repo::Name;
use mongo_repo::input::CreateItemInput;
use mongo_repo::input::ItemFilterInput;
use mongo_repo::input::UpdateItemInput;
use mongo_repo::item::Item;
use mongo_repo::item::ItemSize;
use mongo_repo::store::Store;

#[test]
fn create_input_with_a_name_becomes_a_spec() {
    let input = CreateItemInput { name: String::from("Widget"), size: ItemSize::Small };
    let spec = input.into_spec().unwrap();
    assert_eq!(spec.name().as_str(), "Widget");
    assert!(matches!(spec.size(), ItemSize::Small));
}

#[test]
fn create_input_with_an_empty_name_is_rejected() {
    let input = CreateItemInput { name: String::new(), size: ItemSize::Small };
    assert!(input.into_spec().is_err());
}

#[test]
fn update_input_with_a_malformed_id_is_rejected() {
    let input = UpdateItemInput {
        id: String::from("not-an-id"),
        name: Some(String::from("x")),
        size: None,
    };
    assert!(input.into_patch().is_err());
}

#[test]
fn update_input_with_an_empty_name_is_rejected() {
    let input = UpdateItemInput {
        id: String::from("0123456789abcdef01234567"),
        name: Some(String::new()),
        size: None,
    };
    assert!(input.into_patch().is_err());
}

#[test]
fn update_input_becomes_a_patch_of_the_target() {
    let input = UpdateItemInput {
        id: String::from("0123456789abcdef01234567"),
        name: Some(String::from("Gadget")),
        size: Some(ItemSize::Large),
    };
    let patch = input.into_patch().unwrap();
    assert_eq!(patch.name().as_ref().unwrap().as_str(), "Gadget");
    assert!(matches!(patch.size(), Some(ItemSize::Large)));
}

#[test]
fn filter_input_with_nothing_set_matches_everything() {
    let mut store: Store<Item> = Store::new();
    store.create(&mongo_repo::item::ItemSpec::new(
        Name::from_str("a").unwrap(),
        ItemSize::Small,
    ));
    store.create(&mongo_repo::item::ItemSpec::new(
        Name::from_str("b").unwrap(),
        ItemSize::Large,
    ));
    let input = ItemFilterInput { id: None, name: None, size: None };
    let filter = input.into_filter().unwrap();
    assert_eq!(store.find_all(&filter).len(), 2);
}

#[test]
fn filter_input_with_a_malformed_id_is_rejected() {
    let input = ItemFilterInput {
        id: Some(String::from("xyz")),
        name: None,
        size: None,
    };
    assert!(input.into_filter().is_err());
}

#[test]
fn filter_input_constrains_on_its_set_fields() {
    let mut store: Store<Item> = Store::new();
    store.create(&mongo_repo::item::ItemSpec::new(
        Name::from_str("ball").unwrap(),
        ItemSize::Small,
    ));
    store.create(&mongo_repo::item::ItemSpec::new(
        Name::from_str("ball").unwrap(),
        ItemSize::Large,
    ));
    let input = ItemFilterInput {
        id: None,
        name: Some(String::from("ball")),
        size: Some(ItemSize::Large),
    };
    let filter = input.into_filter().unwrap();
    let found = store.find_all(&filter);
    assert_eq!(found.len(), 1);
    assert!(matches!(found[0].size(), ItemSize::Large));
}
