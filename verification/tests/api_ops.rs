use mongo_repo::api::create_item_from_input;
use mongo_repo::api::delete_item_by_id;
use mongo_repo::api::item_node;
use mongo_repo::api::item_nodes;
use mongo_repo::api::update_item_from_input;
use mongo_repo::domain::DomainImpl;
use mongo_repo::input::CreateItemInput;
use mongo_repo::input::ItemFilterInput;
use mongo_repo::input::UpdateItemInput;
use mongo_repo::item::Item;
use mongo_repo::item::ItemSize;
use mongo_repo::store::Store;

fn fresh_domain() -> DomainImpl {
    let store: Store<Item> = Store::new();
    DomainImpl::new(store)
}

#[test]
fn create_update_delete_through_the_api() {
    let mut domain = fresh_domain();

    let created = create_item_from_input(
        &mut domain,
        CreateItemInput { name: String::from("Widget"), size: ItemSize::Small },
    )
    .unwrap();
    let id = created.id();
    assert_eq!(created.name(), "Widget");
    assert_eq!(id.len(), 24);

    let updated = update_item_from_input(
        &mut domain,
        UpdateItemInput { id: id.clone(), name: Some(String::from("Gadget")), size: None },
    )
    .unwrap();
    assert_eq!(updated.name(), "Gadget");
    assert!(matches!(updated.size(), ItemSize::Small));
    assert_eq!(updated.id(), id);

    let fetched = item_node(&domain, id.as_str()).unwrap().unwrap();
    assert_eq!(fetched.name(), "Gadget");

    assert!(delete_item_by_id(&mut domain, id.as_str()).is_ok());
    assert!(item_node(&domain, id.as_str()).unwrap().is_none());
    let err = delete_item_by_id(&mut domain, id.as_str()).unwrap_err();
    assert_eq!(err, "no item exists with the provided ID");
}

#[test]
fn a_malformed_id_is_a_client_error() {
    let mut domain = fresh_domain();
    let err = delete_item_by_id(&mut domain, "not-hex").unwrap_err();
    assert_eq!(err, "the provided ID was invalid");
    assert!(item_node(&domain, "not-hex").is_err());
}

#[test]
fn an_empty_name_is_a_client_error() {
    let mut domain = fresh_domain();
    let err = create_item_from_input(
        &mut domain,
        CreateItemInput { name: String::new(), size: ItemSize::Large },
    )
    .unwrap_err();
    assert_eq!(err, "name cannot be empty");
}

#[test]
fn updating_a_missing_item_is_an_error_at_the_api() {
    let mut domain = fresh_domain();
    let created = create_item_from_input(
        &mut domain,
        CreateItemInput { name: String::from("only"), size: ItemSize::Small },
    )
    .unwrap();
    let id = created.id();
    assert!(delete_item_by_id(&mut domain, id.as_str()).is_ok());

    let err = update_item_from_input(
        &mut domain,
        UpdateItemInput { id, name: None, size: Some(ItemSize::Large) },
    )
    .unwrap_err();
    assert_eq!(err, "no item exists with the provided ID");
}

#[test]
fn item_nodes_lists_all_or_filters() {
    let mut domain = fresh_domain();
    for (name, size) in [("ball", ItemSize::Small), ("ball", ItemSize::Large), ("cube", ItemSize::Small)] {
        create_item_from_input(
            &mut domain,
            CreateItemInput { name: String::from(name), size },
        )
        .unwrap();
    }

    let all = item_nodes(&domain, None).unwrap();
    assert_eq!(all.len(), 3);

    let filtered = item_nodes(
        &domain,
        Some(ItemFilterInput { id: None, name: Some(String::from("ball")), size: None }),
    )
    .unwrap();
    assert_eq!(filtered.len(), 2);

    let bad = item_nodes(
        &domain,
        Some(ItemFilterInput { id: Some(String::from("zz")), name: None, size: None }),
    );
    assert!(bad.is_err());
}
