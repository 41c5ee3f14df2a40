use mongo_repo::Name;
use mongo_repo::domain::DomainImpl;
use mongo_repo::item::Item;
use mongo_repo::item::ItemPatch;
use mongo_repo::item::ItemSize;
use mongo_repo::item::ItemSpec;
use mongo_repo::repo::Entity;
use mongo_repo::store::Store;

fn spec_named(name: &str, size: ItemSize) -> ItemSpec {
    ItemSpec::new(Name::from_str(name).unwrap(), size)
}

#[test]
fn widget_lifecycle_scenario() {
    let store: Store<Item> = Store::new();
    let mut domain = DomainImpl::new(store);

    let created = domain.create_item(&spec_named("Widget", ItemSize::Small));
    let id = created.id().clone();
    assert_eq!(created.name().as_str(), "Widget");

    let retrieved = domain.item(&id).unwrap();
    assert_eq!(retrieved.id(), &id);
    assert_eq!(retrieved.name().as_str(), "Widget");

    let mut patch = ItemPatch::new(id.clone());
    *patch.name_mut() = Some(Name::from_str("Gadget").unwrap());
    let updated = domain.update_item(&patch).unwrap();
    assert_eq!(updated.id(), &id);
    assert_eq!(updated.name().as_str(), "Gadget");
    assert!(matches!(updated.size(), ItemSize::Small));

    let retrieved = domain.item(&id).unwrap();
    assert_eq!(retrieved.name().as_str(), "Gadget");

    assert!(domain.delete_item(&id));
    assert!(domain.item(&id).is_none());
    assert!(!domain.delete_item(&id));
}

#[test]
fn update_of_a_missing_item_returns_nothing() {
    let store: Store<Item> = Store::new();
    let mut domain = DomainImpl::new(store);
    let created = domain.create_item(&spec_named("only", ItemSize::Large));
    let id = created.id().clone();
    assert!(domain.delete_item(&id));

    let patch = ItemPatch::new(id);
    assert!(domain.update_item(&patch).is_none());
    assert!(domain.all_items().is_empty());
}

#[test]
fn all_items_returns_everything_created() {
    let store: Store<Item> = Store::new();
    let mut domain = DomainImpl::new(store);
    domain.create_item(&spec_named("a", ItemSize::Small));
    domain.create_item(&spec_named("b", ItemSize::Medium));
    let all = domain.all_items();
    assert_eq!(all.len(), 2);
    assert_eq!(all[0].name().as_str(), "a");
    assert_eq!(all[1].name().as_str(), "b");
}
