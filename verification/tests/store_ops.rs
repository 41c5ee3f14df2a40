use mongo_repo::Name;
use mongo_repo::item::Item;
use mongo_repo::item::ItemFilter;
use mongo_repo::item::ItemPatch;
use mongo_repo::item::ItemSize;
use mongo_repo::item::ItemSpec;
use mongo_repo::repo::Entity;
use mongo_repo::repo::Filter;
use mongo_repo::store::Store;

fn spec_named(name: &str, size: ItemSize) -> ItemSpec {
    ItemSpec::new(Name::from_str(name).unwrap(), size)
}

#[test]
fn create_then_retrieve_round_trip() {
    let mut store: Store<Item> = Store::new();
    let id = store.create(&spec_named("Widget", ItemSize::Small));
    let item = store.retrieve(&id).unwrap();
    assert_eq!(item.id(), &id);
    assert_eq!(item.name().as_str(), "Widget");
    assert!(matches!(item.size(), ItemSize::Small));
}

#[test]
fn created_ids_are_unique() {
    let mut store: Store<Item> = Store::new();
    let id1 = store.create(&spec_named("first", ItemSize::Small));
    let id2 = store.create(&spec_named("second", ItemSize::Small));
    assert_ne!(id1, id2);
}

#[test]
fn update_changes_only_the_patched_field() {
    let mut store: Store<Item> = Store::new();
    let id = store.create(&spec_named("Widget", ItemSize::Medium));
    let mut patch = ItemPatch::new(id.clone());
    *patch.name_mut() = Some(Name::from_str("Gadget").unwrap());
    assert!(store.update(&patch));
    let item = store.retrieve(&id).unwrap();
    assert_eq!(item.name().as_str(), "Gadget");
    assert!(matches!(item.size(), ItemSize::Medium));
    assert_eq!(item.id(), &id);
}

#[test]
fn update_of_missing_id_reports_false() {
    let mut store: Store<Item> = Store::new();
    let id = store.create(&spec_named("Widget", ItemSize::Small));
    assert!(store.delete(&id));
    let patch = ItemPatch::new(id);
    assert!(!store.update(&patch));
}

#[test]
fn delete_signals_success_exactly_once() {
    let mut store: Store<Item> = Store::new();
    let id = store.create(&spec_named("Widget", ItemSize::Small));
    assert!(store.delete(&id));
    assert!(!store.delete(&id));
    assert!(store.retrieve(&id).is_none());
}

#[test]
fn empty_filter_finds_the_same_items_as_retrieve_all() {
    let mut store: Store<Item> = Store::new();
    store.create(&spec_named("a", ItemSize::Small));
    store.create(&spec_named("b", ItemSize::Medium));
    store.create(&spec_named("c", ItemSize::Large));
    let all = store.retrieve_all();
    let found = store.find_all(&ItemFilter::empty());
    assert_eq!(all.len(), 3);
    assert_eq!(found.len(), all.len());
    for (x, y) in all.iter().zip(found.iter()) {
        assert_eq!(x.id(), y.id());
        assert_eq!(x.name(), y.name());
    }
}

#[test]
fn filter_constrains_on_each_set_field() {
    let mut store: Store<Item> = Store::new();
    store.create(&spec_named("ball", ItemSize::Small));
    store.create(&spec_named("ball", ItemSize::Large));
    store.create(&spec_named("cube", ItemSize::Large));

    let mut by_name = ItemFilter::empty();
    *by_name.name_mut() = Some(Name::from_str("ball").unwrap());
    assert_eq!(store.find_all(&by_name).len(), 2);

    let mut by_both = ItemFilter::empty();
    *by_both.name_mut() = Some(Name::from_str("ball").unwrap());
    *by_both.size_mut() = Some(ItemSize::Large);
    let found = store.find_all(&by_both);
    assert_eq!(found.len(), 1);
    assert!(matches!(found[0].size(), ItemSize::Large));
}

#[test]
fn pages_cover_every_item_exactly_once() {
    let mut store: Store<Item> = Store::new();
    let mut ids = Vec::new();
    for name in ["a", "b", "c", "d", "e"] {
        ids.push(store.create(&spec_named(name, ItemSize::Small)));
    }
    let mut seen = Vec::new();
    let mut offset: usize = 0;
    loop {
        let page = store.retrieve_page(offset, 2);
        if page.is_empty() {
            break;
        }
        for item in &page {
            seen.push(item.id().clone());
        }
        offset += 2;
    }
    assert_eq!(seen.len(), ids.len());
    for (a, b) in ids.iter().zip(seen.iter()) {
        assert_eq!(a, b);
    }
}

#[test]
fn page_past_the_end_is_empty_not_an_error() {
    let mut store: Store<Item> = Store::new();
    store.create(&spec_named("a", ItemSize::Small));
    store.create(&spec_named("b", ItemSize::Small));
    assert!(store.retrieve_page(2, 3).is_empty());
    assert!(store.retrieve_page(100, 1).is_empty());
}

#[test]
fn find_page_windows_the_matches_not_the_store() {
    let mut store: Store<Item> = Store::new();
    store.create(&spec_named("ball", ItemSize::Small));
    store.create(&spec_named("cube", ItemSize::Small));
    store.create(&spec_named("ball", ItemSize::Medium));
    store.create(&spec_named("ball", ItemSize::Large));

    let mut by_name = ItemFilter::empty();
    *by_name.name_mut() = Some(Name::from_str("ball").unwrap());
    let window = store.find_page(&by_name, 1, 2);
    assert_eq!(window.len(), 2);
    assert!(matches!(window[0].size(), ItemSize::Medium));
    assert!(matches!(window[1].size(), ItemSize::Large));
}
