use mongo_repo::Name;
use mongo_repo::context::Transaction;
use mongo_repo::item::Item;
use mongo_repo::item::ItemSize;
use mongo_repo::item::ItemSpec;
use mongo_repo::store::Store;

fn spec_named(name: &str, size: ItemSize) -> ItemSpec {
    ItemSpec::new(Name::from_str(name).unwrap(), size)
}

#[test]
fn aborted_creation_leaves_the_entity_absent() {
    let mut store: Store<Item> = Store::new();
    let kept = store.create(&spec_named("kept", ItemSize::Small));

    let mut tx = Transaction::start(&store);
    let id = tx.create(&spec_named("phantom", ItemSize::Large));
    assert!(tx.retrieve(&id).is_some());
    tx.abort();

    assert!(store.retrieve(&id).is_none());
    assert!(store.retrieve(&kept).is_some());
    assert_eq!(store.retrieve_all().len(), 1);
}

#[test]
fn committed_creation_leaves_the_entity_present() {
    let mut store: Store<Item> = Store::new();

    let mut tx = Transaction::start(&store);
    let id = tx.create(&spec_named("durable", ItemSize::Medium));
    assert!(store.retrieve(&id).is_none());
    tx.commit(&mut store);

    let item = store.retrieve(&id).unwrap();
    assert_eq!(item.name().as_str(), "durable");
}

#[test]
fn base_store_stays_usable_while_a_transaction_is_open() {
    let mut store: Store<Item> = Store::new();
    let tx = Transaction::start(&store);
    let direct = store.create(&spec_named("direct", ItemSize::Small));
    assert!(store.retrieve(&direct).is_some());
    assert!(tx.retrieve(&direct).is_none());
    tx.abort();
    assert!(store.retrieve(&direct).is_some());
}
