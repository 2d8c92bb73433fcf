use engine::asset_uuid::AssetUuid;
use engine::importer_state::GltfImporterStateStable;
use engine::importer_state::GltfImporterStateUnstable;
use engine::importer_state::insert_sorted;
use engine::importer_state::sort_entries;
use engine::object_id::GltfObjectId;
use engine::uuid_table::UuidTable;

fn name_id(s: &str) -> GltfObjectId {
    GltfObjectId::Name(s.as_bytes().to_vec())
}

#[test]
fn id_ordering_names_before_indices() {
    let a = name_id("alpha");
    let b = GltfObjectId::Index(0);
    assert!(a.le_id(&b));
    assert!(!b.le_id(&a));
}

#[test]
fn id_ordering_lexicographic_names() {
    let a = name_id("abc");
    let b = name_id("abd");
    let prefix = name_id("ab");
    assert!(a.le_id(&b));
    assert!(!b.le_id(&a));
    assert!(prefix.le_id(&a));
    assert!(!a.le_id(&prefix));
    assert!(a.le_id(&a));
}

#[test]
fn id_ordering_indices_numeric() {
    let a = GltfObjectId::Index(3);
    let b = GltfObjectId::Index(10);
    assert!(a.le_id(&b));
    assert!(!b.le_id(&a));
}

#[test]
fn id_equality_by_contents() {
    let a = name_id("mesh");
    let b = name_id("mesh");
    let c = name_id("mesh2");
    assert!(a.eq_id(&b));
    assert!(!a.eq_id(&c));
    assert!(GltfObjectId::Index(4).eq_id(&GltfObjectId::Index(4)));
    assert!(!GltfObjectId::Index(4).eq_id(&GltfObjectId::Index(5)));
    assert!(!a.eq_id(&GltfObjectId::Index(4)));
}

#[test]
fn table_keeps_first_assignment() {
    let mut table = UuidTable::new();
    let first = table.assign_or_get(name_id("wall"), AssetUuid(17));
    assert_eq!(first, AssetUuid(17));
    let second = table.assign_or_get(name_id("wall"), AssetUuid(99));
    assert_eq!(second, AssetUuid(17));
    assert_eq!(table.lookup(&name_id("wall")), Some(AssetUuid(17)));
    assert_eq!(table.len(), 1);
}

#[test]
fn table_tracks_distinct_identities() {
    let mut table = UuidTable::new();
    table.assign_or_get(name_id("wall"), AssetUuid(1));
    table.assign_or_get(GltfObjectId::Index(0), AssetUuid(2));
    assert_eq!(table.lookup(&name_id("wall")), Some(AssetUuid(1)));
    assert_eq!(table.lookup(&GltfObjectId::Index(0)), Some(AssetUuid(2)));
    assert_eq!(table.lookup(&name_id("roof")), None);
    assert_eq!(table.len(), 2);
}

#[test]
fn uuid_for_object_draws_fresh_then_reuses() {
    let mut table = UuidTable::new();
    let first = table.uuid_for_object(name_id("floor"));
    let again = table.uuid_for_object(name_id("floor"));
    assert_eq!(first, again);
    assert_eq!(table.len(), 1);
}

#[test]
fn sorting_is_deterministic_across_insertion_orders() {
    let entries_one = vec![
        (GltfObjectId::Index(2), AssetUuid(30)),
        (name_id("b"), AssetUuid(20)),
        (name_id("a"), AssetUuid(10)),
    ];
    let entries_two = vec![
        (name_id("a"), AssetUuid(10)),
        (GltfObjectId::Index(2), AssetUuid(30)),
        (name_id("b"), AssetUuid(20)),
    ];
    let sorted_one = sort_entries(entries_one);
    let sorted_two = sort_entries(entries_two);
    assert_eq!(sorted_one, sorted_two);
    assert_eq!(sorted_one[0].0, name_id("a"));
    assert_eq!(sorted_one[1].0, name_id("b"));
    assert_eq!(sorted_one[2].0, GltfObjectId::Index(2));
}

#[test]
fn insert_sorted_places_in_order() {
    let mut v = vec![(name_id("a"), AssetUuid(1)), (name_id("c"), AssetUuid(3))];
    insert_sorted(&mut v, (name_id("b"), AssetUuid(2)));
    assert_eq!(v.len(), 3);
    assert_eq!(v[0].0, name_id("a"));
    assert_eq!(v[1].0, name_id("b"));
    assert_eq!(v[2].0, name_id("c"));
}

#[test]
fn stable_state_round_trip_keeps_lookups() {
    let mut unstable = GltfImporterStateUnstable::new();
    unstable.mesh_asset_uuids.assign_or_get(name_id("boat"), AssetUuid(5));
    unstable.mesh_asset_uuids.assign_or_get(name_id("anchor"), AssetUuid(6));
    let stable = GltfImporterStateStable::from_unstable(unstable);
    assert_eq!(stable.mesh_asset_uuids[0].0, name_id("anchor"));
    assert_eq!(stable.mesh_asset_uuids[1].0, name_id("boat"));
    let reloaded = GltfImporterStateUnstable::from_stable(&stable);
    assert_eq!(reloaded.mesh_asset_uuids.lookup(&name_id("boat")), Some(AssetUuid(5)));
    assert_eq!(reloaded.mesh_asset_uuids.lookup(&name_id("anchor")), Some(AssetUuid(6)));
}

#[test]
fn empty_states_have_empty_tables() {
    let stable = GltfImporterStateStable::new();
    assert_eq!(stable.buffer_asset_uuids.len(), 0);
    assert_eq!(stable.image_asset_uuids.len(), 0);
    assert_eq!(stable.material_asset_uuids.len(), 0);
    assert_eq!(stable.material_instance_asset_uuids.len(), 0);
    assert_eq!(stable.mesh_asset_uuids.len(), 0);
    assert_eq!(stable.prefab_asset_uuids.len(), 0);
}
