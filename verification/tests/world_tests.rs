use sprite_engine::label::{Label, LabelIds, FIRST_LABEL_ID};
use sprite_engine::sprite::{Sprite, TextureRef};
use sprite_engine::transform::{Rotation, Transform};
use sprite_engine::world::{Component, World, WorldError};

#[test]
fn spawn_gives_fresh_componentless_entity() {
    let mut w = World::new();
    let e = w.spawn();
    assert!(w.contains(e));
    assert!(matches!(w.get_label(e), Err(WorldError::ComponentNotFound)));
    assert!(matches!(w.get_sprite(e), Err(WorldError::ComponentNotFound)));
    assert!(matches!(w.get_transform(e), Err(WorldError::ComponentNotFound)));
}

#[test]
fn insert_then_get_roundtrip() {
    let mut w = World::new();
    let mut ids = LabelIds::new();
    let e = w.spawn();
    let l = Label::from_str("Player", &mut ids);
    let id = l.id;
    assert!(w.insert(e, Component::Label(l)).is_ok());
    let got = w.get_label(e).unwrap();
    assert_eq!(got.id, id);
    assert_eq!(got.label, "Player".to_string());
}

#[test]
fn insert_replaces_component_of_same_kind() {
    let mut w = World::new();
    let e = w.spawn();
    w.insert(e, Component::Sprite(Sprite::new(TextureRef { handle: 1 }))).unwrap();
    w.insert(e, Component::Sprite(Sprite::new(TextureRef { handle: 2 }))).unwrap();
    assert_eq!(w.get_sprite(e).unwrap().texture.handle, 2);
}

#[test]
fn insert_on_unknown_entity_fails() {
    let mut w = World::new();
    let e = w.spawn();
    w.despawn(e).unwrap();
    let r = w.insert(e, Component::Sprite(Sprite::new(TextureRef { handle: 1 })));
    assert!(matches!(r, Err(WorldError::EntityNotFound)));
}

#[test]
fn despawn_invalidates_all_components_atomically() {
    let mut w = World::new();
    let mut ids = LabelIds::new();
    let e = w.spawn();
    w.insert(e, Component::Label(Label::from_str("A", &mut ids))).unwrap();
    w.insert(e, Component::Sprite(Sprite::new(TextureRef { handle: 7 }))).unwrap();
    w.insert(e, Component::Transform(Transform::new(0, 0, Rotation::identity()))).unwrap();
    w.despawn(e).unwrap();
    assert!(!w.contains(e));
    assert!(matches!(w.get_label(e), Err(WorldError::EntityNotFound)));
    assert!(matches!(w.get_sprite(e), Err(WorldError::EntityNotFound)));
    assert!(matches!(w.get_transform(e), Err(WorldError::EntityNotFound)));
}

#[test]
fn stale_handle_never_validates_after_slot_reuse() {
    let mut w = World::new();
    let e1 = w.spawn();
    w.despawn(e1).unwrap();
    // The slot is reused, at a fresh generation.
    let e2 = w.spawn();
    assert_eq!(e2.index, e1.index);
    assert_ne!(e2.generation, e1.generation);
    assert!(!w.contains(e1));
    assert!(w.contains(e2));
    assert!(matches!(w.despawn(e1), Err(WorldError::EntityNotFound)));
}

#[test]
fn query_yields_only_entities_with_all_components() {
    // P1 on concrete values: drawables never yields an entity lacking one of
    // the three components, under spawn/insert/despawn interleavings.
    let mut w = World::new();
    let mut ids = LabelIds::new();

    let full = w.spawn();
    w.insert(full, Component::Label(Label::from_str("full", &mut ids))).unwrap();
    w.insert(full, Component::Sprite(Sprite::new(TextureRef { handle: 1 }))).unwrap();
    w.insert(full, Component::Transform(Transform::new(0, 0, Rotation::identity()))).unwrap();

    let no_sprite = w.spawn();
    w.insert(no_sprite, Component::Label(Label::from_str("bare", &mut ids))).unwrap();
    w.insert(no_sprite, Component::Transform(Transform::new(0, 0, Rotation::identity()))).unwrap();

    let doomed = w.spawn();
    w.insert(doomed, Component::Label(Label::from_str("gone", &mut ids))).unwrap();
    w.insert(doomed, Component::Sprite(Sprite::new(TextureRef { handle: 2 }))).unwrap();
    w.insert(doomed, Component::Transform(Transform::new(0, 0, Rotation::identity()))).unwrap();
    w.despawn(doomed).unwrap();

    let ds = w.drawables();
    assert_eq!(ds.len(), 1);
    assert_eq!(ds[0], full);
    for e in ds {
        assert!(w.get_label(e).is_ok());
        assert!(w.get_sprite(e).is_ok());
        assert!(w.get_transform(e).is_ok());
    }
}

#[test]
fn query_order_is_stable_slot_order() {
    let mut w = World::new();
    let mut ids = LabelIds::new();
    let mut spawned = Vec::new();
    for name in ["a", "b", "c"] {
        let e = w.spawn();
        w.insert(e, Component::Label(Label::from_str(name, &mut ids))).unwrap();
        w.insert(e, Component::Sprite(Sprite::new(TextureRef { handle: 3 }))).unwrap();
        w.insert(e, Component::Transform(Transform::new(0, 0, Rotation::identity()))).unwrap();
        spawned.push(e);
    }
    let first = w.drawables();
    let second = w.drawables();
    assert_eq!(first, second);
    assert_eq!(first, spawned);
}

#[test]
fn insert_bundle_last_of_each_kind_wins() {
    let mut w = World::new();
    let e = w.spawn();
    let bundle = vec![
        Component::Sprite(Sprite::new(TextureRef { handle: 1 })),
        Component::Transform(Transform::new(5, 6, Rotation::identity())),
        Component::Sprite(Sprite::new(TextureRef { handle: 9 })),
    ];
    w.insert_bundle(e, bundle).unwrap();
    assert_eq!(w.get_sprite(e).unwrap().texture.handle, 9);
    let t = w.transform_data(e).unwrap();
    assert_eq!((t.position.x, t.position.y), (5, 6));
    assert!(matches!(w.get_label(e), Err(WorldError::ComponentNotFound)));
}

#[test]
fn set_position_of_keeps_rotation() {
    let mut w = World::new();
    let e = w.spawn();
    w.insert(e, Component::Transform(Transform::new(1, 2, Rotation::quarter_turn()))).unwrap();
    w.set_position_of(e, 30, 40).unwrap();
    let t = w.transform_data(e).unwrap();
    assert_eq!((t.position.x, t.position.y), (30, 40));
    assert_eq!(t.rotation, Rotation::quarter_turn());
}

#[test]
fn set_position_of_errors_match_lookup_taxonomy() {
    let mut w = World::new();
    let e = w.spawn();
    assert!(matches!(w.set_position_of(e, 1, 1), Err(WorldError::ComponentNotFound)));
    w.despawn(e).unwrap();
    assert!(matches!(w.set_position_of(e, 1, 1), Err(WorldError::EntityNotFound)));
}
