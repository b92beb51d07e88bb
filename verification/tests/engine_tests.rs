use sprite_engine::engine::{tick, GameManager};
use sprite_engine::label::{Label, LabelIds, FIRST_LABEL_ID};
use sprite_engine::render::RenderState;
use sprite_engine::script::Script;
use sprite_engine::sprite::{Sprite, TextureRef};
use sprite_engine::transform::{Rotation, Transform};
use sprite_engine::world::Component;

#[test]
fn label_ids_are_strictly_increasing_and_unique() {
    // Ids are unique and increasing across the allocator's lifetime, for any
    // call order, including interleaved with entity removal.
    let mut gm = GameManager::new();
    let mut seen = Vec::new();
    for round in 0..5 {
        let e = gm.add_object("obj");
        let id = gm.world.get_label(e).unwrap().id;
        seen.push(id);
        if round % 2 == 0 {
            gm.world.despawn(e).unwrap();
        }
    }
    for w in seen.windows(2) {
        assert!(w[0] < w[1]);
    }
    for (i, a) in seen.iter().enumerate() {
        assert!(*a >= FIRST_LABEL_ID);
        for b in seen.iter().skip(i + 1) {
            assert_ne!(a, b);
        }
    }
}

#[test]
fn label_constructor_draws_from_allocator() {
    let mut ids = LabelIds::new();
    let a = Label::new("first".to_string(), &mut ids);
    let b = Label::from_str("second", &mut ids);
    assert_eq!(a.id, FIRST_LABEL_ID);
    assert_eq!(b.id, FIRST_LABEL_ID + 1);
    assert_eq!(a.label, "first");
    assert_eq!(b.label, "second");
}

#[test]
fn texture_manager_lookup_roundtrip() {
    let mut gm = GameManager::new();
    assert!(gm.texture_manager.get_texture("player").is_none());
    let t = gm.texture_manager.load_texture("player", TextureRef { handle: 11 }).unwrap();
    assert_eq!(t.handle, 11);
    assert_eq!(gm.texture_manager.get_texture("player"), Some(TextureRef { handle: 11 }));
    assert!(gm.texture_manager.get_texture("tree").is_none());
    // The latest registration of a name wins.
    gm.texture_manager.load_texture("player", TextureRef { handle: 12 });
    assert_eq!(gm.texture_manager.get_texture("player"), Some(TextureRef { handle: 12 }));
}

#[test]
fn add_object_then_components_builds_a_drawable() {
    let mut gm = GameManager::new();
    let tex = gm.texture_manager.load_texture("happy-tree", TextureRef { handle: 5 }).unwrap();
    let e = gm.add_object("Player 2");
    gm.add_components_to_object(
        e,
        vec![
            Component::Sprite(Sprite::new(tex)),
            Component::Transform(Transform::new(1000, 1000, Rotation::identity())),
        ],
    );
    let ds = gm.world.drawables();
    assert_eq!(ds, vec![e]);
    assert_eq!(gm.world.get_label(e).unwrap().label, "Player 2");
}

#[test]
fn tick_runs_scripts_before_building_the_plan() {
    // The frame plan must carry the post-script transforms: script updates
    // complete strictly before the draw lists are built.
    let mut gm = GameManager::new();
    let e = gm.add_object("mover");
    gm.add_component_to_object(e, Component::Sprite(Sprite::new(TextureRef { handle: 1 })));
    gm.add_component_to_object(e, Component::Transform(Transform::new(0, 0, Rotation::identity())));
    gm.add_component_to_object(
        e,
        Component::Script(Script::new(
            "function update(dt)\n  local x, y = gameObject.getPosition()\n  gameObject.setPosition(x + 5, y)\nend\n"
                .to_string(),
        )),
    );
    let mut rs = RenderState::new(100, 100, 2);
    let plan = tick(&mut gm, &mut rs, 16);
    assert_eq!(plan.color_pass.len(), 1);
    // The matrix's translation is the script-moved position.
    assert_eq!(plan.color_pass[0].matrix.tx, 5);
    assert_eq!(gm.world.transform_data(e).unwrap().position.x, 5);
    // Same snapshot rule for the identity pass.
    assert_eq!(plan.identity_pass[0].matrix.tx, 5);
}

#[test]
fn tick_with_erroring_script_freezes_entity() {
    let mut gm = GameManager::new();
    let e = gm.add_object("frozen");
    gm.add_component_to_object(e, Component::Transform(Transform::new(9, 9, Rotation::identity())));
    gm.add_component_to_object(e, Component::Script(Script::new("broken ((".to_string())));
    let mut rs = RenderState::new(100, 100, 2);
    let _ = tick(&mut gm, &mut rs, 16);
    let _ = tick(&mut gm, &mut rs, 16);
    let t = gm.world.transform_data(e).unwrap();
    assert_eq!((t.position.x, t.position.y), (9, 9));
}
