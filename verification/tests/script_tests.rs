use sprite_engine::script::{Script, ScriptState};
use sprite_engine::transform::{Rotation, Transform, TransformCell, Position, FX_ONE};
use sprite_engine::world::{Component, World};

const MOVER: &str = "function update(dt)\n  local x, y = gameObject.getPosition()\n  gameObject.setPosition(x + 1, y)\nend\n";

fn cell_at(x: i64, y: i64) -> TransformCell {
    TransformCell::new(Transform {
        position: Position { x, y },
        rotation: Rotation::identity(),
    })
}

#[test]
fn valid_script_loads_ready() {
    let s = Script::new(MOVER.to_string());
    assert!(s.status_ok());
    assert!(s.last_error().is_none());
}

#[test]
fn invalid_source_loads_into_error_state() {
    let s = Script::new("function update(dt".to_string());
    assert!(!s.status_ok());
    assert!(s.last_error().is_some());
}

#[test]
fn update_with_invalid_source_leaves_transform_unchanged() {
    // A syntactically invalid source puts the script in the error state, and
    // a later update is frozen: the transform is untouched, the state stays.
    let mut s = Script::new("this is not lua ((".to_string());
    assert!(!s.status_ok());
    let before = Transform { position: Position { x: 11, y: 22 }, rotation: Rotation::identity() };
    let mut cell = TransformCell::new(before);
    s.update(16, &mut cell);
    assert!(!s.status_ok());
    assert_eq!(cell.lock_read(), before);
}

#[test]
fn mover_script_advances_position_by_its_own_rate() {
    // The script advances x by exactly 1 per tick, whatever dt it is handed:
    // the rate is the script's own, independent of frame-to-frame jitter.
    let mut s = Script::new(MOVER.to_string());
    assert!(s.status_ok());
    let mut cell = cell_at(0, 5);
    for dt in [1i64, 160, 3, 999] {
        s.update(dt, &mut cell);
        assert!(s.status_ok(), "update failed: {:?}", s.last_error());
    }
    let t = cell.lock_read();
    assert_eq!((t.position.x, t.position.y), (4, 5));
    assert_eq!(t.rotation, Rotation::identity());
}

#[test]
fn script_sees_its_own_write_within_one_tick() {
    let src = "function update(dt)\n  gameObject.setPosition(70, 80)\n  local x, y = gameObject.getPosition()\n  gameObject.setPosition(x + 1, y + 1)\nend\n";
    let mut s = Script::new(src.to_string());
    let mut cell = cell_at(0, 0);
    s.update(1, &mut cell);
    assert!(s.status_ok(), "{:?}", s.last_error());
    let t = cell.lock_read();
    assert_eq!((t.position.x, t.position.y), (71, 81));
}

#[test]
fn missing_update_entry_point_is_an_error_not_a_fault() {
    let mut s = Script::new("x = 1".to_string());
    assert!(s.status_ok());
    let mut cell = cell_at(0, 0);
    s.update(16, &mut cell);
    assert!(!s.status_ok());
    assert!(s.last_error().is_some());
    assert_eq!(cell.lock_read(), cell_at(0, 0).lock_read());
}

#[test]
fn runtime_error_is_caught_and_stored() {
    let mut s = Script::new("function update(dt)\n  error('boom')\nend\n".to_string());
    assert!(s.status_ok());
    let mut cell = cell_at(3, 4);
    s.update(16, &mut cell);
    assert!(!s.status_ok());
    let msg = s.last_error().unwrap();
    assert!(msg.contains("boom"));
    let t = cell.lock_read();
    assert_eq!((t.position.x, t.position.y), (3, 4));
}

#[test]
fn failing_update_commits_no_partial_position() {
    let src = "function update(dt)\n  gameObject.setPosition(1000, 1000)\n  error('after set')\nend\n";
    let mut s = Script::new(src.to_string());
    let mut cell = cell_at(1, 2);
    s.update(16, &mut cell);
    assert!(!s.status_ok());
    let t = cell.lock_read();
    assert_eq!((t.position.x, t.position.y), (1, 2));
}

#[test]
fn detached_update_offers_capability_without_position_ops() {
    // Without a transform the capability object exists but binds no position
    // operations: calling one fails gracefully into the error state.
    let mut ok = Script::new("function update(dt)\n  assert(gameObject ~= nil)\nend\n".to_string());
    ok.update_detached(16);
    assert!(ok.status_ok(), "{:?}", ok.last_error());

    let mut bad = Script::new(MOVER.to_string());
    bad.update_detached(16);
    assert!(!bad.status_ok());
}

#[test]
fn set_script_persists_exactly_what_was_set() {
    // The persisted payload is byte-for-byte the new source, and reading the
    // source back yields it too: a full round trip through the component.
    let mut s = Script::new("x = 1".to_string());
    let new_src = "function update(dt)\n  -- nothing\nend\n".to_string();
    let store = s.set_script(new_src.clone());
    assert_eq!(store, new_src);
    assert_eq!(s.get_script(), new_src);

    // And a reload from the store keeps the same text.
    let mut s2 = Script::new("y = 2".to_string());
    s2.reload(store.clone());
    assert_eq!(s2.get_script(), store);
    assert!(s2.status_ok());
}

#[test]
fn set_script_recovers_from_error_state() {
    let mut s = Script::new("not lua ((".to_string());
    assert!(!s.status_ok());
    let _ = s.set_script(MOVER.to_string());
    assert!(s.status_ok());
    let mut cell = cell_at(0, 0);
    s.update(16, &mut cell);
    assert!(s.status_ok());
    assert_eq!(cell.lock_read().position.x, 1);
}

#[test]
fn set_script_with_invalid_source_enters_error_and_keeps_source() {
    let mut s = Script::new(MOVER.to_string());
    let persist = s.set_script("(((".to_string());
    assert_eq!(persist, "(((".to_string());
    assert_eq!(s.get_script(), "(((".to_string());
    assert!(!s.status_ok());
    assert!(matches!(s.state, ScriptState::Error(_)));
}

#[test]
fn out_of_range_position_from_script_is_an_error() {
    let src = "function update(dt)\n  gameObject.setPosition(9007199254740993, 0)\nend\n";
    let mut s = Script::new(src.to_string());
    let mut cell = cell_at(8, 9);
    s.update(16, &mut cell);
    assert!(!s.status_ok());
    let t = cell.lock_read();
    assert_eq!((t.position.x, t.position.y), (8, 9));
}

#[test]
fn world_runs_scripts_against_each_entitys_own_transform() {
    let mut w = World::new();
    let a = w.spawn();
    w.insert(a, Component::Transform(Transform::new(0, 0, Rotation::identity()))).unwrap();
    w.insert(a, Component::Script(Script::new(MOVER.to_string()))).unwrap();
    let b = w.spawn();
    w.insert(b, Component::Transform(Transform::new(100, 0, Rotation::identity()))).unwrap();

    w.run_all_scripts(16);
    w.run_all_scripts(16);

    let ta = w.transform_data(a).unwrap();
    assert_eq!(ta.position.x, 2);
    let tb = w.transform_data(b).unwrap();
    assert_eq!(tb.position.x, 100);
}

#[test]
fn scripted_query_lists_only_scripted_entities() {
    let mut w = World::new();
    let a = w.spawn();
    w.insert(a, Component::Script(Script::new("x=1".to_string()))).unwrap();
    let _b = w.spawn();
    let scripted = w.scripted();
    assert_eq!(scripted, vec![a]);
}

#[test]
fn script_position_units_are_fixed_point() {
    // One world unit is FX_ONE steps; a script moving one whole unit writes
    // FX_ONE through the capability.
    let src = "function update(dt)\n  local x, y = gameObject.getPosition()\n  gameObject.setPosition(x + 1000, y)\nend\n";
    let mut s = Script::new(src.to_string());
    let mut cell = cell_at(0, 0);
    s.update(16, &mut cell);
    assert!(s.status_ok());
    assert_eq!(cell.lock_read().position.x, FX_ONE);
}

#[test]
fn world_detached_script_keeps_running_without_transform() {
    let mut w = World::new();
    let e = w.spawn();
    let src = "function update(dt)\n  tally = (tally or 0) + 1\nend\n";
    w.insert(e, Component::Script(Script::new(src.to_string()))).unwrap();
    w.run_all_scripts(16);
    assert!(matches!(w.script_error(e), Ok(None)));
}

#[test]
fn world_script_calling_unbound_capability_errors() {
    let mut w = World::new();
    let e = w.spawn();
    w.insert(e, Component::Script(Script::new(MOVER.to_string()))).unwrap();
    w.run_all_scripts(16);
    let err = w.script_error(e).unwrap();
    assert!(err.is_some());
}

#[test]
fn world_set_script_hands_back_persist_payload() {
    let mut w = World::new();
    let e = w.spawn();
    w.insert(e, Component::Script(Script::new("x = 1".to_string()))).unwrap();
    let payload = w.set_script_of(e, MOVER.to_string()).unwrap();
    assert_eq!(payload, MOVER.to_string());
    assert_eq!(w.script_source(e).unwrap(), MOVER.to_string());
}

