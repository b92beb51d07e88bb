use sprite_engine::transform::{
    Affine2, Position, Rotation, Transform, TransformCell, COORD_LIMIT, FX_ONE,
};

#[test]
fn matrix_maps_origin_to_position() {
    // For all (x, y, angle): the matrix applied to (0, 0) yields (x, y)
    // (applied points are scaled by FX_ONE).
    for (x, y) in [(0i64, 0i64), (5_000, -3_000), (123, 456)] {
        for rot in [Rotation::identity(), Rotation::quarter_turn(), Rotation { cos: -FX_ONE, sin: 0 }] {
            let t = Transform { position: Position { x, y }, rotation: rot };
            let m = t.to_mat();
            let (px, py) = m.apply_point(0, 0);
            assert_eq!((px, py), (x * FX_ONE, y * FX_ONE));
        }
    }
}

#[test]
fn quarter_turn_rotates_about_origin_before_translating() {
    // A unit point under angle = 90 degrees and translation (0, 0) maps to
    // its rotated counterpart.
    let t = Transform { position: Position { x: 0, y: 0 }, rotation: Rotation::quarter_turn() };
    let m = t.to_mat();
    let (px, py) = m.apply_point(FX_ONE, 0);
    assert_eq!((px, py), (0, FX_ONE * FX_ONE));
}

#[test]
fn rotation_applies_before_translation_not_after() {
    // With translation (d, 0) and a quarter turn, the unit x point lands at
    // (d, 1), not at the rotation of (d + 1, 0).
    let d = 10 * FX_ONE;
    let t = Transform { position: Position { x: d, y: 0 }, rotation: Rotation::quarter_turn() };
    let m = t.to_mat();
    let (px, py) = m.apply_point(FX_ONE, 0);
    // rotate (1, 0) -> (0, 1), then translate by (10, 0): (10, 1).
    assert_eq!((px, py), (d * FX_ONE, FX_ONE * FX_ONE));
    // Translated-then-rotated would have been (0, 11) scaled: make sure not.
    assert_ne!((px, py), (0, (d + FX_ONE) * FX_ONE));
}

#[test]
fn identity_rotation_matrix_is_pure_translation() {
    let t = Transform { position: Position { x: 7, y: 8 }, rotation: Rotation::identity() };
    let m = t.to_mat();
    let (px, py) = m.apply_point(100, 200);
    assert_eq!((px, py), (100 * FX_ONE + 7 * FX_ONE, 200 * FX_ONE + 8 * FX_ONE));
}

#[test]
fn component_matrices_match_composite() {
    let pos = Position { x: 3, y: 4 };
    let rot = Rotation::quarter_turn();
    let pm: Affine2 = pos.to_mat();
    let rm: Affine2 = rot.to_mat();
    let t = Transform { position: pos, rotation: rot };
    let m = t.to_mat();
    // The rotation supplies the linear part, the position the translation.
    assert_eq!((m.xx, m.xy, m.yx, m.yy), (rm.xx, rm.xy, rm.yx, rm.yy));
    assert_eq!((m.tx, m.ty), (pm.tx, pm.ty));
}

#[test]
fn cell_reader_sees_whole_writes_only() {
    // A writer's (x, y, angle) update is observed as a whole by the next
    // reader: the cell exchanges complete records only.
    let first = Transform { position: Position { x: 1, y: 2 }, rotation: Rotation::identity() };
    let second = Transform {
        position: Position { x: -9, y: 77 },
        rotation: Rotation::quarter_turn(),
    };
    let mut cell = TransformCell::new(first);
    assert_eq!(cell.lock_read(), first);
    cell.store(second);
    let seen = cell.lock_read();
    assert_eq!(seen, second);
    // Never a half-applied mix of the two records.
    assert!(seen == first || seen == second);
}

#[test]
fn set_position_is_a_whole_record_write_keeping_rotation() {
    let mut cell = TransformCell::new(Transform {
        position: Position { x: 0, y: 0 },
        rotation: Rotation::quarter_turn(),
    });
    cell.set_position(COORD_LIMIT, -COORD_LIMIT);
    let t = cell.lock_read();
    assert_eq!((t.position.x, t.position.y), (COORD_LIMIT, -COORD_LIMIT));
    assert_eq!(t.rotation, Rotation::quarter_turn());
}

#[test]
fn transform_new_returns_shared_cell_with_given_record() {
    let cell = Transform::new(42, -17, Rotation::identity());
    let t = cell.lock_read();
    assert_eq!((t.position.x, t.position.y), (42, -17));
    assert_eq!(t.rotation, Rotation::identity());
}
