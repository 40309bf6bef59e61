use starsoldier_visualize::aim::aim;

#[test]
fn aim_zero_vector_is_code_zero() {
    // Feature code 16, table[16] = 0, at any position.
    assert_eq!(aim((127, 119), (127, 119)), 0);
    assert_eq!(aim((0, 0), (0, 0)), 0);
    assert_eq!(aim((-500, 42), (-500, 42)), 0);
    assert_eq!(aim((i32::MAX, i32::MIN), (i32::MAX, i32::MIN)), 0);
}

#[test]
fn aim_target_right_of_origin() {
    // dx = -1, dy = 0: bits 0, 2 and 4 set, feature code 21, table[21] = 4.
    assert_eq!(aim((127, 119), (128, 119)), 4);
}

#[test]
fn aim_target_straight_above() {
    // dx = 0, large dy: vertical bucket, feature code 16, table[16] = 0.
    assert_eq!(aim((127, 119), (127, 0)), 0);
}

#[test]
fn aim_diagonal_golden_values() {
    // Origin (127, 119) to (0, 0): dx = 127, dy = 119, nearly diagonal,
    // neither ratio bit set, feature code 4, table[4] = 14.
    assert_eq!(aim((127, 119), (0, 0)), 14);
    // The reversed pair flips both quadrant bits: feature code 7,
    // table[7] = 6, the 180-degree opposite of 14.
    assert_eq!(aim((0, 0), (127, 119)), 6);
}

#[test]
fn aim_opposite_pairs_differ_by_eight() {
    let pairs = [
        ((127, 119), (128, 119)),
        ((127, 119), (127, 0)),
        ((127, 119), (0, 0)),
        ((3, -7), (250, 11)),
        ((-1000, 2000), (345, -678)),
        ((0, 0), (1, 2)),
    ];
    for &(o, t) in pairs.iter() {
        let forward = aim(o, t);
        let backward = aim(t, o);
        assert_eq!(backward, (forward + 8) % 16);
    }
}

#[test]
fn aim_codes_always_in_range() {
    for x in -40i32..40 {
        for y in -40i32..40 {
            let code = aim((0, 0), (x, y));
            assert!(code < 16);
        }
    }
    assert!(aim((i32::MIN, i32::MAX), (i32::MAX, i32::MIN)) < 16);
}

#[test]
fn aim_is_deterministic() {
    let inputs = [((127, 119), (200, 30)), ((-5, 8), (13, -21)), ((0, 0), (0, 1))];
    for &(o, t) in inputs.iter() {
        let first = aim(o, t);
        let second = aim(o, t);
        assert_eq!(first, second);
    }
}
