use batch_transform::{calculate_matrices, compose, compose_batch, Matrix, Transform, SCALE};

fn identity_descriptor() -> Transform {
    Transform {
        x: 0,
        y: 0,
        rot_cos: SCALE,
        rot_sin: 0,
        size_x: SCALE,
        size_y: SCALE,
        origin_x: 0,
        origin_y: 0,
    }
}

fn identity_matrix() -> Matrix {
    Matrix {
        m11: SCALE, m12: 0, m13: 0, m14: 0,
        m21: 0, m22: SCALE, m23: 0, m24: 0,
        m31: 0, m32: 0, m33: SCALE, m34: 0,
        m41: 0, m42: 0, m43: 0, m44: SCALE,
    }
}

#[test]
fn identity_descriptor_composes_to_identity() {
    let m = compose(&identity_descriptor());
    assert_eq!(m, identity_matrix());
    assert_eq!(Matrix::identity(), identity_matrix());
}

#[test]
fn pure_translation_fills_the_fourth_row() {
    let t = Transform {
        x: 5 * SCALE,
        y: -3 * SCALE,
        ..identity_descriptor()
    };
    let m = compose(&t);
    let expected = Matrix {
        m41: 5 * SCALE,
        m42: -3 * SCALE,
        m43: 0,
        ..identity_matrix()
    };
    assert_eq!(m, expected);
}

#[test]
fn scale_with_centered_pivot() {
    let t = Transform {
        size_x: 2 * SCALE,
        size_y: 4 * SCALE,
        origin_x: SCALE / 2,
        origin_y: SCALE / 2,
        ..identity_descriptor()
    };
    let m = compose(&t);
    let expected = Matrix {
        m11: 2 * SCALE,
        m22: 4 * SCALE,
        m41: -SCALE,
        m42: -2 * SCALE,
        ..identity_matrix()
    };
    assert_eq!(m, expected);
}

fn quarter_turn_descriptor() -> Transform {
    Transform {
        rot_cos: 0,
        rot_sin: SCALE,
        ..identity_descriptor()
    }
}

fn quarter_turn_matrix() -> Matrix {
    Matrix {
        m11: 0,
        m12: SCALE,
        m21: -SCALE,
        m22: 0,
        ..identity_matrix()
    }
}

#[test]
fn quarter_turn_rotation() {
    let m = compose(&quarter_turn_descriptor());
    assert_eq!(m, quarter_turn_matrix());
}

#[test]
fn batch_scenario_three_descriptors() {
    let translation = Transform {
        x: 10 * SCALE,
        ..identity_descriptor()
    };
    let transforms = vec![identity_descriptor(), quarter_turn_descriptor(), translation];
    let mut matrices = vec![Matrix::identity(); 3];
    // The batch is recomputed from scratch on every call; repeated calls must
    // land on the same three matrices in the same order.
    for _ in 0..16 {
        calculate_matrices(&transforms, &mut matrices);
        assert_eq!(matrices[0], identity_matrix());
        assert_eq!(matrices[1], quarter_turn_matrix());
        assert_eq!(
            matrices[2],
            Matrix {
                m41: 10 * SCALE,
                ..identity_matrix()
            }
        );
    }
}

#[test]
fn batching_does_not_perturb_an_element() {
    let d = Transform {
        x: 7 * SCALE + 123,
        y: -2 * SCALE + 45,
        rot_cos: 60000,
        rot_sin: -26000,
        size_x: 3 * SCALE / 2,
        size_y: 5 * SCALE,
        origin_x: SCALE / 4,
        origin_y: SCALE / 3,
    };
    let alone = compose_batch(&vec![d]);
    let padded = vec![identity_descriptor(), d, quarter_turn_descriptor(), d];
    let batched = compose_batch(&padded);
    assert_eq!(alone[0], batched[1]);
    assert_eq!(alone[0], batched[3]);
    assert_eq!(alone[0], compose(&d));
}

#[test]
fn permuting_the_batch_permutes_the_results() {
    let a = identity_descriptor();
    let b = quarter_turn_descriptor();
    let c = Transform {
        x: -4 * SCALE,
        y: SCALE,
        ..identity_descriptor()
    };
    let straight = compose_batch(&vec![a, b, c]);
    let permuted = compose_batch(&vec![c, a, b]);
    assert_eq!(permuted[0], straight[2]);
    assert_eq!(permuted[1], straight[0]);
    assert_eq!(permuted[2], straight[1]);
}

#[test]
fn in_place_batch_matches_the_sequential_batch() {
    let transforms = vec![
        identity_descriptor(),
        quarter_turn_descriptor(),
        Transform {
            x: SCALE,
            y: 2 * SCALE,
            size_x: 3 * SCALE,
            size_y: SCALE / 2,
            origin_x: SCALE / 2,
            origin_y: 0,
            ..identity_descriptor()
        },
    ];
    let reference = compose_batch(&transforms);
    let mut in_place = vec![Matrix::identity(); transforms.len()];
    calculate_matrices(&transforms, &mut in_place);
    assert_eq!(reference, in_place);
}

#[test]
fn zero_scale_collapses_to_a_degenerate_matrix() {
    let t = Transform {
        size_x: 0,
        size_y: 0,
        origin_x: SCALE / 2,
        origin_y: SCALE / 2,
        ..identity_descriptor()
    };
    let m = compose(&t);
    let expected = Matrix {
        m11: 0,
        m22: 0,
        ..identity_matrix()
    };
    assert_eq!(m, expected);
}

#[test]
fn pivot_product_rounds_toward_zero() {
    // origin 0.5 times a raw size of 3 is -1.5 raw before rounding; the
    // stored pivot shift is -1, not -2.
    let t = Transform {
        size_x: 3,
        origin_x: SCALE / 2,
        ..identity_descriptor()
    };
    let m = compose(&t);
    assert_eq!(m.m11, 3);
    assert_eq!(m.m41, -1);
}

#[test]
fn validity_is_a_range_check() {
    assert!(identity_descriptor().is_valid());
    let too_far = Transform {
        x: 0x8000_0001,
        ..identity_descriptor()
    };
    assert!(!too_far.is_valid());
    let too_large = Transform {
        size_y: -0x100_0001,
        ..identity_descriptor()
    };
    assert!(!too_large.is_valid());
}
