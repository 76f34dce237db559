use bumpers::{dist_sq_exec, is_clear, movement_force, Pos, MOVE_FORCE};

#[test]
fn squared_distance_is_exact() {
    let origin = Pos { x: 0, y: 0 };
    let p = Pos { x: 3, y: 4 };
    assert_eq!(dist_sq_exec(&p, &origin), 25);
    assert_eq!(dist_sq_exec(&origin, &p), 25);
    assert_eq!(dist_sq_exec(&p, &p), 0);
    let far_a = Pos { x: i32::MIN, y: i32::MIN };
    let far_b = Pos { x: i32::MAX, y: i32::MAX };
    let span: i128 = i32::MAX as i128 - i32::MIN as i128;
    assert_eq!(dist_sq_exec(&far_a, &far_b), 2 * span * span);
}

#[test]
fn clearance_counts_the_exact_spacing_as_clear() {
    let p = Pos { x: 3, y: 4 };
    let pts = vec![Pos { x: 0, y: 0 }];
    assert!(is_clear(&p, &pts, 5));
    assert!(!is_clear(&p, &pts, 6));
    let empty: Vec<Pos> = Vec::new();
    assert!(is_clear(&p, &empty, 5));
}

#[test]
fn movement_force_is_the_exact_product() {
    assert_eq!(MOVE_FORCE, 1500);
    assert_eq!(
        movement_force(1000, -500, 16667),
        (1000 * 1500 * 16667, -500 * 1500 * 16667)
    );
    assert_eq!(movement_force(250, 0, 20000), (250 * 1500 * 20000, 0));
    assert_eq!(movement_force(1000, 1000, 0), (0, 0));
}
