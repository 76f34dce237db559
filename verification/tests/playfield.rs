use bumpers::{place_bumpers, setup_layout, Pos, BUMPER_COUNT, BUMPER_SPACING, X_MAX, X_MIN, Y_MAX, Y_MIN};

fn dist_sq(a: Pos, b: Pos) -> i128 {
    let dx: i128 = a.x as i128 - b.x as i128;
    let dy: i128 = a.y as i128 - b.y as i128;
    dx * dx + dy * dy
}

fn spacing_sq(spacing: i64) -> i128 {
    (spacing as i128) * (spacing as i128)
}

#[test]
fn layout_has_sixteen_well_spaced_bumpers() {
    let layout = setup_layout().expect("the playfield has room for the configured bumper count");
    assert_eq!(layout.player, Pos { x: 0, y: 0 });
    assert_eq!(layout.goal, Pos { x: 0, y: 0 });
    assert_eq!(layout.bumpers.len(), BUMPER_COUNT);
    assert_eq!(layout.bumpers.len(), 16);

    let mut placed = vec![layout.player, layout.goal];
    placed.extend(layout.bumpers.iter().copied());
    for (i, b) in placed.iter().enumerate().skip(2) {
        for (j, other) in placed.iter().enumerate() {
            if i != j {
                assert!(
                    dist_sq(*b, *other) >= spacing_sq(BUMPER_SPACING),
                    "bumper too close to another placed point"
                );
            }
        }
    }
    for b in &layout.bumpers {
        assert!(X_MIN <= b.x && b.x < X_MAX);
        assert!(Y_MIN <= b.y && b.y < Y_MAX);
    }
}

#[test]
fn place_bumpers_keeps_away_from_every_avoid_point() {
    let avoid = vec![
        Pos { x: 0, y: 0 },
        Pos { x: 20000, y: 10000 },
        Pos { x: -20000, y: -10000 },
    ];
    let placed = place_bumpers(&avoid, 5, BUMPER_SPACING).expect("room for five bumpers");
    assert_eq!(placed.len(), 5);
    for b in &placed {
        for a in &avoid {
            assert!(dist_sq(*b, *a) >= spacing_sq(BUMPER_SPACING));
        }
    }
    for (i, b) in placed.iter().enumerate() {
        for (j, other) in placed.iter().enumerate() {
            if i != j {
                assert!(dist_sq(*b, *other) >= spacing_sq(BUMPER_SPACING));
            }
        }
    }
}

#[test]
fn place_bumpers_zero_spacing_needs_no_room() {
    let avoid = vec![Pos { x: 70000, y: 70000 }];
    let placed = place_bumpers(&avoid, 4, 0).expect("zero spacing always places");
    assert_eq!(placed.len(), 4);
}

#[test]
fn place_bumpers_gives_up_when_no_point_can_be_clear() {
    // Every point of the playfield rectangle is within 200000 of the origin
    // (the far corners are about 58310 away), so no draw can ever be clear
    // and placement must give up after its attempt budget.
    let avoid = vec![Pos { x: 0, y: 0 }];
    assert!(place_bumpers(&avoid, 1, 200000).is_none());
}

#[test]
fn place_bumpers_zero_count_gives_empty() {
    let avoid = vec![Pos { x: 0, y: 0 }];
    let placed = place_bumpers(&avoid, 0, BUMPER_SPACING).expect("nothing to place");
    assert!(placed.is_empty());
}
