use tablet_tracker::pointer::{latest_move, PointerSample};

#[test]
fn no_samples_no_move() {
    let samples: Vec<PointerSample<(i32, i32)>> = Vec::new();
    assert_eq!(latest_move(&samples), None);
}

#[test]
fn only_other_events_no_move() {
    let samples: Vec<PointerSample<(i32, i32)>> = vec![PointerSample::Other, PointerSample::Other];
    assert_eq!(latest_move(&samples), None);
}

#[test]
fn last_move_wins() {
    let samples = vec![
        PointerSample::Move((1, 2)),
        PointerSample::Other,
        PointerSample::Move((30, 40)),
        PointerSample::Other,
    ];
    assert_eq!(latest_move(&samples), Some((30, 40)));
}

#[test]
fn single_move_is_kept() {
    let samples = vec![PointerSample::Other, PointerSample::Move((7, 9))];
    assert_eq!(latest_move(&samples), Some((7, 9)));
}

#[test]
fn float_positions_pass_through() {
    let samples = vec![PointerSample::Move((100.0f64, 100.0f64)), PointerSample::Move((12.5, 3.25))];
    assert_eq!(latest_move(&samples), Some((12.5, 3.25)));
}
