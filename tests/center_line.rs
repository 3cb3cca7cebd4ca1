use lap_simulation::center_line::{first_least_index, first_marked_from, successor_indices};

#[test]
fn successors_wrap_round() {
    assert_eq!(successor_indices(4), vec![1, 2, 3, 0]);
    assert_eq!(successor_indices(1), vec![0]);
    assert_eq!(successor_indices(0), Vec::<usize>::new());
}

#[test]
fn least_key_first_index_wins() {
    assert_eq!(first_least_index(&vec![5, 3, 7, 3, 9]), Some(1));
    assert_eq!(first_least_index(&vec![2, 2, 2]), Some(0));
    assert_eq!(first_least_index(&vec![9, 8, 7]), Some(2));
    assert_eq!(first_least_index(&vec![]), None);
}

#[test]
fn nearest_sample_by_squared_distance_bits() {
    let samples = [(50.0f64, 0.0f64), (0.0, 50.0), (-50.0, 0.0), (0.0, -50.0)];
    let (x, y) = (1.0f64, 45.0f64);
    let keys: Vec<u64> = samples
        .iter()
        .map(|&(cx, cy)| ((cx - x) * (cx - x) + (cy - y) * (cy - y)).to_bits())
        .collect();
    assert_eq!(first_least_index(&keys), Some(1));
}

#[test]
fn marked_scan_wraps_from_start() {
    let marked = vec![true, false, false, true, false];
    assert_eq!(first_marked_from(&marked, 1), 3);
    assert_eq!(first_marked_from(&marked, 4), 0);
    assert_eq!(first_marked_from(&marked, 3), 3);
}

#[test]
fn marked_scan_falls_back_to_start() {
    let marked = vec![false, false, false];
    assert_eq!(first_marked_from(&marked, 2), 2);
}
