use lap_simulation::resettable::Resettable;
use lap_simulation::run_plan::{step_plan, trajectory_len, StepKind};

#[test]
fn run_with_remainder_records_four_snapshots() {
    // dt = 0.1, duration = 0.25: two full steps and a 0.05 s remainder
    let dt = 0.1f64;
    let duration = 0.25f64;
    let full = (duration / dt).floor() as usize;
    let remainder = duration - full as f64 * dt;
    assert_eq!(full, 2);
    assert!(remainder > 0.0);
    let plan = step_plan(full, remainder > 0.0);
    assert_eq!(plan, vec![StepKind::Full, StepKind::Full, StepKind::Remainder]);
    assert_eq!(trajectory_len(full, true), 4);
    assert_eq!(plan.len() + 1, 4);
}

#[test]
fn run_without_remainder_records_eleven_snapshots() {
    let dt = 0.1f64;
    let duration = 1.0f64;
    let full = (duration / dt).floor() as usize;
    let remainder = duration - full as f64 * dt;
    assert_eq!(full, 10);
    assert!(remainder <= 0.0);
    let plan = step_plan(full, remainder > 0.0);
    assert_eq!(plan.len(), 10);
    assert!(plan.iter().all(|k| *k == StepKind::Full));
    assert_eq!(trajectory_len(full, false), 11);
}

#[test]
fn empty_run_records_initial_snapshot_only() {
    assert!(step_plan(0, false).is_empty());
    assert_eq!(trajectory_len(0, false), 1);
    assert_eq!(step_plan(0, true), vec![StepKind::Remainder]);
}

#[derive(Clone, Copy, Debug, PartialEq)]
struct State {
    x: f64,
    vx: f64,
}

#[test]
fn reset_restores_initial_state_bit_for_bit() {
    let start = State { x: 5.0, vx: 2.0 };
    let mut s = Resettable::new(start);
    for k in 0..7 {
        let cur = s.get();
        s.set(State { x: cur.x + cur.vx * 0.1, vx: cur.vx + 0.3 * k as f64 });
    }
    assert_ne!(s.get(), start);
    s.reset();
    assert_eq!(s.get().x.to_bits(), start.x.to_bits());
    assert_eq!(s.get().vx.to_bits(), start.vx.to_bits());
    assert_eq!(s.initial(), start);
}

#[test]
fn rebase_moves_snapshot() {
    let mut p = Resettable::new((5u32, 1u32));
    p.rebase((7, 2));
    p.set((9, 9));
    p.reset();
    assert_eq!(p.get(), (7, 2));
}
