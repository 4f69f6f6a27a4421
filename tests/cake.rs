use janitor_sim::behavior::AttackerState;
use janitor_sim::cake::{cake_collision, splat_count, MAX_SPLAT, MIN_SPLAT};
use janitor_sim::contacts::{ContactRecord, Sign};

#[test]
fn splat_count_in_range_and_reproducible() {
    let mut seen = std::collections::BTreeSet::new();
    for frame in 0..200u32 {
        let n = splat_count(frame);
        assert!(MIN_SPLAT <= n && n < MAX_SPLAT);
        assert_eq!(n, splat_count(frame));
        seen.insert(n);
    }
    // the draw depends on the frame
    assert!(seen.len() > 1);
}

#[test]
fn splat_count_is_not_the_seed() {
    assert!(splat_count(7) < MAX_SPLAT);
    assert!(splat_count(4_000_000) < MAX_SPLAT);
}

#[test]
fn cake_hits_attacker() {
    let cake = 9;
    let attackers = vec![2, 3];
    let mut states = vec![AttackerState::Walk(5), AttackerState::Jump(1)];
    let contacts = vec![ContactRecord { a: 3, b: cake, normal_y: Sign::Zero }];
    assert!(cake_collision(cake, &attackers, &mut states, &contacts, &vec![]));
    assert_eq!(states, vec![AttackerState::Walk(5), AttackerState::Hit(0)]);
}

#[test]
fn cake_hit_needs_attacker_first() {
    let cake = 9;
    let attackers = vec![3];
    let mut states = vec![AttackerState::Idle(1)];
    let contacts = vec![ContactRecord { a: cake, b: 3, normal_y: Sign::Zero }];
    assert!(!cake_collision(cake, &attackers, &mut states, &contacts, &vec![]));
    assert_eq!(states, vec![AttackerState::Idle(1)]);
}

#[test]
fn cake_splats_on_ground() {
    let cake = 9;
    let mut states = vec![AttackerState::Idle(1)];
    let ground = vec![ContactRecord { a: cake, b: 0, normal_y: Sign::Negative }];
    assert!(cake_collision(cake, &vec![3], &mut states, &vec![], &ground));
    assert_eq!(states, vec![AttackerState::Idle(1)]);
    let wall = vec![ContactRecord { a: cake, b: 0, normal_y: Sign::Zero }];
    assert!(!cake_collision(cake, &vec![3], &mut states, &vec![], &wall));
}
