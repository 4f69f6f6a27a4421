use janitor_sim::behavior::{
    flip_x, next_attacker_state, sprite_index, update_attacker_state, update_defender_state,
    update_facing, AttackerState, DefenderState, FacingDirection, VerticalMotion,
    FRAMES_PER_SPRITE, LAND_FRAMES, STUN_FRAMES,
};
use janitor_sim::behavior::{movement_intent, MoveIntent};
use janitor_sim::contacts::{is_grounded, ContactRecord, Sign};
use janitor_sim::input::AttackerControls;

use VerticalMotion::{Falling, Level, Rising};

#[test]
fn idle_rising_jumps_whatever_its_counter() {
    for f in [0usize, 1, 7, 1000, usize::MAX] {
        assert_eq!(next_attacker_state(AttackerState::Idle(f), Rising, 0, false), AttackerState::Jump(0));
        assert_eq!(next_attacker_state(AttackerState::Idle(f), Rising, 1, true), AttackerState::Jump(0));
    }
}

#[test]
fn idle_transitions() {
    assert_eq!(next_attacker_state(AttackerState::Idle(4), Falling, 0, false), AttackerState::Fall(0));
    assert_eq!(next_attacker_state(AttackerState::Idle(4), Level, -1, false), AttackerState::Walk(0));
    assert_eq!(next_attacker_state(AttackerState::Idle(4), Level, 0, true), AttackerState::Idle(5));
}

#[test]
fn jump_falls_once_no_longer_rising() {
    assert_eq!(next_attacker_state(AttackerState::Jump(2), Rising, 0, false), AttackerState::Jump(3));
    assert_eq!(next_attacker_state(AttackerState::Jump(2), Level, 0, false), AttackerState::Fall(0));
    assert_eq!(next_attacker_state(AttackerState::Jump(2), Falling, 0, false), AttackerState::Fall(0));
}

#[test]
fn fall_lands_on_ground() {
    assert_eq!(next_attacker_state(AttackerState::Fall(9), Falling, 0, false), AttackerState::Fall(10));
    assert_eq!(next_attacker_state(AttackerState::Fall(9), Falling, 0, true), AttackerState::Land(0));
}

#[test]
fn land_then_idle() {
    let mut s = AttackerState::Land(0);
    for f in 1..=LAND_FRAMES + 1 {
        s = next_attacker_state(s, Level, 0, true);
        assert_eq!(s, AttackerState::Land(f));
    }
    assert_eq!(next_attacker_state(s, Level, 0, true), AttackerState::Idle(0));
    assert_eq!(next_attacker_state(AttackerState::Land(1), Falling, 0, false), AttackerState::Fall(0));
}

#[test]
fn walk_transitions() {
    assert_eq!(next_attacker_state(AttackerState::Walk(3), Level, 1, true), AttackerState::Walk(4));
    assert_eq!(next_attacker_state(AttackerState::Walk(3), Level, 0, true), AttackerState::Idle(0));
    assert_eq!(next_attacker_state(AttackerState::Walk(3), Rising, 1, true), AttackerState::Jump(0));
    assert_eq!(next_attacker_state(AttackerState::Walk(3), Falling, 1, true), AttackerState::Fall(0));
}

#[test]
fn hit_recovers_after_stun() {
    assert_eq!(next_attacker_state(AttackerState::Hit(STUN_FRAMES), Level, 1, true), AttackerState::Hit(STUN_FRAMES + 1));
    assert_eq!(next_attacker_state(AttackerState::Hit(STUN_FRAMES + 1), Rising, 1, true), AttackerState::Idle(0));
}

#[test]
fn counter_stops_at_max() {
    assert_eq!(next_attacker_state(AttackerState::Idle(usize::MAX), Level, 0, false), AttackerState::Idle(usize::MAX));
}

#[test]
fn capabilities() {
    let all = [
        AttackerState::Idle(0),
        AttackerState::Jump(0),
        AttackerState::Fall(0),
        AttackerState::Land(0),
        AttackerState::Walk(0),
        AttackerState::Hit(0),
    ];
    let walk: Vec<bool> = all.iter().map(|s| s.can_walk()).collect();
    let jump: Vec<bool> = all.iter().map(|s| s.can_jump()).collect();
    let clean: Vec<bool> = all.iter().map(|s| s.can_clean()).collect();
    let stun: Vec<bool> = all.iter().map(|s| s.is_stunned()).collect();
    assert_eq!(walk, vec![true, true, true, true, true, false]);
    assert_eq!(jump, vec![true, false, false, false, true, false]);
    assert_eq!(clean, vec![true, false, false, true, true, false]);
    assert_eq!(stun, vec![false, false, false, false, false, true]);
    assert_eq!(AttackerState::Walk(12).get_frame(), 12);
    assert_eq!(AttackerState::default(), AttackerState::Idle(0));
}

#[test]
fn ground_from_contacts() {
    let me = 3usize;
    let stat = vec![ContactRecord { a: me, b: 0, normal_y: Sign::Negative }];
    assert!(is_grounded(me, &vec![], &stat));
    let side = vec![ContactRecord { a: me, b: 0, normal_y: Sign::Zero }];
    assert!(!is_grounded(me, &vec![], &side));
    // dynamic: normal points from a to b
    let below_me = vec![ContactRecord { a: me, b: 5, normal_y: Sign::Negative }];
    assert!(is_grounded(me, &below_me, &vec![]));
    let above_other = vec![ContactRecord { a: 5, b: me, normal_y: Sign::Positive }];
    assert!(is_grounded(me, &above_other, &vec![]));
    let under_other = vec![ContactRecord { a: 5, b: me, normal_y: Sign::Negative }];
    assert!(!is_grounded(me, &under_other, &vec![]));
    let others = vec![ContactRecord { a: 5, b: 6, normal_y: Sign::Negative }];
    assert!(!is_grounded(me, &others, &others));
}

#[test]
fn update_reads_contacts_only_when_falling() {
    let stat = vec![ContactRecord { a: 1, b: 0, normal_y: Sign::Negative }];
    assert_eq!(update_attacker_state(1, AttackerState::Fall(3), Falling, 0, &vec![], &stat), AttackerState::Land(0));
    assert_eq!(update_attacker_state(2, AttackerState::Fall(3), Falling, 0, &vec![], &stat), AttackerState::Fall(4));
}

#[test]
fn facing_follows_intent() {
    assert_eq!(update_facing(FacingDirection::Right, -1), FacingDirection::Left);
    assert_eq!(update_facing(FacingDirection::Left, 1), FacingDirection::Right);
    assert_eq!(update_facing(FacingDirection::Left, 0), FacingDirection::Left);
    assert!(flip_x(FacingDirection::Left));
    assert!(!flip_x(FacingDirection::Right));
    assert_eq!(FacingDirection::default(), FacingDirection::Right);
}

#[test]
fn defender_fires_once_per_animation() {
    let (mut s, shot) = update_defender_state(DefenderState::Idle(5), true);
    assert_eq!(s, DefenderState::Fire(0));
    assert!(!shot);
    let mut shots = Vec::new();
    let mut frames = 1;
    loop {
        let (next, shoot) = update_defender_state(s, false);
        if shoot {
            shots.push(s.get_frame());
        }
        s = next;
        frames += 1;
        if s == DefenderState::Idle(0) {
            break;
        }
    }
    assert_eq!(shots, vec![FRAMES_PER_SPRITE * 2]);
    assert_eq!(frames, FRAMES_PER_SPRITE * 4 + 2);
    assert_eq!(update_defender_state(DefenderState::Idle(5), false), (DefenderState::Idle(6), false));
}

#[test]
fn sprite_index_cycles() {
    assert_eq!(sprite_index(0, 4), 0);
    assert_eq!(sprite_index(9, 4), 0);
    assert_eq!(sprite_index(10, 4), 1);
    assert_eq!(sprite_index(45, 4), 0);
    assert_eq!(sprite_index(35, 4), 3);
}

#[test]
fn movement_gated_by_state() {
    let c = AttackerControls { vertical: 1, horizontal: -1 };
    assert_eq!(movement_intent(AttackerState::Idle(0), c), MoveIntent { walk: -1, jump: Some(1) });
    assert_eq!(movement_intent(AttackerState::Walk(3), c), MoveIntent { walk: -1, jump: Some(1) });
    assert_eq!(movement_intent(AttackerState::Fall(3), c), MoveIntent { walk: -1, jump: None });
    assert_eq!(movement_intent(AttackerState::Hit(3), c), MoveIntent { walk: 0, jump: None });
    let down = AttackerControls { vertical: -1, horizontal: 1 };
    assert_eq!(movement_intent(AttackerState::Idle(0), down), MoveIntent { walk: 1, jump: None });
}
