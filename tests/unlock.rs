use entomb::input::{key_button, Glyph, BUTTON_1, BUTTON_2, NUM_KEYS};
use entomb::screen::{DrawText, Piece};
use entomb::unlock::{Unlock, ALL_HELD, NUM_STEPS};

fn press_all(u: &mut Unlock) -> Vec<Option<u64>> {
    let mut outcomes = Vec::new();
    outcomes.push(u.update(0));
    while u.step < NUM_STEPS {
        let button = key_button(u.sequence[u.step]);
        let r = u.update(button);
        outcomes.push(r);
        if r.is_some() {
            break;
        }
        outcomes.push(u.update(0));
    }
    outcomes
}

#[test]
fn sequence_keys_in_range() {
    for seed in [0u64, 1, 2, 42, 12345, u64::MAX] {
        let u = Unlock::from_seed(seed);
        assert_eq!(u.sequence.len(), 16);
        assert!(u.sequence.iter().all(|&k| k < NUM_KEYS));
        assert_eq!(u.step, 0);
        assert_eq!(u.prev_gamepad, ALL_HELD);
        assert_eq!(u.ticks, 0);
        assert_eq!(u.seed_bits, 0);
    }
}

#[test]
fn seed_42_gives_same_sequence_twice() {
    let a = Unlock::from_seed(42);
    let b = Unlock::from_seed(42);
    assert_eq!(a.sequence, b.sequence);
}

#[test]
fn matched_presses_complete_on_the_last_key() {
    let mut u = Unlock::from_seed(7);
    let outcomes = press_all(&mut u);
    // One idle frame, then a press and a release per key but the last.
    assert_eq!(outcomes.len(), 1 + 2 * NUM_STEPS - 1);
    let (last, earlier) = outcomes.split_last().unwrap();
    assert!(earlier.iter().all(|r| r.is_none()));
    // Presses fall on ticks 2, 4, ..., 32: their low four bits, in order.
    assert_eq!(*last, Some(0x2468_ACE0_2468_ACE0));
    assert_eq!(u.step, NUM_STEPS);
}

#[test]
fn same_timings_give_same_seed() {
    let mut a = Unlock::from_seed(3);
    let mut b = Unlock::from_seed(3);
    let ra = press_all(&mut a);
    let rb = press_all(&mut b);
    assert_eq!(ra, rb);
    assert_eq!(a.seed_bits, b.seed_bits);
}

#[test]
fn seed_uses_low_four_bits_of_ticks() {
    let mut u = Unlock::from_seed(11);
    // Idle for 18 frames, so the first press falls on tick 19 (low bits 3).
    for _ in 0..18 {
        assert_eq!(u.update(0), None);
    }
    let button = key_button(u.sequence[0]);
    assert_eq!(u.update(button), None);
    assert_eq!(u.ticks, 19);
    assert_eq!(u.step, 1);
    assert_eq!(u.seed_bits, 3);
}

#[test]
fn wrong_key_is_ignored() {
    let mut u = Unlock::from_seed(5);
    u.update(0);
    let required = key_button(u.sequence[0]);
    let wrong = if required == BUTTON_1 { BUTTON_2 } else { BUTTON_1 };
    assert_eq!(u.update(wrong), None);
    assert_eq!(u.step, 0);
    assert_eq!(u.seed_bits, 0);
    assert_eq!(u.prev_gamepad, wrong);
}

#[test]
fn held_button_blocks_a_match() {
    let mut u = Unlock::from_seed(9);
    let required = key_button(u.sequence[0]);
    let other = if required == BUTTON_1 { BUTTON_2 } else { BUTTON_1 };
    // The first frame follows the all-held start state.
    assert_eq!(u.update(required), None);
    assert_eq!(u.step, 0);
    u.update(other);
    assert_eq!(u.update(other | required), None);
    assert_eq!(u.step, 0);
    assert_eq!(u.seed_bits, 0);
    // Released, then pressed again: now it counts.
    u.update(0);
    u.update(required);
    assert_eq!(u.step, 1);
}

#[test]
fn unlock_draw_shows_required_key() {
    let mut u = Unlock::from_seed(1);
    u.update(0);
    u.update(key_button(u.sequence[0]));
    let glyphs = [Glyph::Primary, Glyph::Secondary, Glyph::Left, Glyph::Right, Glyph::Up, Glyph::Down];
    let shown = u.draw();
    assert_eq!(
        shown,
        vec![
            DrawText { x: 80, y: 20, piece: Piece::Text("Press  .") },
            DrawText { x: 128, y: 20, piece: Piece::Icon(glyphs[u.sequence[1]]) },
        ]
    );
}
