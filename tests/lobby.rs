use entomb::input::{Glyph, BUTTON_1, BUTTON_2};
use entomb::lobby::{Lobby, NUM_NOUNS};
use entomb::screen::{DrawText, Piece};

fn frame(l: &mut Lobby, gamepad: u8) {
    l.update(gamepad);
}

fn tap(l: &mut Lobby, button: u8) {
    frame(l, button);
    frame(l, 0);
}

fn is_set_code(c: [u8; 3]) -> bool {
    c.iter().all(|&d| (1..=4).contains(&d)) && c[0] != c[1] && c[0] != c[2] && c[1] != c[2]
}

#[test]
fn words_distinct_and_in_range() {
    for seed in [0u64, 1, 42, 0x2468_ACE0_2468_ACE0, u64::MAX] {
        let l = Lobby::from_seed(seed);
        let w = l.word_indices();
        for i in 0..5 {
            assert!(w[i] < NUM_NOUNS);
            assert_eq!(l.word_index(i), w[i]);
            for j in 0..i {
                assert_ne!(w[i], w[j]);
            }
        }
        assert!(!l.is_revealed());
        assert_eq!(l.secret_code(), [0, 0, 0]);
    }
}

#[test]
fn same_seed_same_words() {
    assert_eq!(Lobby::from_seed(99).word_indices(), Lobby::from_seed(99).word_indices());
}

#[test]
fn reveal_toggles_back() {
    let mut l = Lobby::from_seed(4);
    tap(&mut l, BUTTON_1);
    assert!(l.is_revealed());
    tap(&mut l, BUTTON_1);
    assert!(!l.is_revealed());
}

#[test]
fn held_primary_toggles_once() {
    let mut l = Lobby::from_seed(4);
    frame(&mut l, BUTTON_1);
    frame(&mut l, BUTTON_1);
    frame(&mut l, BUTTON_1);
    assert!(l.is_revealed());
}

#[test]
fn code_untouched_while_hidden() {
    let mut l = Lobby::from_seed(8);
    tap(&mut l, BUTTON_2);
    assert_eq!(l.secret_code(), [0, 0, 0]);
    tap(&mut l, BUTTON_1);
    tap(&mut l, BUTTON_2);
    let code = l.secret_code();
    assert!(is_set_code(code));
    tap(&mut l, BUTTON_1);
    tap(&mut l, BUTTON_2);
    assert_eq!(l.secret_code(), code);
}

#[test]
fn set_and_clear_code() {
    for seed in 0u64..20 {
        let mut l = Lobby::from_seed(seed);
        tap(&mut l, BUTTON_1);
        tap(&mut l, BUTTON_2);
        assert!(is_set_code(l.secret_code()));
        tap(&mut l, BUTTON_2);
        assert_eq!(l.secret_code(), [0, 0, 0]);
    }
}

#[test]
fn lobby_draw_hidden_and_revealed() {
    let mut l = Lobby::from_seed(21);
    let w = l.word_indices();
    let mut expected = vec![
        DrawText { x: 8, y: 8, piece: Piece::Text("Public checksum:") },
        DrawText { x: 8, y: 18, piece: Piece::Word(w[0]) },
        DrawText { x: 8, y: 40, piece: Piece::Text("Secret keywords:") },
    ];
    for i in 0..4 {
        let y = 50 + 10 * i as i32;
        expected.push(DrawText { x: 8, y, piece: Piece::Char(b'1' + i as u8) });
        expected.push(DrawText { x: 16, y, piece: Piece::Text(".") });
        expected.push(DrawText { x: 32, y, piece: Piece::Word(w[1 + i]) });
    }
    expected.push(DrawText { x: 8, y: 110, piece: Piece::Text("Secret code:") });
    let mut hidden = expected.clone();
    hidden.push(DrawText { x: 112, y: 110, piece: Piece::Text("???") });
    hidden.push(DrawText { x: 8, y: 144, piece: Piece::Text("Press ") });
    hidden.push(DrawText { x: 56, y: 144, piece: Piece::Icon(Glyph::Primary) });
    hidden.push(DrawText { x: 64, y: 144, piece: Piece::Text(" to reveal.") });
    assert_eq!(l.draw(), hidden);

    tap(&mut l, BUTTON_1);
    tap(&mut l, BUTTON_2);
    let c = l.secret_code();
    let mut shown = expected.clone();
    shown.push(DrawText { x: 112, y: 110, piece: Piece::Char(b'0' + c[0]) });
    shown.push(DrawText { x: 120, y: 110, piece: Piece::Text("-") });
    shown.push(DrawText { x: 128, y: 110, piece: Piece::Char(b'0' + c[1]) });
    shown.push(DrawText { x: 136, y: 110, piece: Piece::Text("-") });
    shown.push(DrawText { x: 144, y: 110, piece: Piece::Char(b'0' + c[2]) });
    shown.push(DrawText { x: 8, y: 136, piece: Piece::Text("Press ") });
    shown.push(DrawText { x: 56, y: 136, piece: Piece::Icon(Glyph::Secondary) });
    shown.push(DrawText { x: 64, y: 136, piece: Piece::Text(" to clear.") });
    shown.push(DrawText { x: 8, y: 144, piece: Piece::Text("Press ") });
    shown.push(DrawText { x: 56, y: 144, piece: Piece::Icon(Glyph::Primary) });
    shown.push(DrawText { x: 64, y: 144, piece: Piece::Text(" to hide.") });
    assert_eq!(l.draw(), shown);

    tap(&mut l, BUTTON_2);
    let drawn = l.draw();
    assert_eq!(drawn[16], DrawText { x: 112, y: 110, piece: Piece::Char(b'0') });
    assert_eq!(drawn[23], DrawText { x: 64, y: 136, piece: Piece::Text(" to set.") });
}

#[test]
fn accept_draw_keeps_only_free_values() {
    let taken = vec![3usize, 7, 2484];
    assert_eq!(entomb::lobby::accept_draw(&taken, 7), None);
    assert_eq!(entomb::lobby::accept_draw(&taken, 2484), None);
    assert_eq!(entomb::lobby::accept_draw(&taken, 4), Some(4));
    assert_eq!(entomb::lobby::accept_draw(&Vec::new(), 0), Some(0));
}
