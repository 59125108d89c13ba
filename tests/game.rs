use entomb::game::{draw_loading_screen, Game, Transition};
use entomb::input::{key_button, Glyph, BUTTON_1};
use entomb::screen::{DrawText, Piece};
use entomb::unlock::NUM_STEPS;

fn press_line(tail: &'static str) -> Vec<DrawText> {
    vec![
        DrawText { x: 8, y: 144, piece: Piece::Text("Press ") },
        DrawText { x: 56, y: 144, piece: Piece::Icon(Glyph::Primary) },
        DrawText { x: 64, y: 144, piece: Piece::Text(tail) },
    ]
}

#[test]
fn loading_screen_timing() {
    let mut g = Game::new();
    for _ in 0..34 {
        g.update(0);
    }
    assert!(matches!(g, Game::Loading(34)));
    assert_eq!(g.draw(), vec![DrawText { x: 8, y: 144, piece: Piece::Text("Loading...") }]);
    g.update(0);
    assert!(matches!(g, Game::Loading(35)));
    assert_eq!(g.draw(), press_line(" to start."));
}

#[test]
fn loading_screen_by_ticks() {
    assert_eq!(draw_loading_screen(0), vec![DrawText { x: 8, y: 144, piece: Piece::Text("Loading...") }]);
    assert_eq!(draw_loading_screen(34).len(), 1);
    assert_eq!(draw_loading_screen(35), press_line(" to start."));
    assert_eq!(draw_loading_screen(u64::MAX), press_line(" to start."));
}

#[test]
fn primary_button_starts_unlock_with_tick_seed() {
    let mut g = Game::new();
    g.update(0);
    g.update(0);
    assert_eq!(g.advance(BUTTON_1), Some(Transition::Start { seed: 3 }));
    assert!(matches!(g, Game::Loading(3)));
    let mut h = Game::new();
    h.update(BUTTON_1);
    match h {
        Game::Unlock(u) => {
            assert_eq!(u.step, 0);
            assert_eq!(u.sequence, entomb::unlock::Unlock::from_seed(1).sequence);
        }
        _ => panic!("expected the unlock phase"),
    }
}

#[test]
fn full_session_reaches_lobby() {
    let mut g = Game::new();
    g.update(BUTTON_1);
    let mut frames = 0;
    loop {
        let button = match &g {
            Game::Unlock(u) => key_button(u.sequence[u.step]),
            _ => break,
        };
        g.update(0);
        g.update(button);
        frames += 1;
        assert!(frames <= NUM_STEPS);
    }
    assert_eq!(frames, NUM_STEPS);
    match &g {
        Game::Lobby(l) => {
            assert!(!l.is_revealed());
            assert_eq!(l.secret_code(), [0, 0, 0]);
        }
        _ => panic!("expected the lobby"),
    }
    assert_eq!(g.draw().len(), 20);
    assert!(g.can_count_frame());
}

#[test]
fn enter_builds_next_phase() {
    assert!(matches!(Game::enter(Transition::Start { seed: 5 }), Game::Unlock(_)));
    assert!(matches!(Game::enter(Transition::Unlocked { seed: 5 }), Game::Lobby(_)));
}
