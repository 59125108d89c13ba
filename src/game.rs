//! The session: one active phase at a time, Loading, then Unlock, then
//! Lobby, advanced once per frame.

use vstd::prelude::*;

use crate::input::{BUTTON_1, Glyph, held, is_held};
use crate::lobby::{Lobby, code_is_unset};
use crate::screen::{DrawText, Piece, item, press_line_spec, push_press_line};
use crate::unlock::{ALL_HELD, NUM_STEPS, Unlock};

verus! {

/// How many frames the loading screen says "Loading..." before it asks
/// for the primary button.
pub const SPLASH_TICKS: u64 = 35;

/// The active phase, with its own state.
pub enum Game {
    /// The loading screen, with the frames counted since start.
    Loading(u64),
    Unlock(Unlock),
    Lobby(Lobby),
}

/// A move to the next phase, with the seed that the next phase starts from.
#[derive(Clone, Copy, Debug, PartialEq, Eq, Structural)]
pub enum Transition {
    /// From Loading to Unlock, seeded with the frame count.
    Start { seed: u64 },
    /// From Unlock to Lobby, seeded with the gathered timing bits.
    Unlocked { seed: u64 },
}

/// What the loading screen shows after `ticks` frames.
pub open spec fn loading_screen(ticks: u64) -> Seq<DrawText> {
    if ticks < SPLASH_TICKS {
        seq![item(8, 144, Piece::Text("Loading..."))]
    } else {
        press_line_spec(8, 144, Glyph::Primary, " to start.")
    }
}

/// The loading screen after `ticks` frames.
pub fn draw_loading_screen(ticks: u64) -> (r: Vec<DrawText>)
    ensures
        r@ == loading_screen(ticks),
{
    if ticks < SPLASH_TICKS {
        vec![DrawText { x: 8, y: 144, piece: Piece::Text("Loading...") }]
    } else {
        let mut out: Vec<DrawText> = Vec::new();
        push_press_line(&mut out, 8, 144, Glyph::Primary, " to start.");
        assert(out@ =~= loading_screen(ticks));
        out
    }
}

/// Whether `u` is an unlock phase as it starts.
pub open spec fn is_fresh_unlock(u: Unlock) -> bool {
    &&& u.wf()
    &&& u.step == 0
    &&& u.prev_gamepad == ALL_HELD
    &&& u.ticks == 0
    &&& u.seed_bits == 0
}

/// Whether `l` is a lobby as it starts.
pub open spec fn is_fresh_lobby(l: Lobby) -> bool {
    &&& l@.wf()
    &&& l@.prev_gamepad == 0
    &&& !l@.is_revealed
    &&& code_is_unset(l@.secret_code)
}

impl Game {
    pub open spec fn wf(&self) -> bool {
        match self {
            Game::Loading(_) => true,
            Game::Unlock(u) => u.wf() && u.step < NUM_STEPS,
            Game::Lobby(l) => l@.wf(),
        }
    }

    /// Whether the active phase's frame counter can count one more frame.
    pub open spec fn has_room(&self) -> bool {
        match self {
            Game::Loading(t) => *t < u64::MAX,
            Game::Unlock(u) => u.ticks < u64::MAX,
            Game::Lobby(_) => true,
        }
    }

    /// What the active phase shows.
    pub open spec fn screen(&self) -> Seq<DrawText> {
        match self {
            Game::Loading(t) => loading_screen(*t),
            Game::Unlock(u) => u.screen(),
            Game::Lobby(l) => l@.screen(),
        }
    }

    /// A session at its start: loading, with no frame counted.
    pub fn new() -> (r: Game)
        ensures
            r == Game::Loading(0),
    {
        Game::Loading(0)
    }

    pub fn can_count_frame(&self) -> (r: bool)
        ensures
            r == self.has_room(),
    {
        match self {
            Game::Loading(t) => *t < u64::MAX,
            Game::Unlock(u) => u.ticks < u64::MAX,
            Game::Lobby(_) => true,
        }
    }

    /// Runs the active phase for one frame with gamepad bitmask `gamepad`,
    /// and reports a move to the next phase if one is due. Loading moves on
    /// every frame that the primary button is held; Unlock moves on once
    /// its last key is matched.
    pub fn advance(&mut self, gamepad: u8) -> (r: Option<Transition>)
        requires
            old(self).wf(),
            old(self).has_room(),
        ensures
            match *old(self) {
                Game::Loading(t) => {
                    &&& *final(self) == Game::Loading((t + 1) as u64)
                    &&& r == if is_held(gamepad, BUTTON_1) {
                        Some(Transition::Start { seed: (t + 1) as u64 })
                    } else {
                        None
                    }
                },
                Game::Unlock(u) => {
                    &&& *final(self) == Game::Unlock(u.after(gamepad))
                    &&& u.after(gamepad).wf()
                    &&& r == match u.after(gamepad).outcome() {
                        Some(seed) => Some(Transition::Unlocked { seed }),
                        None => None,
                    }
                },
                Game::Lobby(l) => {
                    &&& *final(self) matches Game::Lobby(next)
                    &&& l@.leads_to(next@, gamepad)
                    &&& r == None::<Transition>
                },
            },
    {
        match self {
            Game::Loading(ticks) => {
                *ticks = *ticks + 1;
                if held(gamepad, BUTTON_1) {
                    Some(Transition::Start { seed: *ticks })
                } else {
                    None
                }
            },
            Game::Unlock(unlock) => match unlock.update(gamepad) {
                Some(seed) => Some(Transition::Unlocked { seed }),
                None => None,
            },
            Game::Lobby(lobby) => {
                lobby.update(gamepad);
                None
            },
        }
    }

    /// The phase that a transition enters, built from its seed.
    pub fn enter(transition: Transition) -> (r: Game)
        ensures
            match transition {
                Transition::Start { seed } => r matches Game::Unlock(u) && is_fresh_unlock(u) && u.seed@ == seed,
                Transition::Unlocked { seed } => r matches Game::Lobby(l) && is_fresh_lobby(l) && l@.seed == seed,
            },
    {
        match transition {
            Transition::Start { seed } => Game::Unlock(Unlock::from_seed(seed)),
            Transition::Unlocked { seed } => Game::Lobby(Lobby::from_seed(seed)),
        }
    }

    /// One frame: the active phase runs, and a due transition replaces it
    /// with the next phase.
    pub fn update(&mut self, gamepad: u8)
        requires
            old(self).wf(),
            old(self).has_room(),
        ensures
            final(self).wf(),
            match *old(self) {
                Game::Loading(t) => if is_held(gamepad, BUTTON_1) {
                    *final(self) matches Game::Unlock(next) && is_fresh_unlock(next) && next.seed@ == t + 1
                } else {
                    *final(self) == Game::Loading((t + 1) as u64)
                },
                Game::Unlock(u) => if u.after(gamepad).step == NUM_STEPS {
                    *final(self) matches Game::Lobby(l) && is_fresh_lobby(l) && l@.seed == u.after(gamepad).seed_bits
                } else {
                    *final(self) == Game::Unlock(u.after(gamepad))
                },
                Game::Lobby(l) => *final(self) matches Game::Lobby(next) && l@.leads_to(next@, gamepad),
            },
    {
        let transition = self.advance(gamepad);
        match transition {
            Some(t) => {
                *self = Game::enter(t);
            },
            None => {},
        }
    }

    /// What the active phase shows this frame.
    pub fn draw(&self) -> (r: Vec<DrawText>)
        requires
            self.wf(),
        ensures
            r@ == self.screen(),
    {
        match self {
            Game::Loading(ticks) => draw_loading_screen(*ticks),
            Game::Unlock(unlock) => unlock.draw(),
            Game::Lobby(lobby) => lobby.draw(),
        }
    }
}

} // verus!
