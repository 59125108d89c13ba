//! The unlock phase: a challenge of sixteen keys, pressed one at a time,
//! whose press timings make the seed of the next phase.

use vstd::prelude::*;

use crate::input::{NUM_KEYS, key_button, key_button_spec, key_glyph, key_glyph_spec, held, is_held};
use crate::random::{rng_below, rng_from_seed};
use crate::screen::{DrawText, Piece, CHAR_WIDTH, item};

verus! {

/// How many keys the challenge asks for.
pub const NUM_STEPS: usize = 16;

/// How many bits of timing each counted press adds to the seed.
pub const BITS_PER_STEP: u64 = 4;

/// The low bits of the tick counter that a counted press records.
pub const STEP_MASK: u64 = 15;

/// The gamepad state assumed before the first frame: every button held, so
/// that the first frame cannot count as a fresh press.
pub const ALL_HELD: u8 = 0xFF;

/// The low four bits of each tick, concatenated with the first one most
/// significant.
pub open spec fn pack_nibbles(ticks: Seq<u64>) -> int
    decreases ticks.len(),
{
    if ticks.len() == 0 {
        0
    } else {
        pack_nibbles(ticks.drop_last()) * 16 + ticks.last() % 16
    }
}

/// The sum of the low four bits of the first `k` ticks, the tick at
/// position `i` weighted by `16` to the power of how many ticks follow it.
pub open spec fn nibble_sum(ticks: Seq<u64>, k: nat) -> int
    decreases k,
{
    if k == 0 {
        0
    } else {
        nibble_sum(ticks, (k - 1) as nat) + (ticks[k - 1] % 16) * pow16((ticks.len() - k) as nat)
    }
}

pub open spec fn pow16(n: nat) -> int
    decreases n,
{
    if n == 0 {
        1
    } else {
        16 * pow16((n - 1) as nat)
    }
}

pub struct Unlock {
    /// The key asked for at each step, each below `NUM_KEYS`.
    pub sequence: [usize; NUM_STEPS],
    /// How many keys have been matched so far.
    pub step: usize,
    /// The gamepad bitmask of the previous frame.
    pub prev_gamepad: u8,
    /// Frames since the phase began.
    pub ticks: u64,
    /// The timing bits gathered so far.
    pub seed_bits: u64,
    /// The tick counter at each counted press, the first one first.
    pub match_ticks: Ghost<Seq<u64>>,
    /// The seed that the challenge was drawn from.
    pub seed: Ghost<u64>,
}

impl Unlock {
    pub open spec fn wf(&self) -> bool {
        &&& forall|i: int| 0 <= i < NUM_STEPS ==> #[trigger] self.sequence@[i] < NUM_KEYS
        &&& self.step <= NUM_STEPS
        &&& self.match_ticks@.len() == self.step
        &&& self.seed_bits == pack_nibbles(self.match_ticks@)
    }

    /// The key that the current step asks for.
    pub open spec fn required_key(&self) -> int {
        self.sequence@[self.step as int] as int
    }

    /// Whether a frame with bitmask `gamepad` counts as pressing the
    /// required key: no button was held the frame before, and the key's
    /// button is held now.
    pub open spec fn counts(&self, gamepad: u8) -> bool {
        self.prev_gamepad == 0 && is_held(gamepad, key_button_spec(self.required_key()))
    }

    /// The state after one frame with bitmask `gamepad`.
    pub open spec fn after(&self, gamepad: u8) -> Unlock {
        let ticks = (self.ticks + 1) as u64;
        if self.counts(gamepad) {
            Unlock {
                sequence: self.sequence,
                step: (self.step + 1) as usize,
                prev_gamepad: gamepad,
                ticks,
                seed_bits: (self.seed_bits * 16 + ticks % 16) as u64,
                match_ticks: Ghost(self.match_ticks@.push(ticks)),
                seed: self.seed,
            }
        } else {
            Unlock {
                sequence: self.sequence,
                step: self.step,
                prev_gamepad: gamepad,
                ticks,
                seed_bits: self.seed_bits,
                match_ticks: self.match_ticks,
                seed: self.seed,
            }
        }
    }

    /// What a frame reports: the gathered seed once every key is matched.
    pub open spec fn outcome(&self) -> Option<u64> {
        if self.step == NUM_STEPS {
            Some(self.seed_bits)
        } else {
            None
        }
    }

    /// What the phase shows while `step` keys are matched.
    pub open spec fn screen(&self) -> Seq<DrawText> {
        let y = 12 + 8 * self.step;
        seq![
            item(80, y as i32, Piece::Text("Press  .")),
            item((80 + 6 * CHAR_WIDTH) as i32, y as i32, Piece::Icon(key_glyph_spec(self.required_key()))),
        ]
    }

    /// A challenge of sixteen keys drawn from a generator seeded with `seed`.
    pub fn from_seed(seed: u64) -> (r: Unlock)
        ensures
            r.wf(),
            r.step == 0,
            r.prev_gamepad == ALL_HELD,
            r.ticks == 0,
            r.seed_bits == 0,
            r.seed@ == seed,
    {
        let mut rng = rng_from_seed(seed);
        let mut sequence: [usize; NUM_STEPS] = [0; NUM_STEPS];
        let mut i: usize = 0;
        while i < NUM_STEPS
            invariant
                i <= NUM_STEPS,
                forall|j: int| 0 <= j < NUM_STEPS ==> #[trigger] sequence@[j] < NUM_KEYS,
            decreases NUM_STEPS - i,
        {
            let k = rng_below(&mut rng, NUM_KEYS);
            sequence[i] = k;
            i = i + 1;
        }
        Unlock {
            sequence,
            step: 0,
            prev_gamepad: ALL_HELD,
            ticks: 0,
            seed_bits: 0,
            match_ticks: Ghost(Seq::empty()),
            seed: Ghost(seed),
        }
    }

    /// Runs one frame with gamepad bitmask `gamepad`; returns the gathered
    /// seed once the last key is matched.
    pub fn update(&mut self, gamepad: u8) -> (r: Option<u64>)
        requires
            old(self).wf(),
            old(self).step < NUM_STEPS,
            old(self).ticks < u64::MAX,
        ensures
            *final(self) == old(self).after(gamepad),
            final(self).wf(),
            r == final(self).outcome(),
            final(self).ticks == old(self).ticks + 1,
            final(self).sequence == old(self).sequence,
            final(self).prev_gamepad == gamepad,
            old(self).counts(gamepad) ==> {
                &&& final(self).step == old(self).step + 1
                &&& final(self).seed_bits == (old(self).seed_bits << 4) | (final(self).ticks & 15)
            },
            !old(self).counts(gamepad) ==> {
                &&& final(self).step == old(self).step
                &&& final(self).seed_bits == old(self).seed_bits
                &&& r == None::<u64>
            },
            r.is_some() <==> final(self).step == NUM_STEPS,
            r.is_some() ==> r == Some(final(self).seed_bits),
    {
        self.ticks = self.ticks + 1;
        if self.prev_gamepad == 0 && held(gamepad, key_button(self.sequence[self.step])) {
            let bits = self.seed_bits;
            let t = self.ticks;
            proof {
                lemma_seed_bits_room(*self);
                assert((bits << 4) | (t & 15) == bits * 16 + t % 16) by (bit_vector)
                    requires
                        bits < 0x1000_0000_0000_0000,
                ;
            }
            self.seed_bits = (bits << BITS_PER_STEP) | (t & STEP_MASK);
            self.step = self.step + 1;
            self.match_ticks = Ghost(self.match_ticks@.push(t));
        }
        self.prev_gamepad = gamepad;
        proof {
            lemma_after_wf(*old(self), gamepad);
        }
        if self.step == NUM_STEPS {
            Some(self.seed_bits)
        } else {
            None
        }
    }

    /// The prompt for the key that the current step asks for.
    pub fn draw(&self) -> (r: Vec<DrawText>)
        requires
            self.wf(),
            self.step < NUM_STEPS,
        ensures
            r@ == self.screen(),
    {
        let y = 12 + 8 * (self.step as i32);
        let key = key_glyph(self.sequence[self.step]);
        vec![
            DrawText { x: 80, y, piece: Piece::Text("Press  .") },
            DrawText { x: 80 + 6 * CHAR_WIDTH, y, piece: Piece::Icon(key) },
        ]
    }
}

/// One frame that presses exactly the button of the required key.
pub open spec fn press_required(u: Unlock) -> Unlock {
    u.after(key_button_spec(u.required_key()))
}

/// `n` rounds of pressing the required key for one frame and then holding
/// no button for one frame.
pub open spec fn play(u: Unlock, n: nat) -> Unlock
    decreases n,
{
    if n == 0 {
        u
    } else {
        press_required(play(u, (n - 1) as nat)).after(0)
    }
}

/// Before a match, the gathered bits leave room for four more.
proof fn lemma_seed_bits_room(u: Unlock)
    requires
        u.wf(),
        u.step < NUM_STEPS,
    ensures
        u.seed_bits < 0x1000_0000_0000_0000,
{
    lemma_pack_bound(u.match_ticks@);
    lemma_pow16_mono(u.step as nat, 15);
    reveal_with_fuel(pow16, 16);
}

proof fn lemma_after_wf(u: Unlock, gamepad: u8)
    requires
        u.wf(),
        u.step < NUM_STEPS,
        u.ticks < u64::MAX,
    ensures
        u.after(gamepad).wf(),
{
    if u.counts(gamepad) {
        lemma_seed_bits_room(u);
        let t = (u.ticks + 1) as u64;
        assert(u.match_ticks@.push(t).drop_last() =~= u.match_ticks@);
    }
}

proof fn lemma_key_button_fires(k: int)
    requires
        0 <= k < NUM_KEYS,
    ensures
        is_held(key_button_spec(k), key_button_spec(k)),
        !is_held(0, key_button_spec(k)),
{
    let b = key_button_spec(k);
    assert(b != 0 ==> b & b != 0) by (bit_vector);
    assert(0u8 & b == 0) by (bit_vector);
}

proof fn lemma_play(u: Unlock, n: nat)
    requires
        u.wf(),
        u.prev_gamepad == 0,
        u.step + n <= NUM_STEPS,
        u.ticks + 2 * n <= u64::MAX,
    ensures
        play(u, n).wf(),
        play(u, n).prev_gamepad == 0,
        play(u, n).step == u.step + n,
        play(u, n).ticks == u.ticks + 2 * n,
    decreases n,
{
    if n > 0 {
        let v = play(u, (n - 1) as nat);
        lemma_play(u, (n - 1) as nat);
        lemma_key_button_fires(v.required_key());
        lemma_after_wf(v, key_button_spec(v.required_key()));
        let p = press_required(v);
        if p.step < NUM_STEPS {
            lemma_after_wf(p, 0);
        } else {
            assert(p.after(0).wf());
        }
    }
}

/// Pressing the required keys in order, each for one frame and each after a
/// frame with no button held, matches one key per press: the seed is
/// reported by the sixteenth press and by no earlier frame.
pub proof fn lemma_matched_presses_complete(u: Unlock, n: nat)
    requires
        u.wf(),
        u.step == 0,
        u.prev_gamepad == 0,
        n < NUM_STEPS,
        u.ticks + 2 * NUM_STEPS <= u64::MAX,
    ensures
        press_required(play(u, n)).step == n + 1,
        press_required(play(u, n)).outcome() == if n + 1 == NUM_STEPS {
            Some(press_required(play(u, n)).seed_bits)
        } else {
            None
        },
        n + 1 < NUM_STEPS ==> press_required(play(u, n)).after(0).outcome() == None::<u64>,
{
    let v = play(u, n);
    lemma_play(u, n);
    lemma_key_button_fires(v.required_key());
    let p = press_required(v);
    if n + 1 < NUM_STEPS {
        lemma_after_wf(v, key_button_spec(v.required_key()));
        lemma_key_button_fires(p.required_key());
    }
}

/// The seed depends on the press timings only through the low four bits
/// of each: timings that agree there give the same seed.
pub proof fn lemma_seed_from_tick_nibbles(a: Seq<u64>, b: Seq<u64>)
    requires
        a.len() == b.len(),
        forall|i: int| 0 <= i < a.len() ==> #[trigger] a[i] % 16 == b[i] % 16,
    ensures
        pack_nibbles(a) == pack_nibbles(b),
    decreases a.len(),
{
    if a.len() > 0 {
        lemma_seed_from_tick_nibbles(a.drop_last(), b.drop_last());
        assert(a[a.len() - 1] % 16 == b[b.len() - 1] % 16);
    }
}

proof fn lemma_nibble_sum_drop_last(s: Seq<u64>, k: nat)
    requires
        0 < s.len(),
        k < s.len(),
    ensures
        nibble_sum(s, k) == 16 * nibble_sum(s.drop_last(), k),
    decreases k,
{
    if k > 0 {
        lemma_nibble_sum_drop_last(s, (k - 1) as nat);
        let a = s[k - 1] % 16;
        let p = pow16((s.len() - 1 - k) as nat);
        assert(pow16((s.len() - k) as nat) == 16 * p);
        assert(a * (16 * p) == 16 * (a * p)) by (nonlinear_arith);
    }
}

/// The gathered bits are the low four bits of the tick of each counted
/// press, the first press in the most significant place:
/// the sum over presses `i` of `(tick_i % 16) * 16^(presses after i)`.
pub proof fn lemma_seed_bits_closed_form(u: Unlock)
    requires
        u.wf(),
    ensures
        u.seed_bits == nibble_sum(u.match_ticks@, u.step as nat),
{
    lemma_pack_is_nibble_sum(u.match_ticks@);
}

proof fn lemma_pack_is_nibble_sum(s: Seq<u64>)
    ensures
        pack_nibbles(s) == nibble_sum(s, s.len()),
    decreases s.len(),
{
    if s.len() > 0 {
        lemma_pack_is_nibble_sum(s.drop_last());
        lemma_nibble_sum_drop_last(s, (s.len() - 1) as nat);
        assert(pow16(0) == 1);
    }
}

/// The state after the frames `frames`, in order.
pub open spec fn run(u: Unlock, frames: Seq<u8>) -> Unlock
    decreases frames.len(),
{
    if frames.len() == 0 {
        u
    } else {
        run(u, frames.drop_last()).after(frames.last())
    }
}

/// Equal states fed the same frames stay equal, so frame for frame they
/// report the same outcome: the same timings give the same seed.
pub proof fn lemma_same_frames_same_seed(a: Unlock, b: Unlock, frames: Seq<u8>)
    requires
        a == b,
    ensures
        forall|n: int| 0 <= n <= frames.len() ==> #[trigger] run(a, frames.take(n)) == run(b, frames.take(n))
            && run(a, frames.take(n)).outcome() == run(b, frames.take(n)).outcome(),
{
}

/// A frame that does not hold the required key's button changes neither
/// the step nor the gathered bits.
pub proof fn lemma_wrong_key_ignored(u: Unlock, gamepad: u8)
    requires
        !is_held(gamepad, key_button_spec(u.required_key())),
    ensures
        u.after(gamepad).step == u.step,
        u.after(gamepad).seed_bits == u.seed_bits,
{
}

/// No press counts while a button was held the frame before, so a second
/// button pressed while one is held never matches.
pub proof fn lemma_held_button_blocks(u: Unlock, gamepad: u8)
    requires
        u.prev_gamepad != 0,
    ensures
        u.after(gamepad).step == u.step,
        u.after(gamepad).seed_bits == u.seed_bits,
{
}

proof fn lemma_pack_bound(s: Seq<u64>)
    ensures
        0 <= pack_nibbles(s) < pow16(s.len()),
    decreases s.len(),
{
    if s.len() > 0 {
        lemma_pack_bound(s.drop_last());
    }
}

proof fn lemma_pow16_mono(a: nat, b: nat)
    requires
        a <= b,
    ensures
        1 <= pow16(a) <= pow16(b),
    decreases b,
{
    if a < b {
        lemma_pow16_mono(a, (b - 1) as nat);
    } else if a > 0 {
        lemma_pow16_mono((a - 1) as nat, (a - 1) as nat);
    }
}

} // verus!
