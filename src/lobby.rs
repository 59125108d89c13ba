//! The lobby phase: five distinct dictionary words and a secret code of
//! three distinct digits, drawn from a generator seeded once.

use vstd::prelude::*;

use crate::input::{BUTTON_1, BUTTON_2, Glyph, held, is_held};
use crate::random::{rng_below, rng_between, rng_from_seed};
use crate::screen::{DrawText, Piece, item, press_line_spec, push_press_line};

verus! {

/// How many words the dictionary holds.
pub const NUM_NOUNS: usize = 2485;

/// How many bytes each dictionary word takes.
pub const NUM_BYTES_PER_NOUN: usize = 16;

/// How many secret keywords the lobby shows beside the checksum word.
pub const NUM_KEYWORDS: usize = 4;

/// The checksum word and the keywords.
pub const NUM_WORDS: usize = 5;

/// How many digits the secret code has.
pub const NUM_DIGITS: usize = 3;

/// The largest digit of the secret code.
pub const MAX_DIGIT: u8 = 4;

/// The ASCII code of the character `0`.
pub const ASCII_ZERO: u8 = 48;

/// How many draws a rejection loop makes before it settles for the least
/// value still free. The fallback only guards against a generator stuck on
/// taken values.
pub const MAX_DRAWS: usize = 1024;

/// Whether `c` is the unset secret code.
pub open spec fn code_is_unset(c: Seq<u8>) -> bool {
    c =~= seq![0u8, 0u8, 0u8]
}

/// Whether `c` is a set secret code: three distinct digits in `1..=4`.
pub open spec fn code_is_set(c: Seq<u8>) -> bool {
    &&& c.len() == NUM_DIGITS
    &&& forall|i: int| 0 <= i < c.len() ==> 1 <= #[trigger] c[i] <= MAX_DIGIT
    &&& c.no_duplicates()
}

pub open spec fn keyword_line(i: int, word: usize) -> Seq<DrawText> {
    let y = (50 + 10 * i) as i32;
    seq![
        item(8, y, Piece::Char((49 + i) as u8)),
        item(16, y, Piece::Text(".")),
        item(32, y, Piece::Word(word)),
    ]
}

/// The numbered lines of the first `n` keywords.
pub open spec fn keyword_lines(words: Seq<usize>, n: nat) -> Seq<DrawText>
    decreases n,
{
    if n == 0 {
        seq![]
    } else {
        keyword_lines(words, (n - 1) as nat) + keyword_line(n - 1, words[n as int])
    }
}

pub open spec fn code_row(c: Seq<u8>) -> Seq<DrawText> {
    seq![
        item(112, 110, Piece::Char((48 + c[0]) as u8)),
        item(120, 110, Piece::Text("-")),
        item(128, 110, Piece::Char((48 + c[1]) as u8)),
        item(136, 110, Piece::Text("-")),
        item(144, 110, Piece::Char((48 + c[2]) as u8)),
    ]
}

pub struct Lobby {
    rng: fastrand::Rng,
    word_indices: [usize; NUM_WORDS],
    prev_gamepad: u8,
    is_revealed: bool,
    secret_code: [u8; NUM_DIGITS],
    seed: Ghost<u64>,
}

/// What a lobby holds, without its generator.
pub struct LobbyView {
    /// The checksum word's index, then the keywords' indices.
    pub word_indices: Seq<usize>,
    /// The gamepad bitmask of the previous frame.
    pub prev_gamepad: u8,
    /// Whether the secret code is shown.
    pub is_revealed: bool,
    /// The secret code: unset, or three distinct digits.
    pub secret_code: Seq<u8>,
    /// The seed that the generator started from.
    pub seed: u64,
}

impl View for Lobby {
    type V = LobbyView;

    closed spec fn view(&self) -> LobbyView {
        LobbyView {
            word_indices: self.word_indices@,
            prev_gamepad: self.prev_gamepad,
            is_revealed: self.is_revealed,
            secret_code: self.secret_code@,
            seed: self.seed@,
        }
    }
}

impl LobbyView {
    pub open spec fn wf(&self) -> bool {
        &&& self.word_indices.len() == NUM_WORDS
        &&& forall|i: int| 0 <= i < NUM_WORDS ==> #[trigger] self.word_indices[i] < NUM_NOUNS
        &&& self.word_indices.no_duplicates()
        &&& code_is_unset(self.secret_code) || code_is_set(self.secret_code)
    }

    /// Whether a frame with bitmask `gamepad` presses `button` afresh: no
    /// button was held the frame before.
    pub open spec fn fresh_press(&self, gamepad: u8, button: u8) -> bool {
        self.prev_gamepad == 0 && is_held(gamepad, button)
    }

    /// Whether `next` is a state that one frame with bitmask `gamepad` can
    /// lead to from this one. The secondary button sets or clears the code
    /// while it is shown; the primary button shows or hides it.
    pub open spec fn leads_to(&self, next: LobbyView, gamepad: u8) -> bool {
        &&& next.word_indices == self.word_indices
        &&& next.seed == self.seed
        &&& next.prev_gamepad == gamepad
        &&& next.is_revealed == if self.fresh_press(gamepad, BUTTON_1) {
            !self.is_revealed
        } else {
            self.is_revealed
        }
        &&& if self.fresh_press(gamepad, BUTTON_2) && self.is_revealed {
            if code_is_unset(self.secret_code) {
                code_is_set(next.secret_code)
            } else {
                code_is_unset(next.secret_code)
            }
        } else {
            next.secret_code == self.secret_code
        }
    }

    /// What the lobby shows.
    pub open spec fn screen(&self) -> Seq<DrawText> {
        let w = self.word_indices;
        let head = seq![
            item(8, 8, Piece::Text("Public checksum:")),
            item(8, 18, Piece::Word(w[0])),
            item(8, 40, Piece::Text("Secret keywords:")),
        ];
        let code_title = seq![item(8, 110, Piece::Text("Secret code:"))];
        let tail = if self.is_revealed {
            code_row(self.secret_code) + press_line_spec(
                8,
                136,
                Glyph::Secondary,
                if code_is_unset(self.secret_code) { " to set." } else { " to clear." },
            ) + press_line_spec(8, 144, Glyph::Primary, " to hide.")
        } else {
            seq![item(112, 110, Piece::Text("???"))] + press_line_spec(8, 144, Glyph::Primary, " to reveal.")
        };
        head + keyword_lines(w, NUM_KEYWORDS as nat) + code_title + tail
    }
}

impl Lobby {
    /// A lobby whose words are drawn from a generator seeded with `seed`,
    /// with the code unset and hidden.
    pub fn from_seed(seed: u64) -> (r: Lobby)
        ensures
            r@.wf(),
            r@.prev_gamepad == 0,
            !r@.is_revealed,
            code_is_unset(r@.secret_code),
            r@.seed == seed,
    {
        let mut rng = rng_from_seed(seed);
        let mut taken: Vec<usize> = Vec::new();
        while taken.len() < NUM_WORDS
            invariant
                taken@.len() <= NUM_WORDS,
                forall|i: int| 0 <= i < taken@.len() ==> #[trigger] taken@[i] < NUM_NOUNS,
                taken@.no_duplicates(),
            decreases NUM_WORDS - taken@.len(),
        {
            let w = draw_unused_index(&mut rng, &taken);
            proof {
                lemma_push_distinct(taken@, w);
            }
            taken.push(w);
        }
        let word_indices: [usize; NUM_WORDS] = [taken[0], taken[1], taken[2], taken[3], taken[4]];
        assert(word_indices@ =~= taken@);
        Lobby {
            rng,
            word_indices,
            prev_gamepad: 0,
            is_revealed: false,
            secret_code: [0, 0, 0],
            seed: Ghost(seed),
        }
    }

    /// Runs one frame with gamepad bitmask `gamepad`.
    pub fn update(&mut self, gamepad: u8)
        requires
            old(self)@.wf(),
        ensures
            old(self)@.leads_to(final(self)@, gamepad),
            final(self)@.wf(),
    {
        if self.prev_gamepad == 0 {
            if held(gamepad, BUTTON_2) && self.is_revealed {
                if self.secret_code[0] == 0 && self.secret_code[1] == 0 && self.secret_code[2] == 0 {
                    self.secret_code = draw_code(&mut self.rng);
                } else {
                    self.secret_code = [0, 0, 0];
                }
            }
            if held(gamepad, BUTTON_1) {
                self.is_revealed = !self.is_revealed;
            }
        }
        self.prev_gamepad = gamepad;
    }

    /// The words, the code row and the instructions.
    pub fn draw(&self) -> (r: Vec<DrawText>)
        requires
            self@.wf(),
        ensures
            r@ == self@.screen(),
    {
        let w = self.word_indices;
        let mut out: Vec<DrawText> = vec![
            DrawText { x: 8, y: 8, piece: Piece::Text("Public checksum:") },
            DrawText { x: 8, y: 18, piece: Piece::Word(w[0]) },
            DrawText { x: 8, y: 40, piece: Piece::Text("Secret keywords:") },
        ];
        let ghost head = out@;
        let mut i: usize = 0;
        while i < NUM_KEYWORDS
            invariant
                i <= NUM_KEYWORDS,
                w@ == self@.word_indices,
                out@ == head + keyword_lines(w@, i as nat),
            decreases NUM_KEYWORDS - i,
        {
            let y = 50 + 10 * (i as i32);
            let ghost before = out@;
            out.push(DrawText { x: 8, y, piece: Piece::Char(ASCII_ZERO + 1 + i as u8) });
            out.push(DrawText { x: 16, y, piece: Piece::Text(".") });
            out.push(DrawText { x: 32, y, piece: Piece::Word(w[1 + i]) });
            proof {
                assert(out@ =~= before + keyword_line(i as int, w@[i + 1]));
                assert(head + keyword_lines(w@, (i + 1) as nat) =~= head + keyword_lines(w@, i as nat)
                    + keyword_line(i as int, w@[i + 1]));
            }
            i = i + 1;
        }
        out.push(DrawText { x: 8, y: 110, piece: Piece::Text("Secret code:") });
        let c = self.secret_code;
        if self.is_revealed {
            out.push(DrawText { x: 112, y: 110, piece: Piece::Char(ASCII_ZERO + c[0]) });
            out.push(DrawText { x: 120, y: 110, piece: Piece::Text("-") });
            out.push(DrawText { x: 128, y: 110, piece: Piece::Char(ASCII_ZERO + c[1]) });
            out.push(DrawText { x: 136, y: 110, piece: Piece::Text("-") });
            out.push(DrawText { x: 144, y: 110, piece: Piece::Char(ASCII_ZERO + c[2]) });
            if c[0] == 0 && c[1] == 0 && c[2] == 0 {
                push_press_line(&mut out, 8, 136, Glyph::Secondary, " to set.");
            } else {
                push_press_line(&mut out, 8, 136, Glyph::Secondary, " to clear.");
            }
            push_press_line(&mut out, 8, 144, Glyph::Primary, " to hide.");
        } else {
            out.push(DrawText { x: 112, y: 110, piece: Piece::Text("???") });
            push_press_line(&mut out, 8, 144, Glyph::Primary, " to reveal.");
        }
        assert(out@ =~= self@.screen());
        out
    }

    /// The index of the checksum word (`0`) or of a keyword (`1` to `4`).
    pub fn word_index(&self, number: usize) -> (r: usize)
        requires
            number < NUM_WORDS,
        ensures
            r == self@.word_indices[number as int],
    {
        self.word_indices[number]
    }

    pub fn word_indices(&self) -> (r: [usize; NUM_WORDS])
        ensures
            r@ == self@.word_indices,
    {
        self.word_indices
    }

    pub fn is_revealed(&self) -> (r: bool)
        ensures
            r == self@.is_revealed,
    {
        self.is_revealed
    }

    pub fn secret_code(&self) -> (r: [u8; NUM_DIGITS])
        ensures
            r@ == self@.secret_code,
    {
        self.secret_code
    }
}

/// Three distinct digits in `1..=4`, by rejection sampling.
fn draw_code(rng: &mut fastrand::Rng) -> (r: [u8; NUM_DIGITS])
    ensures
        code_is_set(r@),
{
    let mut taken: Vec<usize> = Vec::new();
    while taken.len() < NUM_DIGITS
        invariant
            taken@.len() <= NUM_DIGITS,
            forall|i: int| 0 <= i < taken@.len() ==> 1 <= #[trigger] taken@[i] <= MAX_DIGIT,
            taken@.no_duplicates(),
        decreases NUM_DIGITS - taken@.len(),
    {
        let d = draw_unused_digit(rng, &taken);
        proof {
            lemma_push_distinct(taken@, d);
        }
        taken.push(d);
    }
    let code: [u8; NUM_DIGITS] = [taken[0] as u8, taken[1] as u8, taken[2] as u8];
    assert(code@ =~= taken@.map_values(|d: usize| d as u8));
    assert(code@.no_duplicates()) by {
        assert forall|i: int, j: int| 0 <= i < 3 && 0 <= j < 3 && i != j implies code@[i] != code@[j] by {
            assert(taken@[i] != taken@[j]);
        }
    }
    code
}

/// A digit in `1..=4` that `taken` does not hold: the first draw that
/// `accept_draw` keeps, or, after `MAX_DRAWS` rejected draws, the least free
/// digit.
fn draw_unused_digit(rng: &mut fastrand::Rng, taken: &Vec<usize>) -> (r: usize)
    requires
        taken@.len() < NUM_DIGITS,
    ensures
        1 <= r <= MAX_DIGIT,
        !taken@.contains(r),
{
    let mut attempt: usize = 0;
    while attempt < MAX_DRAWS
        invariant
            attempt <= MAX_DRAWS,
        decreases MAX_DRAWS - attempt,
    {
        let c = rng_between(rng, 1, MAX_DIGIT) as usize;
        if let Some(d) = accept_draw(taken, c) {
            return d;
        }
        attempt = attempt + 1;
    }
    first_unused(taken, 1)
}

/// Pressing the primary button, releasing it, and pressing it again shows
/// or hides the code and then puts it back as it was.
pub proof fn lemma_reveal_twice(a: LobbyView, b: LobbyView, c: LobbyView, d: LobbyView)
    requires
        a.prev_gamepad == 0,
        a.leads_to(b, BUTTON_1),
        b.leads_to(c, 0),
        c.leads_to(d, BUTTON_1),
    ensures
        d.is_revealed == a.is_revealed,
{
    assert(BUTTON_1 & BUTTON_1 != 0) by (bit_vector);
    assert(0u8 & BUTTON_1 == 0) by (bit_vector);
}

/// While the code is hidden, no frame changes it.
pub proof fn lemma_hidden_code_kept(a: LobbyView, b: LobbyView, gamepad: u8)
    requires
        !a.is_revealed,
        a.leads_to(b, gamepad),
    ensures
        b.secret_code == a.secret_code,
{
}

/// A fresh press of the secondary button while the code is shown sets an
/// unset code to three distinct digits in `1..=4`, and clears a set one.
pub proof fn lemma_set_and_clear(a: LobbyView, b: LobbyView, gamepad: u8)
    requires
        a.wf(),
        a.is_revealed,
        a.fresh_press(gamepad, BUTTON_2),
        a.leads_to(b, gamepad),
    ensures
        code_is_unset(a.secret_code) ==> {
            &&& b.secret_code.len() == NUM_DIGITS
            &&& forall|i: int| 0 <= i < NUM_DIGITS ==> 1 <= #[trigger] b.secret_code[i] <= MAX_DIGIT
            &&& forall|i: int, j: int|
                0 <= i < j < NUM_DIGITS ==> #[trigger] b.secret_code[i] != #[trigger] b.secret_code[j]
        },
        !code_is_unset(a.secret_code) ==> b.secret_code == seq![0u8, 0u8, 0u8],
{
}

/// The position of `x` in `v`, if it is there.
fn find(v: &Vec<usize>, x: usize) -> (r: Option<usize>)
    ensures
        match r {
            Some(j) => j < v@.len() && v@[j as int] == x,
            None => !v@.contains(x),
        },
{
    let mut j: usize = 0;
    while j < v.len()
        invariant
            j <= v@.len(),
            forall|k: int| 0 <= k < j ==> v@[k] != x,
        decreases v@.len() - j,
    {
        if v[j] == x {
            return Some(j);
        }
        j = j + 1;
    }
    None
}

proof fn lemma_push_distinct(s: Seq<usize>, x: usize)
    requires
        s.no_duplicates(),
        !s.contains(x),
    ensures
        s.push(x).no_duplicates(),
{
    assert forall|i: int, j: int| 0 <= i < s.push(x).len() && 0 <= j < s.push(x).len() && i != j
        implies s.push(x)[i] != s.push(x)[j] by {
        if i == s.len() as int {
            assert(s[j] == s.push(x)[j]);
        } else if j == s.len() as int {
            assert(s[i] == s.push(x)[i]);
        }
    }
}

/// The least value from `lo` on that `taken` does not hold.
fn first_unused(taken: &Vec<usize>, lo: usize) -> (r: usize)
    requires
        lo + taken@.len() < usize::MAX,
    ensures
        lo <= r <= lo + taken@.len(),
        !taken@.contains(r),
{
    let ghost ts = taken@.map_values(|x: usize| x as int);
    let mut c: usize = lo;
    while c <= lo + taken.len()
        invariant
            lo <= c <= lo + taken@.len() + 1,
            lo + taken@.len() < usize::MAX,
            ts == taken@.map_values(|x: usize| x as int),
            forall|i: int| lo <= i < c ==> #[trigger] ts.contains(i),
        decreases lo + taken@.len() + 1 - c,
    {
        match find(taken, c) {
            None => {
                return c;
            },
            Some(j) => {
                assert(ts[j as int] == c as int);
            },
        }
        c = c + 1;
    }
    proof {
        let range = vstd::set_lib::set_int_range(lo as int, c as int);
        vstd::set_lib::lemma_int_range(lo as int, c as int);
        assert(range.subset_of(ts.to_set()));
        ts.lemma_cardinality_of_set();
        vstd::set_lib::lemma_len_subset(range, ts.to_set());
    }
    lo
}

/// The acceptance test of rejection sampling: a drawn value `d` is kept
/// exactly when `taken` does not hold it yet.
pub fn accept_draw(taken: &Vec<usize>, d: usize) -> (r: Option<usize>)
    ensures
        r == if taken@.contains(d) {
            None
        } else {
            Some(d)
        },
{
    match find(taken, d) {
        Some(_) => None,
        None => Some(d),
    }
}

/// A dictionary index that `taken` does not hold: the first draw that
/// `accept_draw` keeps, or, after `MAX_DRAWS` rejected draws, the least free
/// index.
fn draw_unused_index(rng: &mut fastrand::Rng, taken: &Vec<usize>) -> (r: usize)
    requires
        taken@.len() < NUM_WORDS,
    ensures
        r < NUM_NOUNS,
        !taken@.contains(r),
{
    let mut attempt: usize = 0;
    while attempt < MAX_DRAWS
        invariant
            attempt <= MAX_DRAWS,
        decreases MAX_DRAWS - attempt,
    {
        let c = rng_below(rng, NUM_NOUNS);
        if let Some(d) = accept_draw(taken, c) {
            return d;
        }
        attempt = attempt + 1;
    }
    first_unused(taken, 0)
}

} // verus!
