//! The linear congruential generator behind every deterministic weight
//! initialisation.
//!
//! A generator is a 64-bit state. One step multiplies by
//! [`MULTIPLIER`] and adds [`INCREMENT`], wrapping around; the draw taken from
//! a state is fifteen of its bits, a number below [`DRAW_RANGE`]. A numeric
//! backend maps a draw `d` to the unit interval as `d / 32768`.

use vstd::prelude::*;

verus! {

/// Multiplier of the generator.
pub const MULTIPLIER: u64 = 1103515245;

/// Increment of the generator.
pub const INCREMENT: u64 = 12345;

/// Divisor that discards the low bits of a state.
pub const DISCARD: u64 = 65536;

/// Draws are below this bound.
pub const DRAW_RANGE: u64 = 32768;

/// The state that follows `state`.
pub open spec fn step(state: u64) -> u64 {
    state.wrapping_mul(MULTIPLIER).wrapping_add(INCREMENT)
}

/// The state reached from `seed` after `n` steps.
pub open spec fn state_after(seed: u64, n: nat) -> u64
    decreases n,
{
    if n == 0 {
        seed
    } else {
        step(state_after(seed, (n - 1) as nat))
    }
}

/// The draw that a state yields.
pub open spec fn draw_of(state: u64) -> u16 {
    ((state / DISCARD) % DRAW_RANGE) as u16
}

/// The `n`-th draw of a generator started at `seed`, counting from 1.
pub open spec fn nth_draw(seed: u64, n: nat) -> u16 {
    draw_of(state_after(seed, n))
}

/// A draw instantiates a connection of a sparse matrix when, mapped to the
/// unit interval, it lies below one in `one_in`: `draw / 32768 < 1 / one_in`.
pub open spec fn connects(draw: u16, one_in: u16) -> bool {
    draw * one_in < DRAW_RANGE
}

/// `m` has `rows` rows of `cols` entries each.
pub open spec fn has_shape<T>(m: Seq<Vec<T>>, rows: nat, cols: nat) -> bool {
    &&& m.len() == rows
    &&& forall|i: int| 0 <= i < rows ==> (#[trigger] m[i])@.len() == cols
}

/// `m` holds, row by row, the draws `first + 1`, `first + 2`, ... of a
/// generator started at `seed`.
#[verifier::opaque]
pub open spec fn holds_draws(m: Seq<Vec<u16>>, seed: u64, first: nat, rows: nat, cols: nat) -> bool {
    &&& has_shape(m, rows, cols)
    &&& forall|i: int, j: int|
        0 <= i < rows && 0 <= j < cols ==> #[trigger] m[i]@[j] == nth_draw(
            seed,
            (first + i * cols + j + 1) as nat,
        )
}

/// Stepping `a` times and then `b` times is stepping `a + b` times.
pub proof fn lemma_state_after_add(seed: u64, a: nat, b: nat)
    ensures
        state_after(state_after(seed, a), b) == state_after(seed, a + b),
    decreases b,
{
    if b > 0 {
        lemma_state_after_add(seed, a, (b - 1) as nat);
        assert((a + b - 1) as nat == a + (b - 1) as nat);
    }
}

/// The draws of a generator that has already made `first` steps are the
/// draws of the generator started at `seed`, numbered from `first` on.
pub proof fn lemma_draws_continue(m: Seq<Vec<u16>>, seed: u64, first: nat, rows: nat, cols: nat)
    requires
        holds_draws(m, state_after(seed, first), 0, rows, cols),
    ensures
        holds_draws(m, seed, first, rows, cols),
{
    reveal(holds_draws);
    assert forall|i: int, j: int| 0 <= i < rows && 0 <= j < cols implies #[trigger] m[i]@[j]
        == nth_draw(seed, (first + i * cols + j + 1) as nat) by {
        assert(0 <= i * cols) by (nonlinear_arith)
            requires
                0 <= i,
                0 <= cols,
        ;
        let k = (0 + i * cols + j + 1) as nat;
        lemma_state_after_add(seed, first, k);
        assert(first + k == (first + i * cols + j + 1) as nat);
    }
}

/// The draws of a matrix are determined by the seed, the position of the
/// matrix in the stream and its shape: two matrices that hold the same draws
/// are equal row by row.
pub proof fn lemma_draws_unique(
    a: Seq<Vec<u16>>,
    b: Seq<Vec<u16>>,
    seed: u64,
    first: nat,
    rows: nat,
    cols: nat,
)
    requires
        holds_draws(a, seed, first, rows, cols),
        holds_draws(b, seed, first, rows, cols),
    ensures
        a.len() == b.len(),
        forall|i: int| 0 <= i < a.len() ==> (#[trigger] a[i])@ == b[i]@,
{
    reveal(holds_draws);
    assert forall|i: int| 0 <= i < a.len() implies (#[trigger] a[i])@ == b[i]@ by {
        assert forall|j: int| 0 <= j < cols implies a[i]@[j] == b[i]@[j] by {
            assert(a[i]@[j] == nth_draw(seed, (first + i * cols + j + 1) as nat));
            assert(b[i]@[j] == nth_draw(seed, (first + i * cols + j + 1) as nat));
        }
        assert(a[i]@ =~= b[i]@);
    }
}

/// A linear congruential generator.
#[derive(Clone, Copy, Debug, PartialEq, Eq, Structural)]
pub struct Lcg {
    /// Current state.
    pub state: u64,
}

impl Lcg {
    /// A generator that starts at `seed`.
    pub fn new(seed: u64) -> (g: Lcg)
        ensures
            g.state == seed,
    {
        Lcg { state: seed }
    }

    /// Advances the generator by one step and returns the draw of the new
    /// state.
    pub fn next_draw(&mut self) -> (d: u16)
        ensures
            final(self).state == step(old(self).state),
            d == draw_of(final(self).state),
            d < DRAW_RANGE,
    {
        self.state = self.state.wrapping_mul(MULTIPLIER).wrapping_add(INCREMENT);
        ((self.state / DISCARD) % DRAW_RANGE) as u16
    }

    /// Tests whether a draw instantiates a connection at a density of one in
    /// `one_in`.
    pub fn is_connection(draw: u16, one_in: u16) -> (b: bool)
        ensures
            b == connects(draw, one_in),
    {
        assert(draw * one_in <= 0xFFFF * 0xFFFF) by (nonlinear_arith)
            requires
                0 <= draw <= 0xFFFF,
                0 <= one_in <= 0xFFFF,
        ;
        (draw as u64) * (one_in as u64) < DRAW_RANGE
    }

    /// Fills a matrix of `rows` by `cols` draws, row by row.
    pub fn draw_matrix(&mut self, rows: usize, cols: usize) -> (m: Vec<Vec<u16>>)
        ensures
            holds_draws(m@, old(self).state, 0, rows as nat, cols as nat),
            final(self).state == state_after(old(self).state, (rows * cols) as nat),
    {
        let ghost seed = self.state;
        let mut m: Vec<Vec<u16>> = Vec::new();
        let mut i: usize = 0;
        proof {
            reveal(holds_draws);
        }
        while i < rows
            invariant
                i <= rows,
                holds_draws(m@, seed, 0, i as nat, cols as nat),
                self.state == state_after(seed, (i * cols) as nat),
            decreases rows - i,
        {
            let mut row: Vec<u16> = Vec::new();
            let mut j: usize = 0;
            while j < cols
                invariant
                    j <= cols,
                    row@.len() == j,
                    forall|k: int|
                        0 <= k < j ==> #[trigger] row@[k] == nth_draw(
                            seed,
                            (i * cols + k + 1) as nat,
                        ),
                    self.state == state_after(seed, (i * cols + j) as nat),
                decreases cols - j,
            {
                let d = self.next_draw();
                row.push(d);
                j += 1;
            }
            let ghost before = m@;
            m.push(row);
            proof {
                reveal(holds_draws);
                assert((i + 1) * cols == i * cols + cols) by (nonlinear_arith);
                assert forall|a: int, b: int| 0 <= a < i + 1 && 0 <= b < cols implies #[trigger] m@[a]@[b]
                    == nth_draw(seed, (0 + a * cols + b + 1) as nat) by {
                    if a < i {
                        assert(m@[a] == before[a]);
                    }
                }
            }
            i += 1;
        }
        m
    }
}

} // verus!
