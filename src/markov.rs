use vstd::prelude::*;
use vstd::wrapping::u64_specs;
use crate::action::{TransitionAction, ACTION_COUNT};
use crate::error::Error;
use crate::model::{basic_successor, Transition};

verus! {

/// Number of cells of a transition-probability matrix: `ACTION_COUNT` squared.
pub const DISTR_MATRIX_SIZE: usize = ACTION_COUNT * ACTION_COUNT;

/// The fixed-point weight that stands for probability one. A matrix cell
/// holds a probability in units of `1 / PROBABILITY_ONE`.
pub const PROBABILITY_ONE: u64 = 0x1_0000_0000;

/// How far a row's sum may stray from `PROBABILITY_ONE`, to absorb the
/// rounding of probabilities into fixed point.
pub const ROW_SUM_TOLERANCE: u64 = 0x1000;

/// The largest cell a valid row can hold: a row of one non-zero cell may
/// exceed probability one by the tolerance.
pub const MAX_CELL: u64 = PROBABILITY_ONE + ROW_SUM_TOLERANCE;

/// Increment of the generator's state on each draw.
pub const RNG_GAMMA: u64 = 0x9E37_79B9_7F4A_7C15;

/// Row `r` of `m` sums to probability one, within `ROW_SUM_TOLERANCE`.
pub open spec fn row_sums_to_one(m: Seq<u64>, r: int) -> bool {
    PROBABILITY_ONE - ROW_SUM_TOLERANCE <= row_prefix(m, r, ACTION_COUNT as int)
        <= PROBABILITY_ONE + ROW_SUM_TOLERANCE
}

/// A matrix the Markov strategy accepts: `ACTION_COUNT` rows of
/// `ACTION_COUNT` cells, row-major, each row summing to probability one
/// within the tolerance. (Cells are unsigned, so never negative.)
pub open spec fn valid_matrix(m: Seq<u64>) -> bool {
    &&& cells_valid(m)
    &&& forall|r: int| 0 <= r < ACTION_COUNT ==> row_sums_to_one(m, r)
}

/// The matrix has the right size and no cell above `MAX_CELL`, which every
/// row within the tolerance meets.
pub open spec fn cells_valid(m: Seq<u64>) -> bool {
    &&& m.len() == DISTR_MATRIX_SIZE
    &&& forall|i: int| 0 <= i < m.len() ==> m[i] <= MAX_CELL
}

/// Sum of the first `k` cells of row `r`.
pub open spec fn row_prefix(m: Seq<u64>, r: int, k: int) -> int
    decreases k,
{
    if k <= 0 {
        0
    } else {
        row_prefix(m, r, k - 1) + m[ACTION_COUNT * r + k - 1]
    }
}

/// Roulette-wheel selection from column `c` on: the first column whose
/// running sum exceeds `draw`, and the last column if none does.
pub open spec fn select_from(m: Seq<u64>, r: int, draw: int, c: int) -> int
    decreases ACTION_COUNT - c,
{
    if c >= ACTION_COUNT - 1 {
        ACTION_COUNT - 1
    } else if row_prefix(m, r, c + 1) > draw {
        c
    } else {
        select_from(m, r, draw, c + 1)
    }
}

/// The column that a draw in `[0, PROBABILITY_ONE)` selects in row `r`.
pub open spec fn spec_select(m: Seq<u64>, r: int, draw: int) -> int {
    select_from(m, r, draw, 0)
}

/// The generator's state after one draw.
pub open spec fn rng_advance(s: u64) -> u64 {
    u64_specs::wrapping_add(s, RNG_GAMMA)
}

/// The output that the generator derives from its advanced state.
pub open spec fn rng_mix(s: u64) -> u64 {
    let z1 = u64_specs::wrapping_mul(s ^ (s >> 30u64), 0xBF58_476D_1CE4_E5B9u64);
    let z2 = u64_specs::wrapping_mul(z1 ^ (z1 >> 27u64), 0x94D0_49BB_1331_11EBu64);
    z2 ^ (z2 >> 31u64)
}

/// A uniform draw in `[0, PROBABILITY_ONE)` taken from an output.
pub open spec fn draw_of(x: u64) -> int {
    (x >> 32u64) as int
}

/// Sum of the four 16-bit lanes of an output.
pub open spec fn lane_sum(x: u64) -> int {
    (x & 0xffffu64) as int + ((x >> 16u64) & 0xffffu64) as int + ((x >> 32u64) & 0xffffu64) as int
        + (x >> 48u64) as int
}

/// A delay in milliseconds drawn from an approximately normal distribution
/// of the given mean and standard deviation: `total` is the sum of twelve
/// uniform 16-bit lanes (an Irwin-Hall variate scaled by 65536), centred by
/// subtracting six. Negative delays become zero; delays past `u64::MAX`
/// saturate.
pub open spec fn normal_delay(mean: i64, std_dev: u64, total: int) -> u64 {
    let num = mean * 65536 + std_dev * (total - 6 * 65536);
    if num <= 0 {
        0
    } else if num / 65536 > u64::MAX {
        u64::MAX
    } else {
        (num / 65536) as u64
    }
}

/// One step of the Markov strategy from generator state `rng` and current
/// action `current`: the generator state afterwards and the transition.
pub open spec fn markov_step(
    m: Seq<u64>,
    delay: Option<(i64, u64)>,
    rng: u64,
    current: TransitionAction,
) -> (u64, Transition) {
    let s1 = rng_advance(rng);
    let col = spec_select(m, current.spec_ordinal(), draw_of(rng_mix(s1)));
    let action = TransitionAction::spec_from_ordinal(col).unwrap();
    match delay {
        None => (s1, Transition { delay: None, action }),
        Some((mean, std_dev)) => {
            let s2 = rng_advance(s1);
            let s3 = rng_advance(s2);
            let s4 = rng_advance(s3);
            let total = lane_sum(rng_mix(s2)) + lane_sum(rng_mix(s3)) + lane_sum(rng_mix(s4));
            (s4, Transition { delay: Some(normal_delay(mean, std_dev, total)), action })
        },
    }
}

/// The first `n` transitions sampled from generator state `rng` and current
/// action `current`.
pub open spec fn markov_trace(
    m: Seq<u64>,
    delay: Option<(i64, u64)>,
    rng: u64,
    current: TransitionAction,
    n: nat,
) -> Seq<Transition>
    decreases n,
{
    if n == 0 {
        Seq::empty()
    } else {
        let (rng2, t) = markov_step(m, delay, rng, current);
        seq![t] + markov_trace(m, delay, rng2, t.action, (n - 1) as nat)
    }
}

/// `after` is `before` advanced by one step that produced `t`.
pub open spec fn markov_step_ok(before: ActorMarkov, after: ActorMarkov, t: Transition) -> bool {
    &&& after.wf()
    &&& after.matrix() == before.matrix()
    &&& after.delay_params() == before.delay_params()
    &&& (after.rng(), t) == markov_step(
        before.matrix(),
        before.delay_params(),
        before.rng(),
        before.current(),
    )
    &&& after.current() == t.action
}

/// Advances the generator and returns its next output.
fn rng_next(state: &mut u64) -> (out: u64)
    ensures
        *final(state) == rng_advance(*old(state)),
        out == rng_mix(*final(state)),
{
    *state = state.wrapping_add(RNG_GAMMA);
    let s = *state;
    let z1 = (s ^ (s >> 30u64)).wrapping_mul(0xBF58_476D_1CE4_E5B9u64);
    let z2 = (z1 ^ (z1 >> 27u64)).wrapping_mul(0x94D0_49BB_1331_11EBu64);
    z2 ^ (z2 >> 31u64)
}

/// Sum of row `row`.
fn row_sum(matrix: &Vec<u64>, row: usize) -> (s: u64)
    requires
        cells_valid(matrix@),
        row < ACTION_COUNT,
    ensures
        s == row_prefix(matrix@, row as int, ACTION_COUNT as int),
{
    let mut acc: u64 = 0;
    let mut c: usize = 0;
    while c < ACTION_COUNT
        invariant
            c <= ACTION_COUNT,
            cells_valid(matrix@),
            row < ACTION_COUNT,
            MAX_CELL == PROBABILITY_ONE + ROW_SUM_TOLERANCE,
            acc == row_prefix(matrix@, row as int, c as int),
            acc <= c * 0x1_0000_1000,
        decreases ACTION_COUNT - c,
    {
        acc = acc + matrix[ACTION_COUNT * row + c];
        c = c + 1;
    }
    acc
}

/// The column of row `row` that `draw` selects by roulette-wheel selection.
pub fn select_column(matrix: &Vec<u64>, row: usize, draw: u64) -> (c: usize)
    requires
        cells_valid(matrix@),
        row < ACTION_COUNT,
    ensures
        c == spec_select(matrix@, row as int, draw as int),
        c < ACTION_COUNT,
{
    let mut acc: u64 = 0;
    let mut c: usize = 0;
    while c < ACTION_COUNT - 1
        invariant
            c <= ACTION_COUNT - 1,
            cells_valid(matrix@),
            row < ACTION_COUNT,
            MAX_CELL == PROBABILITY_ONE + ROW_SUM_TOLERANCE,
            acc == row_prefix(matrix@, row as int, c as int),
            acc <= c * 0x1_0000_1000,
            select_from(matrix@, row as int, draw as int, c as int) == spec_select(
                matrix@,
                row as int,
                draw as int,
            ),
        decreases ACTION_COUNT - 1 - c,
    {
        acc = acc + matrix[ACTION_COUNT * row + c];
        if acc > draw {
            return c;
        }
        c = c + 1;
    }
    c
}

/// Sum of the four 16-bit lanes of `x`.
fn lanes(x: u64) -> (r: u64)
    ensures
        r == lane_sum(x),
        r <= 4 * 0xffff,
{
    assert((x & 0xffffu64) <= 0xffff && ((x >> 16u64) & 0xffffu64) <= 0xffff && ((x >> 32u64)
        & 0xffffu64) <= 0xffff && (x >> 48u64) <= 0xffff) by (bit_vector);
    (x & 0xffffu64) + ((x >> 16u64) & 0xffffu64) + ((x >> 32u64) & 0xffffu64) + (x >> 48u64)
}

/// The delay that `normal_delay` gives, computed without overflow.
pub fn scaled_normal_delay(mean: i64, std_dev: u64, total: u64) -> (r: u64)
    requires
        total <= 12 * 0xffff,
    ensures
        r == normal_delay(mean, std_dev, total as int),
{
    let z: i128 = total as i128 - 6 * 65536;
    assert(-393216 <= z <= 393216);
    proof {
        let sd = std_dev as int;
        assert(-393216 * sd <= sd * z <= 393216 * sd) by (nonlinear_arith)
            requires
                0 <= sd,
                -393216 <= z <= 393216,
        ;
    }
    let num: i128 = mean as i128 * 65536 + std_dev as i128 * z;
    if num <= 0 {
        0
    } else {
        let q: i128 = num / 65536;
        if q > u64::MAX as i128 {
            u64::MAX
        } else {
            q as u64
        }
    }
}

/// The stochastic strategy: samples each next action from the current
/// action's row of a transition-probability matrix, with a private
/// generator, and optionally an approximately normal pause before it.
pub struct ActorMarkov {
    matrix: Vec<u64>,
    rng: u64,
    current: TransitionAction,
    delay: Option<(i64, u64)>,
}

impl ActorMarkov {
    /// The transition-probability matrix, row-major.
    pub closed spec fn matrix(&self) -> Seq<u64> {
        self.matrix@
    }

    /// The generator's state.
    pub closed spec fn rng(&self) -> u64 {
        self.rng
    }

    /// The action the actor last moved to.
    pub closed spec fn current(&self) -> TransitionAction {
        self.current
    }

    /// Mean and standard deviation of the pause, in milliseconds, if any.
    pub closed spec fn delay_params(&self) -> Option<(i64, u64)> {
        self.delay
    }

    /// The actor's invariant: its matrix is valid.
    pub open spec fn wf(&self) -> bool {
        valid_matrix(self.matrix())
    }

    /// A Markov actor starting at `Login`, with the generator seeded with
    /// `seed`. Fails with `ActorConstruction` unless the matrix is valid:
    /// the wrong size, or a row that does not sum to probability one within
    /// the tolerance, is refused.
    pub fn new(distributions_matrix: &Vec<u64>, seed: u64, delay: Option<(i64, u64)>) -> (r: Result<
        ActorMarkov,
        Error,
    >)
        ensures
            r is Ok <==> valid_matrix(distributions_matrix@),
            r is Err ==> r == Err::<ActorMarkov, Error>(Error::ActorConstruction),
            r matches Ok(a) ==> {
                &&& a.wf()
                &&& a.matrix() == distributions_matrix@
                &&& a.rng() == seed
                &&& a.current() == TransitionAction::Login
                &&& a.delay_params() == delay
            },
    {
        if distributions_matrix.len() != DISTR_MATRIX_SIZE {
            return Err(Error::ActorConstruction);
        }
        let mut i: usize = 0;
        while i < DISTR_MATRIX_SIZE
            invariant
                i <= DISTR_MATRIX_SIZE,
                distributions_matrix@.len() == DISTR_MATRIX_SIZE,
                forall|j: int| 0 <= j < i ==> distributions_matrix@[j] <= MAX_CELL,
            decreases DISTR_MATRIX_SIZE - i,
        {
            if distributions_matrix[i] > MAX_CELL {
                proof {
                    lemma_row_prefix_bounds_cell(distributions_matrix@, i as int);
                }
                return Err(Error::ActorConstruction);
            }
            i = i + 1;
        }
        let mut r: usize = 0;
        while r < ACTION_COUNT
            invariant
                r <= ACTION_COUNT,
                cells_valid(distributions_matrix@),
                forall|q: int| 0 <= q < r ==> row_sums_to_one(distributions_matrix@, q),
            decreases ACTION_COUNT - r,
        {
            let sum = row_sum(distributions_matrix, r);
            if sum < PROBABILITY_ONE - ROW_SUM_TOLERANCE || sum > PROBABILITY_ONE + ROW_SUM_TOLERANCE {
                assert(!row_sums_to_one(distributions_matrix@, r as int));
                return Err(Error::ActorConstruction);
            }
            r = r + 1;
        }
        Ok(
            ActorMarkov {
                matrix: distributions_matrix.clone(),
                rng: seed,
                current: TransitionAction::Login,
                delay,
            },
        )
    }

    /// Samples the next transition and moves to its action.
    pub fn next_transition(&mut self) -> (r: Transition)
        requires
            old(self).wf(),
        ensures
            markov_step_ok(*old(self), *final(self), r),
    {
        let out = rng_next(&mut self.rng);
        let draw = out >> 32u64;
        let col = select_column(&self.matrix, self.current.ordinal(), draw);
        let action = TransitionAction::from_ordinal(col);
        self.current = action;
        match self.delay {
            None => Transition { delay: None, action },
            Some((mean, std_dev)) => {
                let t2 = lanes(rng_next(&mut self.rng));
                let t3 = lanes(rng_next(&mut self.rng));
                let t4 = lanes(rng_next(&mut self.rng));
                let ms = scaled_normal_delay(mean, std_dev, t2 + t3 + t4);
                Transition { delay: Some(ms), action }
            },
        }
    }

    /// Samples `n` transitions in a row: exactly the trace of length `n`
    /// from the actor's state, so two actors built with the same matrix,
    /// pause parameters and seed sample the same transitions and delays.
    pub fn sample(&mut self, n: usize) -> (r: Vec<Transition>)
        requires
            old(self).wf(),
        ensures
            final(self).wf(),
            final(self).matrix() == old(self).matrix(),
            final(self).delay_params() == old(self).delay_params(),
            r@ == markov_trace(
                old(self).matrix(),
                old(self).delay_params(),
                old(self).rng(),
                old(self).current(),
                n as nat,
            ),
    {
        let ghost m = self.matrix();
        let ghost d = self.delay_params();
        let ghost rng0 = self.rng();
        let ghost cur0 = self.current();
        let mut out: Vec<Transition> = Vec::new();
        let mut i: usize = 0;
        while i < n
            invariant
                i <= n,
                self.wf(),
                self.matrix() == m,
                self.delay_params() == d,
                out@ + markov_trace(m, d, self.rng(), self.current(), (n - i) as nat)
                    == markov_trace(m, d, rng0, cur0, n as nat),
            decreases n - i,
        {
            let ghost before = *self;
            let t = self.next_transition();
            proof {
                lemma_step_starts_trace(before, *self, t, (n - i - 1) as nat);
                assert(out@.push(t) + markov_trace(m, d, self.rng(), self.current(), (n - i - 1) as nat)
                    =~= out@ + (seq![t] + markov_trace(m, d, self.rng(), self.current(), (n - i - 1) as nat)));
            }
            out.push(t);
            i = i + 1;
        }
        assert(out@ + markov_trace(m, d, self.rng(), self.current(), 0) =~= out@);
        out
    }
}

/// Selection never leaves the action range: for every valid matrix, row
/// and draw, the selected column is an ordinal in `[0, ACTION_COUNT)`.
pub proof fn lemma_selection_in_range(m: Seq<u64>, r: int, draw: int)
    requires
        valid_matrix(m),
        0 <= r < ACTION_COUNT,
    ensures
        0 <= spec_select(m, r, draw) < ACTION_COUNT,
        TransitionAction::spec_from_ordinal(spec_select(m, r, draw)) is Some,
{
    lemma_select_from_in_range(m, r, draw, 0);
}

proof fn lemma_select_from_in_range(m: Seq<u64>, r: int, draw: int, c: int)
    requires
        0 <= c,
    ensures
        0 <= select_from(m, r, draw, c) < ACTION_COUNT,
    decreases ACTION_COUNT - c,
{
    if c < ACTION_COUNT - 1 && row_prefix(m, r, c + 1) <= draw {
        lemma_select_from_in_range(m, r, draw, c + 1);
    }
}

/// A cell above `MAX_CELL` puts its row over the tolerance.
proof fn lemma_row_prefix_bounds_cell(m: Seq<u64>, i: int)
    requires
        m.len() == DISTR_MATRIX_SIZE,
        0 <= i < DISTR_MATRIX_SIZE,
    ensures
        !row_sums_to_one(m, i / ACTION_COUNT as int) || m[i] <= MAX_CELL,
{
    let r = i / ACTION_COUNT as int;
    let c = i % ACTION_COUNT as int;
    assert(0 <= r < ACTION_COUNT && i == ACTION_COUNT * r + c);
    lemma_row_prefix_monotone(m, r, c + 1, ACTION_COUNT as int);
    reveal_with_fuel(row_prefix, 2);
    lemma_row_prefix_nonneg(m, r, c);
}

proof fn lemma_row_prefix_monotone(m: Seq<u64>, r: int, j: int, k: int)
    requires
        0 <= j <= k,
    ensures
        row_prefix(m, r, j) <= row_prefix(m, r, k),
    decreases k - j,
{
    if j < k {
        lemma_row_prefix_monotone(m, r, j, k - 1);
    }
}

proof fn lemma_row_prefix_nonneg(m: Seq<u64>, r: int, k: int)
    ensures
        row_prefix(m, r, k) >= 0,
    decreases k,
{
    if k > 0 {
        lemma_row_prefix_nonneg(m, r, k - 1);
    }
}

/// Every matrix of `DISTR_MATRIX_SIZE` cells whose rows each sum to
/// probability one within the tolerance is valid, so the Markov strategy
/// accepts it.
pub proof fn lemma_rows_within_tolerance_are_valid(m: Seq<u64>)
    requires
        m.len() == DISTR_MATRIX_SIZE,
        forall|r: int| 0 <= r < ACTION_COUNT ==> row_sums_to_one(m, r),
    ensures
        valid_matrix(m),
{
    assert forall|i: int| 0 <= i < m.len() implies m[i] <= MAX_CELL by {
        lemma_row_prefix_bounds_cell(m, i);
    }
}

/// Sampling is reproducible: two actors in the same state (matrix, pause
/// parameters, generator state and current action) that each take a step
/// produce the same transition and are again in the same state.
pub proof fn lemma_same_state_same_step(
    a1: ActorMarkov,
    a2: ActorMarkov,
    b1: ActorMarkov,
    b2: ActorMarkov,
    t1: Transition,
    t2: Transition,
)
    requires
        a1.matrix() == a2.matrix(),
        a1.delay_params() == a2.delay_params(),
        a1.rng() == a2.rng(),
        a1.current() == a2.current(),
        markov_step_ok(a1, b1, t1),
        markov_step_ok(a2, b2, t2),
    ensures
        t1 == t2,
        b1.matrix() == b2.matrix(),
        b1.delay_params() == b2.delay_params(),
        b1.rng() == b2.rng(),
        b1.current() == b2.current(),
{
}

/// A step taken by an actor is the first transition of its trace, and the
/// rest of the trace is the trace of the actor after the step.
pub proof fn lemma_step_starts_trace(before: ActorMarkov, after: ActorMarkov, t: Transition, n: nat)
    requires
        markov_step_ok(before, after, t),
    ensures
        markov_trace(before.matrix(), before.delay_params(), before.rng(), before.current(), n + 1)
            == seq![t] + markov_trace(
            after.matrix(),
            after.delay_params(),
            after.rng(),
            after.current(),
            n,
        ),
{
    assert(((n + 1) as nat - 1) as nat == n);
}

/// The matrix whose rows are degenerate: from each action the chain moves
/// with certainty to `basic_successor` of it (Login to ReadProperty to
/// WriteProperty to Logout to Login).
pub open spec fn cycle_matrix() -> Seq<u64> {
    seq![
        0, 0, PROBABILITY_ONE, 0,
        PROBABILITY_ONE, 0, 0, 0,
        0, 0, 0, PROBABILITY_ONE,
        0, PROBABILITY_ONE, 0, 0,
    ]
}

/// The first `n` transitions of the deterministic script from `a`.
pub open spec fn script(a: TransitionAction, n: nat) -> Seq<Transition>
    decreases n,
{
    if n == 0 {
        Seq::empty()
    } else {
        seq![Transition { delay: None, action: basic_successor(a) }] + script(
            basic_successor(a),
            (n - 1) as nat,
        )
    }
}

proof fn lemma_cycle_step(rng: u64, a: TransitionAction)
    ensures
        markov_step(cycle_matrix(), None, rng, a) == (
            rng_advance(rng),
            Transition { delay: None, action: basic_successor(a) },
        ),
{
    let x = rng_mix(rng_advance(rng));
    assert((x >> 32u64) < 0x1_0000_0000u64) by (bit_vector);
    reveal_with_fuel(row_prefix, 5);
    reveal_with_fuel(select_from, 5);
    let m = cycle_matrix();
    assert(m[0] == 0 && m[2] == PROBABILITY_ONE && m[4] == PROBABILITY_ONE && m[11]
        == PROBABILITY_ONE && m[13] == PROBABILITY_ONE && m[1] == 0 && m[8] == 0 && m[9] == 0
        && m[10] == 0 && m[12] == 0);
}

/// Under the degenerate cycle matrix, for every seed, the Markov strategy
/// follows the deterministic script exactly.
pub proof fn lemma_cycle_matrix_follows_script(rng: u64, a: TransitionAction, n: nat)
    ensures
        markov_trace(cycle_matrix(), None, rng, a, n) == script(a, n),
    decreases n,
{
    if n > 0 {
        lemma_cycle_step(rng, a);
        lemma_cycle_matrix_follows_script(rng_advance(rng), basic_successor(a), (n - 1) as nat);
    }
}

/// The degenerate cycle matrix is accepted by the Markov strategy, and from
/// `Login`, for every seed, eight steps under it give ReadProperty,
/// WriteProperty, Logout, Login, twice.
pub proof fn lemma_cycle_matrix_eight_steps(seed: u64)
    ensures
        valid_matrix(cycle_matrix()),
        markov_trace(cycle_matrix(), None, seed, TransitionAction::Login, 8).map_values(
            |t: Transition| t.action,
        ) == seq![
            TransitionAction::ReadProperty,
            TransitionAction::WriteProperty,
            TransitionAction::Logout,
            TransitionAction::Login,
            TransitionAction::ReadProperty,
            TransitionAction::WriteProperty,
            TransitionAction::Logout,
            TransitionAction::Login,
        ],
{
    lemma_cycle_matrix_follows_script(seed, TransitionAction::Login, 8);
    reveal_with_fuel(script, 9);
    reveal_with_fuel(row_prefix, 5);
    let m = cycle_matrix();
    assert forall|r: int| 0 <= r < ACTION_COUNT implies row_sums_to_one(m, r) by {
        assert(r == 0 || r == 1 || r == 2 || r == 3);
    }
    assert(markov_trace(cycle_matrix(), None, seed, TransitionAction::Login, 8).map_values(
        |t: Transition| t.action,
    ) =~= seq![
        TransitionAction::ReadProperty,
        TransitionAction::WriteProperty,
        TransitionAction::Logout,
        TransitionAction::Login,
        TransitionAction::ReadProperty,
        TransitionAction::WriteProperty,
        TransitionAction::Logout,
        TransitionAction::Login,
    ]);
}

} // verus!
