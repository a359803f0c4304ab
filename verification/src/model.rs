//! The data model of the search: candidate triples, oracle feedback, the
//! search state with its append-only history, and the decision table that
//! routes a feedback pair to the next probing strategy.

use vstd::prelude::*;

verus! {

/// A three-slot candidate value: slot `i` holds the symbol guessed for
/// position `i`. The three slots are rendered as concatenated decimal digits
/// when a guess is submitted to the oracle.
#[derive(Clone, Copy, Debug, PartialEq, Eq, Structural)]
pub struct Triple {
    pub p0: u32,
    pub p1: u32,
    pub p2: u32,
}

/// The oracle's verdict on one submitted triple. Values arrive from outside
/// and are not validated here: the decision table treats any pair it does not
/// recognize as a terminal failure.
#[derive(Clone, Debug)]
pub struct Feedback {
    /// Symbols present in the secret but placed in the wrong slot ("cows").
    pub wrong_position: i32,
    /// Symbols placed in the exactly correct slot ("bulls").
    pub right_position: i32,
    /// The oracle's own claim that the guess solved the game.
    pub solved: bool,
    /// The oracle's running count of guesses for this game.
    pub guess_count: u32,
    /// The identifier of the game this feedback belongs to.
    pub game_id: String,
}

/// Which phase of the search a state is in; exactly one holds at any instant.
#[derive(Clone, Copy, Debug, PartialEq, Eq, Structural)]
pub enum SearchStatus {
    Running,
    Stopped,
    Failed,
}

/// How a probed triple was produced.
#[derive(Clone, Copy, Debug, PartialEq, Eq, Structural)]
pub enum Op {
    /// The fixed triple the search starts from.
    Seed,
    /// One slot replaced by one more than the current maximum slot value.
    Inc,
    /// A non-identity rotation of the current triple.
    Swap,
    /// All slots raised by the fixed positional offsets.
    Shift,
}

/// One line of the history log: which triple was probed, what the oracle
/// answered, and which operation produced the triple. Appended exactly once
/// per oracle call, after one seed record.
#[derive(Clone, Copy, Debug, PartialEq, Eq, Structural)]
pub struct HistoryRecord {
    /// Position of this record in the history.
    pub step_index: usize,
    /// The probed triple. Rendering it as digit text is left to callers.
    pub guess: Triple,
    /// The wrong-position count the oracle reported.
    pub wrong_position: i32,
    /// The right-position count the oracle reported.
    pub right_position: i32,
    /// The operation that produced the probed triple.
    pub op: Op,
}

/// The value of one search step. Each step consumes the previous state and
/// the latest feedback and yields a new state; a state whose status is
/// `Stopped` or `Failed` is terminal.
#[derive(Clone, Debug)]
pub struct SearchState {
    /// The current candidate triple.
    pub triple: Triple,
    /// Exactly one of running, stopped, failed.
    pub status: SearchStatus,
    /// How many oracle calls have been made so far, the bootstrap included.
    pub guess_count: usize,
    /// The folded decimal value of the terminal triple, set exactly when the
    /// search stopped on a solution.
    pub answer: Option<u64>,
    /// The identifier the oracle assigned to this game.
    pub game_id: String,
    /// Append-only record of every probe, one seed record first.
    pub history: Vec<HistoryRecord>,
}

/// The constants a search run is built from: the digit-space bound that the
/// overflow guard enforces, and the triple the search starts from.
#[derive(Clone, Copy, Debug, PartialEq, Eq, Structural)]
pub struct Config {
    /// A slot value above this bound fails the search on the next evaluation.
    pub bound: u32,
    /// The triple submitted as the bootstrap guess.
    pub seed: Triple,
}

impl Config {
    /// The bound must leave room for the largest shift offset, so that
    /// building a shifted candidate cannot overflow a slot.
    pub open spec fn wf(self) -> bool {
        self.bound <= u32::MAX - 3
    }
}

impl Default for Config {
    /// The game's own constants: digit space `0..=4`, seed triple `(0,1,2)`.
    fn default() -> (c: Config)
        ensures
            c.bound == 4,
            c.seed == (Triple { p0: 0, p1: 1, p2: 2 }),
            c.wf(),
    {
        Config { bound: 4, seed: Triple { p0: 0, p1: 1, p2: 2 } }
    }
}

/// The largest slot value of a triple.
pub open spec fn max_slot(t: Triple) -> u32 {
    if t.p0 >= t.p1 && t.p0 >= t.p2 {
        t.p0
    } else if t.p1 >= t.p2 {
        t.p1
    } else {
        t.p2
    }
}

/// The triple folded into one decimal value, slot 0 most significant.
pub open spec fn fold_spec(t: Triple) -> int {
    100 * t.p0 + 10 * t.p1 + t.p2
}

/// True exactly when a slot exceeds the configured digit-space bound.
pub open spec fn over_bound(cfg: Config, t: Triple) -> bool {
    t.p0 > cfg.bound || t.p1 > cfg.bound || t.p2 > cfg.bound
}

/// Feedback that reports a full solve: all three symbols in the right slot,
/// none misplaced, and the oracle's solved flag set.
pub open spec fn is_solution(fb: Feedback) -> bool {
    fb.wrong_position == 0 && fb.right_position == 3 && fb.solved
}

impl Triple {
    /// The largest slot value.
    pub fn max_slot(&self) -> (m: u32)
        ensures
            m == max_slot(*self),
    {
        if self.p0 >= self.p1 && self.p0 >= self.p2 {
            self.p0
        } else if self.p1 >= self.p2 {
            self.p1
        } else {
            self.p2
        }
    }

    /// The triple folded into one decimal value.
    pub fn folded(&self) -> (v: u64)
        ensures
            v == fold_spec(*self),
    {
        100u64 * (self.p0 as u64) + 10u64 * (self.p1 as u64) + (self.p2 as u64)
    }
}

/// Whether one piece of feedback reports a full solve.
pub fn found_answer(guess: &Feedback) -> (r: bool)
    ensures
        r == is_solution(*guess),
{
    guess.wrong_position == 0 && guess.right_position == 3 && guess.solved
}

/// Where the decision table sends a feedback pair, once the overflow guard
/// has passed and the solved flag is clear.
#[derive(Clone, Copy, Debug, PartialEq, Eq, Structural)]
pub enum Route {
    /// Raise the slots by the fixed offsets and probe once.
    ShiftStep,
    /// Probe the three increment candidates.
    IncStep,
    /// Probe the three rotation candidates.
    SwapStep,
    /// Stop: a full right-position count without the solved flag.
    StopStep,
    /// Fail: a feedback pair the table does not recognize.
    FailStep,
}

/// The decision table over the pair (wrong-position, right-position).
pub open spec fn route_of(wrong: int, right: int) -> Route {
    if wrong == 0 && right == 0 {
        Route::ShiftStep
    } else if wrong == 0 && right == 3 {
        Route::StopStep
    } else if (wrong == 0 && (right == 1 || right == 2)) || (wrong == 1 && (right == 0 || right
        == 1)) || (wrong == 2 && right == 0) {
        Route::IncStep
    } else if (wrong == 2 && right == 1) || (wrong == 3 && right == 0) {
        Route::SwapStep
    } else {
        Route::FailStep
    }
}

/// Look a feedback pair up in the decision table.
pub fn route(wrong: i32, right: i32) -> (r: Route)
    ensures
        r == route_of(wrong as int, right as int),
{
    match (wrong, right) {
        (0, 0) => Route::ShiftStep,
        (0, 1) => Route::IncStep,
        (0, 2) => Route::IncStep,
        (0, 3) => Route::StopStep,
        (1, 0) => Route::IncStep,
        (1, 1) => Route::IncStep,
        (2, 0) => Route::IncStep,
        (2, 1) => Route::SwapStep,
        (3, 0) => Route::SwapStep,
        _ => Route::FailStep,
    }
}

/// The slot value an increment candidate introduces: one more than the
/// current maximum slot.
pub open spec fn inc_value(t: Triple) -> u32 {
    (max_slot(t) + 1) as u32
}

/// The three increment candidates, in probe order: the current triple with
/// exactly one slot replaced by `inc_value`, slot 0 first.
pub open spec fn inc_candidates(t: Triple) -> Seq<Triple> {
    seq![
        Triple { p0: inc_value(t), p1: t.p1, p2: t.p2 },
        Triple { p0: t.p0, p1: inc_value(t), p2: t.p2 },
        Triple { p0: t.p0, p1: t.p1, p2: inc_value(t) },
    ]
}

/// The three non-identity rotations of the current triple, in probe order.
pub open spec fn swap_candidates(t: Triple) -> Seq<Triple> {
    seq![
        Triple { p0: t.p1, p1: t.p0, p2: t.p2 },
        Triple { p0: t.p1, p1: t.p2, p2: t.p0 },
        Triple { p0: t.p2, p1: t.p0, p2: t.p1 },
    ]
}

/// The triple with the fixed positional offsets applied.
pub open spec fn shifted(t: Triple) -> Triple {
    Triple { p0: (t.p0 + 1) as u32, p1: (t.p1 + 2) as u32, p2: (t.p2 + 3) as u32 }
}

/// The dominance rule: whether a probed candidate with counts
/// `(cand_wrong, cand_right)` replaces the best pair seen so far, whose
/// counts are `(best_wrong, best_right)`. Both counts must be non-decreasing
/// — a candidate that improves one count while regressing the other is
/// rejected. While the best is still the round's input pair (`baseline`), a
/// tie replaces it; among probed candidates, ties keep the earliest-found
/// best.
pub open spec fn accepts(
    best_wrong: int,
    best_right: int,
    cand_wrong: int,
    cand_right: int,
    baseline: bool,
) -> bool {
    &&& cand_right >= best_right
    &&& cand_wrong >= best_wrong
    &&& (baseline || cand_right > best_right || cand_wrong > best_wrong)
}

/// Each increment candidate raises the maximum slot value by exactly one:
/// the replaced slot holds one more than the old maximum and the other two
/// slots are unchanged. This is what bounds the number of increment-driven
/// steps before the overflow guard ends the search.
pub proof fn lemma_increment_raises_max(t: Triple, i: int)
    requires
        max_slot(t) < u32::MAX,
        0 <= i < 3,
    ensures
        max_slot(inc_candidates(t)[i]) == max_slot(t) + 1,
{
}

/// A shifted triple's maximum slot value grows by at least one: every slot
/// grows by at least one.
pub proof fn lemma_shift_raises_max(t: Triple)
    requires
        max_slot(t) <= u32::MAX - 3,
    ensures
        max_slot(shifted(t)) >= max_slot(t) + 1,
{
}

/// The history record written for one probe.
pub open spec fn probe_record(index: int, guess: Triple, wrong: i32, right: i32, op: Op) -> HistoryRecord {
    HistoryRecord { step_index: index as usize, guess, wrong_position: wrong, right_position: right, op }
}

/// Finalize a state whose latest probe solved the game: the status stops,
/// the answer is the folded triple, and one record with the literal
/// full-solve feedback and the operation that built the triple is appended.
pub fn new_state_res(state: SearchState, op: Op) -> (r: SearchState)
    ensures
        r.triple == state.triple,
        r.status is Stopped,
        r.guess_count == state.guess_count,
        r.answer == Some((fold_spec(state.triple) as u64)),
        r.game_id == state.game_id,
        r.history@ == state.history@.push(
            probe_record(state.history@.len() as int, state.triple, 0, 3, op),
        ),
{
    let mut state = state;
    let index = state.history.len();
    let ans = state.triple.folded();
    state.history.push(
        HistoryRecord {
            step_index: index,
            guess: state.triple,
            wrong_position: 0,
            right_position: 3,
            op,
        },
    );
    state.status = SearchStatus::Stopped;
    state.answer = Some(ans);
    state
}

} // verus!
