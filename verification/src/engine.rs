//! The decision driver, run as a step machine.
//!
//! The search is naturally recursive: read the latest feedback, pick a
//! neighbor-generation strategy, probe up to three candidate triples against
//! the oracle, and recurse on the best pair. Issuing a probe is the one thing
//! this library cannot do itself, so the recursion is flattened into an
//! engine that the caller pumps: [`Engine::pump`] returns the next triple to
//! probe (or nothing, once a terminal status is reached), and
//! [`Engine::supply`] hands the oracle's feedback for that probe back in.
//! Every decision between two oracle calls is made, and verified, here.

use vstd::prelude::*;

use crate::model::Config;
use crate::model::Feedback;
use crate::model::HistoryRecord;
use crate::model::Op;
use crate::model::Route;
use crate::model::SearchState;
use crate::model::SearchStatus;
use crate::model::Triple;
use crate::model::accepts;
use crate::model::fold_spec;
use crate::model::found_answer;
use crate::model::inc_candidates;
use crate::model::is_solution;
use crate::model::max_slot;
use crate::model::over_bound;
use crate::model::probe_record;
use crate::model::route;
use crate::model::route_of;
use crate::model::shifted;
use crate::model::swap_candidates;

verus! {

/// Where the engine stands between two calls into it.
#[derive(Clone, Copy, Debug, PartialEq, Eq, Structural)]
pub enum Phase {
    /// A feedback is pending; the decision table has not read it yet.
    Deciding,
    /// A probe round is under way; the next candidate awaits its feedback.
    Probing,
    /// A terminal status was reached; no further probe will be requested.
    Finished,
}

/// The search, suspended between oracle calls.
///
/// In phase `Deciding`, `fb` is the feedback the decision table will read
/// next. In phase `Probing`, `fb` is the feedback of the best pair found so
/// far in the round (initially the round's input pair), `tag` names the
/// strategy, `candidates` are the round's triples in probe order, `idx`
/// points at the candidate whose feedback is awaited, `best_triple` is the
/// triple of the best pair, and `best_is_baseline` records whether the best
/// pair is still the round's input pair.
pub struct Engine {
    pub cfg: Config,
    pub state: SearchState,
    pub phase: Phase,
    pub fb: Feedback,
    pub tag: Op,
    pub candidates: Vec<Triple>,
    pub idx: usize,
    pub best_triple: Triple,
    pub best_is_baseline: bool,
}

impl Engine {
    /// What a probe round must look like while it is under way.
    pub open spec fn round_wf(self) -> bool {
        &&& self.idx < self.candidates@.len()
        &&& max_slot(self.state.triple) <= self.cfg.bound
        &&& match self.tag {
            Op::Seed => false,
            Op::Shift => self.candidates@ == seq![shifted(self.state.triple)],
            Op::Inc => self.candidates@ == inc_candidates(self.state.triple),
            Op::Swap => self.candidates@ == swap_candidates(self.state.triple),
        }
    }

    /// The engine's invariant. Constructors establish it and both steps
    /// preserve it: the history holds one record per oracle call plus the
    /// seed record, records are indexed in order, the status is terminal
    /// exactly when the engine is finished, and the answer is set exactly
    /// when the search stopped, as the folded terminal triple.
    pub open spec fn wf(self) -> bool {
        &&& self.cfg.wf()
        &&& self.state.history@.len() == self.state.guess_count + 1
        &&& forall|i: int|
            0 <= i < self.state.history@.len() ==> (#[trigger] self.state.history@[i]).step_index
                == i
        &&& (self.state.status is Running <==> !(self.phase is Finished))
        &&& (self.state.status is Stopped <==> self.state.answer is Some)
        &&& (self.state.status is Stopped ==> self.state.answer == Some(
            (fold_spec(self.state.triple) as u64),
        ))
        &&& (self.phase is Probing ==> self.round_wf())
    }

    /// Start a search from the configured seed triple, consuming the
    /// feedback of the bootstrap probe that the caller already made. The
    /// history is seeded with one record for the seed triple and one for the
    /// bootstrap call's feedback; the bootstrap call is counted.
    pub fn new(cfg: Config, first: Feedback) -> (e: Engine)
        requires
            cfg.wf(),
        ensures
            e.wf(),
            e.cfg == cfg,
            e.phase is Deciding,
            e.fb == first,
            e.state.triple == cfg.seed,
            e.state.status is Running,
            e.state.guess_count == 1,
            e.state.answer is None,
            e.state.game_id == first.game_id,
            e.state.history@ == seq![
                probe_record(0, cfg.seed, 0, 0, Op::Seed),
                probe_record(1, cfg.seed, first.wrong_position, first.right_position, Op::Seed),
            ],
    {
        let game_id = first.game_id.clone();
        let mut history: Vec<HistoryRecord> = Vec::new();
        history.push(
            HistoryRecord {
                step_index: 0,
                guess: cfg.seed,
                wrong_position: 0,
                right_position: 0,
                op: Op::Seed,
            },
        );
        history.push(
            HistoryRecord {
                step_index: 1,
                guess: cfg.seed,
                wrong_position: first.wrong_position,
                right_position: first.right_position,
                op: Op::Seed,
            },
        );
        proof {
            assert(history@ =~= seq![
                probe_record(0, cfg.seed, 0, 0, Op::Seed),
                probe_record(1, cfg.seed, first.wrong_position, first.right_position, Op::Seed),
            ]);
        }
        let state = SearchState {
            triple: cfg.seed,
            status: SearchStatus::Running,
            guess_count: 1,
            answer: None,
            game_id,
            history,
        };
        Engine {
            cfg,
            state,
            phase: Phase::Deciding,
            fb: first,
            tag: Op::Seed,
            candidates: Vec::new(),
            idx: 0,
            best_triple: cfg.seed,
            best_is_baseline: true,
        }
    }

    /// Give up the engine and keep the state it reached.
    pub fn into_state(self) -> (s: SearchState)
        ensures
            s == self.state,
    {
        self.state
    }

    /// Ask the engine what to do next: `Some(t)` means probe the triple `t`
    /// against the oracle and hand the feedback to [`Engine::supply`];
    /// `None` means a terminal status was reached and no oracle call may
    /// follow.
    ///
    /// When a feedback is pending, this is one entry of the decision driver,
    /// in order of precedence: the overflow guard fails the search as soon
    /// as any slot exceeds the bound, with no further oracle call; a set
    /// solved flag stops it; otherwise the decision table routes the
    /// feedback pair to a probing strategy, or terminates on a full
    /// right-position count or an unrecognized pair.
    pub fn pump(&mut self) -> (r: Option<Triple>)
        requires
            old(self).wf(),
        ensures
            final(self).wf(),
            final(self).cfg == old(self).cfg,
            final(self).state.game_id == old(self).state.game_id,
            final(self).state.guess_count == old(self).state.guess_count,
            final(self).state.history@ == old(self).state.history@,
            match old(self).phase {
                Phase::Finished => r is None && *final(self) == *old(self),
                Phase::Probing => {
                    &&& r == Some(old(self).candidates@[old(self).idx as int])
                    &&& *final(self) == *old(self)
                },
                Phase::Deciding => {
                    let t = old(self).state.triple;
                    let w = old(self).fb.wrong_position as int;
                    let ri = old(self).fb.right_position as int;
                    if over_bound(old(self).cfg, t) {
                        &&& r is None
                        &&& final(self).phase is Finished
                        &&& final(self).state.status is Failed
                        &&& final(self).state.triple == t
                        &&& final(self).state.answer is None
                    } else if old(self).fb.solved || route_of(w, ri) is StopStep {
                        &&& r is None
                        &&& final(self).phase is Finished
                        &&& final(self).state.status is Stopped
                        &&& final(self).state.triple == t
                        &&& final(self).state.answer == Some((fold_spec(t) as u64))
                    } else if route_of(w, ri) is FailStep {
                        &&& r is None
                        &&& final(self).phase is Finished
                        &&& final(self).state.status is Failed
                        &&& final(self).state.triple == t
                        &&& final(self).state.answer is None
                    } else {
                        &&& final(self).phase is Probing
                        &&& final(self).state == old(self).state
                        &&& final(self).fb == old(self).fb
                        &&& final(self).idx == 0
                        &&& final(self).best_is_baseline
                        &&& final(self).best_triple == t
                        &&& final(self).tag == (match route_of(w, ri) {
                            Route::ShiftStep => Op::Shift,
                            Route::IncStep => Op::Inc,
                            _ => Op::Swap,
                        })
                        &&& final(self).candidates@ == (match route_of(w, ri) {
                            Route::ShiftStep => seq![shifted(t)],
                            Route::IncStep => inc_candidates(t),
                            _ => swap_candidates(t),
                        })
                        &&& r == Some(final(self).candidates@[0])
                    }
                },
            },
    {
        match self.phase {
            Phase::Finished => None,
            Phase::Probing => Some(self.candidates[self.idx]),
            Phase::Deciding => {
                let t = self.state.triple;
                if t.p0 > self.cfg.bound || t.p1 > self.cfg.bound || t.p2 > self.cfg.bound {
                    self.state.status = SearchStatus::Failed;
                    self.phase = Phase::Finished;
                    None
                } else if self.fb.solved {
                    self.state.status = SearchStatus::Stopped;
                    self.state.answer = Some(t.folded());
                    self.phase = Phase::Finished;
                    None
                } else {
                    match route(self.fb.wrong_position, self.fb.right_position) {
                        Route::StopStep => {
                            self.state.status = SearchStatus::Stopped;
                            self.state.answer = Some(t.folded());
                            self.phase = Phase::Finished;
                            None
                        },
                        Route::FailStep => {
                            self.state.status = SearchStatus::Failed;
                            self.phase = Phase::Finished;
                            None
                        },
                        Route::ShiftStep => {
                            let c = Triple { p0: t.p0 + 1, p1: t.p1 + 2, p2: t.p2 + 3 };
                            let mut cands: Vec<Triple> = Vec::new();
                            cands.push(c);
                            proof {
                                assert(cands@ =~= seq![shifted(t)]);
                            }
                            self.start_round(Op::Shift, cands, t);
                            Some(c)
                        },
                        Route::IncStep => {
                            let m = t.max_slot() + 1;
                            let c = Triple { p0: m, p1: t.p1, p2: t.p2 };
                            let mut cands: Vec<Triple> = Vec::new();
                            cands.push(c);
                            cands.push(Triple { p0: t.p0, p1: m, p2: t.p2 });
                            cands.push(Triple { p0: t.p0, p1: t.p1, p2: m });
                            proof {
                                assert(cands@ =~= inc_candidates(t));
                            }
                            self.start_round(Op::Inc, cands, t);
                            Some(c)
                        },
                        Route::SwapStep => {
                            let c = Triple { p0: t.p1, p1: t.p0, p2: t.p2 };
                            let mut cands: Vec<Triple> = Vec::new();
                            cands.push(c);
                            cands.push(Triple { p0: t.p1, p1: t.p2, p2: t.p0 });
                            cands.push(Triple { p0: t.p2, p1: t.p0, p2: t.p1 });
                            proof {
                                assert(cands@ =~= swap_candidates(t));
                            }
                            self.start_round(Op::Swap, cands, t);
                            Some(c)
                        },
                    }
                }
            },
        }
    }

    /// Open a probe round: the pending feedback and the current triple
    /// become the round's input pair, the baseline every candidate is
    /// compared against.
    fn start_round(&mut self, tag: Op, candidates: Vec<Triple>, baseline: Triple)
        requires
            candidates@.len() > 0,
        ensures
            *final(self) == (Engine {
                phase: Phase::Probing,
                tag,
                candidates,
                idx: 0,
                best_triple: baseline,
                best_is_baseline: true,
                ..*old(self)
            }),
    {
        self.tag = tag;
        self.candidates = candidates;
        self.idx = 0;
        self.best_triple = baseline;
        self.best_is_baseline = true;
        self.phase = Phase::Probing;
    }

    /// Hand the engine the oracle's feedback for the probe that
    /// [`Engine::pump`] last requested. Exactly one history record is
    /// appended and the call is counted.
    ///
    /// A full-solve feedback ends the round and the search at once: the
    /// remaining candidates are not probed, the solving candidate becomes
    /// the terminal triple, and the final record carries the literal
    /// full-solve counts. A shift round adopts its single candidate
    /// unconditionally. Otherwise the candidate is held against the best
    /// pair under the dominance rule, and when the round's last candidate
    /// has answered, the best pair becomes the pending pair the decision
    /// table reads next.
    pub fn supply(&mut self, fb: Feedback)
        requires
            old(self).wf(),
            old(self).phase is Probing,
        ensures
            final(self).wf(),
            final(self).cfg == old(self).cfg,
            final(self).state.game_id == old(self).state.game_id,
            final(self).state.guess_count == old(self).state.guess_count + 1,
            ({
                let cand = old(self).candidates@[old(self).idx as int];
                let n = old(self).state.history@.len() as int;
                if is_solution(fb) {
                    &&& final(self).state.history@ == old(self).state.history@.push(
                        probe_record(n, cand, 0, 3, old(self).tag),
                    )
                    &&& final(self).phase is Finished
                    &&& final(self).state.status is Stopped
                    &&& final(self).state.triple == cand
                    &&& final(self).state.answer == Some((fold_spec(cand) as u64))
                } else {
                    &&& final(self).state.history@ == old(self).state.history@.push(
                        probe_record(n, cand, fb.wrong_position, fb.right_position, old(self).tag),
                    )
                    &&& final(self).state.status is Running
                    &&& final(self).state.answer is None
                    &&& if old(self).tag is Shift {
                        &&& final(self).phase is Deciding
                        &&& final(self).fb == fb
                        &&& final(self).state.triple == cand
                    } else {
                        let acc = accepts(
                            old(self).fb.wrong_position as int,
                            old(self).fb.right_position as int,
                            fb.wrong_position as int,
                            fb.right_position as int,
                            old(self).best_is_baseline,
                        );
                        let next_fb = if acc { fb } else { old(self).fb };
                        let next_triple = if acc { cand } else { old(self).best_triple };
                        &&& final(self).fb == next_fb
                        &&& if old(self).idx + 1 == old(self).candidates@.len() {
                            &&& final(self).phase is Deciding
                            &&& final(self).state.triple == next_triple
                        } else {
                            &&& final(self).phase is Probing
                            &&& final(self).tag == old(self).tag
                            &&& final(self).candidates@ == old(self).candidates@
                            &&& final(self).idx == old(self).idx + 1
                            &&& final(self).best_triple == next_triple
                            &&& final(self).best_is_baseline == (old(self).best_is_baseline
                                && !acc)
                            &&& final(self).state.triple == old(self).state.triple
                        }
                    }
                }
            }),
    {
        let cand = self.candidates[self.idx];
        // One record per call: the history length before this push is the
        // previous call count plus the seed record, so it is the new count.
        let step = self.state.history.len();
        if found_answer(&fb) {
            self.state.history.push(
                HistoryRecord {
                    step_index: step,
                    guess: cand,
                    wrong_position: 0,
                    right_position: 3,
                    op: self.tag,
                },
            );
            self.state.guess_count = step;
            self.state.triple = cand;
            self.state.status = SearchStatus::Stopped;
            self.state.answer = Some(cand.folded());
            self.phase = Phase::Finished;
        } else {
            self.state.history.push(
                HistoryRecord {
                    step_index: step,
                    guess: cand,
                    wrong_position: fb.wrong_position,
                    right_position: fb.right_position,
                    op: self.tag,
                },
            );
            self.state.guess_count = step;
            if let Op::Shift = self.tag {
                self.state.triple = cand;
                self.fb = fb;
                self.phase = Phase::Deciding;
            } else {
                let acc = fb.right_position >= self.fb.right_position && fb.wrong_position
                    >= self.fb.wrong_position && (self.best_is_baseline || fb.right_position
                    > self.fb.right_position || fb.wrong_position > self.fb.wrong_position);
                if acc {
                    self.best_triple = cand;
                    self.fb = fb;
                    self.best_is_baseline = false;
                }
                let next = self.idx + 1;
                if next == self.candidates.len() {
                    self.state.triple = self.best_triple;
                    self.phase = Phase::Deciding;
                } else {
                    self.idx = next;
                }
            }
        }
    }
}

/// How many more times the maximum slot value can grow before the overflow
/// guard fails the search: each growth step raises it by at least one, and a
/// maximum above the bound terminates on the next evaluation.
pub open spec fn fuel_of(cfg: Config, t: Triple) -> int {
    if max_slot(t) > cfg.bound {
        0
    } else {
        cfg.bound + 1 - max_slot(t)
    }
}

/// A termination measure for a run whose probe rounds all make progress:
/// within a round the remaining candidates shrink, and across rounds the
/// fuel shrinks.
spec fn stub_measure(e: Engine) -> int {
    match e.phase {
        Phase::Finished => 0,
        Phase::Deciding => 5 * fuel_of(e.cfg, e.state.triple) + 4,
        Phase::Probing => 5 * fuel_of(e.cfg, e.state.triple) + (e.candidates@.len() - e.idx),
    }
}

/// Termination bound. Run the search against a stub oracle that answers
/// every call, the bootstrap included, with the same feedback pair and never
/// sets the solved flag. Provided the pair is not one the decision table
/// routes to the rotation strategy — a rotation leaves the maximum slot
/// value unchanged, so a run of rotations makes no progress — the run
/// reaches a terminal status, and the number of oracle calls it makes is
/// bounded in terms of how far the seed triple's maximum slot value sits
/// below the digit-space bound.
pub fn run_constant_stub(cfg: Config, wrong: i32, right: i32) -> (s: SearchState)
    requires
        cfg.wf(),
        !(route_of(wrong as int, right as int) is SwapStep),
    ensures
        s.status is Stopped || s.status is Failed,
        s.history@.len() == s.guess_count + 1,
        s.guess_count <= 1 + 3 * fuel_of(cfg, cfg.seed),
        s.status is Stopped <==> route_of(wrong as int, right as int) is StopStep && !over_bound(
            cfg,
            cfg.seed,
        ),
        s.status is Stopped ==> s.guess_count == 1 && s.answer == Some(
            (fold_spec(cfg.seed) as u64),
        ),
{
    let boot = Feedback {
        wrong_position: wrong,
        right_position: right,
        solved: false,
        guess_count: 1,
        game_id: String::new(),
    };
    let mut eng = Engine::new(cfg, boot);
    loop
        invariant
            eng.wf(),
            eng.cfg == cfg,
            cfg.wf(),
            !(route_of(wrong as int, right as int) is SwapStep),
            eng.phase is Deciding ==> eng.fb.wrong_position == wrong && eng.fb.right_position
                == right && !eng.fb.solved,
            eng.phase is Probing ==> {
                &&& eng.tag is Inc
                &&& 1 <= eng.idx < 3
                &&& !eng.best_is_baseline
                &&& eng.best_triple == inc_candidates(eng.state.triple)[0]
                &&& eng.fb.wrong_position == wrong
                &&& eng.fb.right_position == right
                &&& !eng.fb.solved
            },
            eng.state.guess_count <= 1 + 3 * (fuel_of(cfg, cfg.seed) - fuel_of(
                cfg,
                eng.state.triple,
            )) + (if eng.phase is Probing {
                eng.idx
            } else {
                0
            }),
            route_of(wrong as int, right as int) is StopStep || over_bound(cfg, cfg.seed)
                ==> eng.state.triple == cfg.seed && eng.state.guess_count == 1 && !(eng.phase
                is Probing),
            eng.state.status is Stopped ==> route_of(wrong as int, right as int) is StopStep
                && !over_bound(cfg, cfg.seed) && eng.state.triple == cfg.seed
                && eng.state.guess_count == 1,
            route_of(wrong as int, right as int) is StopStep && !over_bound(cfg, cfg.seed)
                ==> !(eng.state.status is Failed),
        ensures
            eng.wf(),
            eng.phase is Finished,
            eng.state.guess_count <= 1 + 3 * fuel_of(cfg, cfg.seed),
            eng.state.status is Stopped <==> route_of(wrong as int, right as int) is StopStep
                && !over_bound(cfg, cfg.seed),
            eng.state.status is Stopped ==> eng.state.triple == cfg.seed
                && eng.state.guess_count == 1,
        decreases stub_measure(eng),
    {
        let req = eng.pump();
        match req {
            None => {
                break;
            },
            Some(_t) => {
                let fb = Feedback {
                    wrong_position: wrong,
                    right_position: right,
                    solved: false,
                    guess_count: 1,
                    game_id: String::new(),
                };
                eng.supply(fb);
            },
        }
    }
    eng.into_state()
}

/// The status is always exactly one of running, stopped, failed — the enum
/// admits nothing else — and once it is stopped or failed the engine is
/// finished: no further probe is requested and no feedback can be supplied,
/// so no further oracle call occurs.
pub proof fn lemma_terminal_means_finished(e: Engine)
    requires
        e.wf(),
    ensures
        !(e.state.status is Running) <==> e.phase is Finished,
{
}

/// The history's length always equals the number of oracle calls made so
/// far, plus the one seed record written before the bootstrap call's record.
pub proof fn lemma_history_counts_calls(e: Engine)
    requires
        e.wf(),
    ensures
        e.state.history@.len() == e.state.guess_count + 1,
{
}

/// The dominance rule is conjunctive, not lexicographic: a probed candidate
/// can replace the best pair only when neither of its counts decreases, so a
/// candidate that improves one count while regressing the other is rejected.
pub proof fn lemma_dominance_is_conjunctive(
    best_wrong: int,
    best_right: int,
    cand_wrong: int,
    cand_right: int,
    baseline: bool,
)
    ensures
        accepts(best_wrong, best_right, cand_wrong, cand_right, baseline) ==> cand_wrong
            >= best_wrong && cand_right >= best_right,
        cand_wrong < best_wrong || cand_right < best_right ==> !accepts(
            best_wrong,
            best_right,
            cand_wrong,
            cand_right,
            baseline,
        ),
{
}

} // verus!
