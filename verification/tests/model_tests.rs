use guess_search::model::Config;
use guess_search::model::Feedback;
use guess_search::model::Op;
use guess_search::model::Route;
use guess_search::model::SearchState;
use guess_search::model::SearchStatus;
use guess_search::model::Triple;
use guess_search::model::found_answer;
use guess_search::model::new_state_res;
use guess_search::model::route;

fn fb(wrong: i32, right: i32, solved: bool) -> Feedback {
    Feedback {
        wrong_position: wrong,
        right_position: right,
        solved,
        guess_count: 1,
        game_id: "g-1".to_string(),
    }
}

#[test]
fn folded_concatenates_decimal_digits() {
    assert_eq!(Triple { p0: 0, p1: 1, p2: 2 }.folded(), 12);
    assert_eq!(Triple { p0: 4, p1: 3, p2: 2 }.folded(), 432);
    assert_eq!(Triple { p0: 0, p1: 0, p2: 0 }.folded(), 0);
}

#[test]
fn max_slot_picks_the_largest() {
    assert_eq!(Triple { p0: 0, p1: 1, p2: 2 }.max_slot(), 2);
    assert_eq!(Triple { p0: 3, p1: 1, p2: 2 }.max_slot(), 3);
    assert_eq!(Triple { p0: 1, p1: 5, p2: 2 }.max_slot(), 5);
    assert_eq!(Triple { p0: 7, p1: 7, p2: 7 }.max_slot(), 7);
}

#[test]
fn default_config_holds_the_game_constants() {
    let cfg = Config::default();
    assert_eq!(cfg.bound, 4);
    assert_eq!(cfg.seed, Triple { p0: 0, p1: 1, p2: 2 });
}

#[test]
fn found_answer_needs_all_three_conditions() {
    assert!(found_answer(&fb(0, 3, true)));
    assert!(!found_answer(&fb(0, 3, false)));
    assert!(!found_answer(&fb(1, 3, true)));
    assert!(!found_answer(&fb(0, 2, true)));
}

#[test]
fn decision_table_routes_every_recognized_pair() {
    assert_eq!(route(0, 0), Route::ShiftStep);
    assert_eq!(route(0, 1), Route::IncStep);
    assert_eq!(route(0, 2), Route::IncStep);
    assert_eq!(route(0, 3), Route::StopStep);
    assert_eq!(route(1, 0), Route::IncStep);
    assert_eq!(route(1, 1), Route::IncStep);
    assert_eq!(route(2, 0), Route::IncStep);
    assert_eq!(route(2, 1), Route::SwapStep);
    assert_eq!(route(3, 0), Route::SwapStep);
}

#[test]
fn decision_table_rejects_unrecognized_pairs() {
    assert_eq!(route(3, 3), Route::FailStep);
    assert_eq!(route(1, 2), Route::FailStep);
    assert_eq!(route(2, 2), Route::FailStep);
    assert_eq!(route(4, 0), Route::FailStep);
    assert_eq!(route(0, 4), Route::FailStep);
    assert_eq!(route(-1, 0), Route::FailStep);
    assert_eq!(route(0, -3), Route::FailStep);
}

#[test]
fn new_state_res_stops_with_the_folded_answer() {
    let state = SearchState {
        triple: Triple { p0: 3, p1: 1, p2: 2 },
        status: SearchStatus::Running,
        guess_count: 4,
        answer: None,
        game_id: "g-9".to_string(),
        history: vec![],
    };
    let r = new_state_res(state, Op::Inc);
    assert_eq!(r.status, SearchStatus::Stopped);
    assert_eq!(r.answer, Some(312));
    assert_eq!(r.triple, Triple { p0: 3, p1: 1, p2: 2 });
    assert_eq!(r.guess_count, 4);
    assert_eq!(r.game_id, "g-9");
    assert_eq!(r.history.len(), 1);
    let rec = r.history[0];
    assert_eq!(rec.step_index, 0);
    assert_eq!(rec.guess, Triple { p0: 3, p1: 1, p2: 2 });
    assert_eq!(rec.wrong_position, 0);
    assert_eq!(rec.right_position, 3);
    assert_eq!(rec.op, Op::Inc);
}
