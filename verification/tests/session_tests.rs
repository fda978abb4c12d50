use texquiz::problem::{standard_catalog, Problem};
use texquiz::session::{
    AdvanceOutcome, EndOutcome, GameError, Phase, Session, StartOutcome, SubmitOutcome,
    TickOutcome, INITIAL_SECONDS,
};

fn three_problem_session() -> Session {
    Session::new(standard_catalog())
}

#[test]
fn catalog_has_three_problems_with_expected_fields() {
    let cat = standard_catalog();
    assert_eq!(cat.len(), 3);
    assert_eq!(cat[0].title.as_str(), "Euler's Identity");
    assert_eq!(cat[0].points, 1);
    assert_eq!(cat[0].source.as_str(), "e^{\\pi i} = -1");
    assert_eq!(cat[1].title.as_str(), "Limit Definition of Derivative");
    assert_eq!(cat[1].points, 3);
    assert_eq!(cat[2].title.as_str(), "Area of a Circle");
    assert_eq!(cat[2].points, 5);
    assert_eq!(cat[2].source.as_str(), "A=\\pi r^2");
}

#[test]
fn new_session_is_idle_and_unscored() {
    let s = three_problem_session();
    assert_eq!(s.phase(), Phase::Idle);
    assert_eq!(s.score(), 0);
    assert_eq!(s.timer_handle(), None);
    assert_eq!(s.problem_count(), 3);
}

#[test]
fn loading_a_problem_sets_title_points_and_pending_points() {
    let mut s = three_problem_session();
    let o = s.apply_start(true, 1, Some(String::from("<math>limit</math>")), None).unwrap();
    assert_eq!(o.loaded.title.as_str(), "Limit Definition of Derivative");
    assert_eq!(o.loaded.points_text.as_str(), "3");
    assert_eq!(s.pending_points(), 3);
    assert_eq!(s.current_index(), 1);
    assert_eq!(s.phase(), Phase::Playing);
    assert_eq!(o.score_text.as_str(), "0");
}

#[test]
fn start_failure_leaves_the_session_unchanged() {
    let mut s = three_problem_session();
    let e = s.apply_start(true, 0, None, None).unwrap_err();
    assert_eq!(e, GameError::RenderFailed);
    assert_eq!(s.phase(), Phase::Idle);
    assert_eq!(s.score(), 0);
}

#[test]
fn annotation_blocks_are_stripped_from_the_target() {
    let mut s = three_problem_session();
    let html = String::from("<span><annotation encoding=\"tex\">A=\\pi r^2</annotation>body</span>");
    let o = s.apply_start(true, 2, Some(html), None).unwrap();
    assert_eq!(o.loaded.target_markup.as_str(), "<span>body</span>");
    assert_eq!(s.target_markup().as_str(), "<span>body</span>");
}

#[test]
fn matching_submission_scores_pending_points_and_suspends_input() {
    let mut s = three_problem_session();
    s.apply_start(true, 2, Some(String::from("<span>circle</span>")), None).unwrap();
    let o = s.apply_submit(Some(String::from("<span>circle</span>"))).unwrap();
    match o {
        SubmitOutcome::Matched { out_markup, score_text, advance_token } => {
            assert_eq!(out_markup.as_str(), "<span>circle</span>");
            assert_eq!(score_text.as_str(), "5");
            assert_eq!(advance_token, s.advance_token());
        }
        other => panic!("expected a match, got {:?}", other),
    }
    assert_eq!(s.score(), 5);
    assert_eq!(s.phase(), Phase::Solved);
}

#[test]
fn comparison_trims_white_space_on_both_sides() {
    let mut s = three_problem_session();
    s.apply_start(true, 0, Some(String::from("  <span>euler</span>\n")), None).unwrap();
    let o = s.apply_submit(Some(String::from("\t<span>euler</span> "))).unwrap();
    assert!(matches!(o, SubmitOutcome::Matched { .. }));
    assert_eq!(s.score(), 1);
}

#[test]
fn comparison_strips_annotations_from_the_submission() {
    let mut s = three_problem_session();
    s.apply_start(true, 0, Some(String::from("<span>x</span>")), None).unwrap();
    let sub = String::from("<span><annotation a>other source</annotation>x</span>");
    let o = s.apply_submit(Some(sub)).unwrap();
    assert!(matches!(o, SubmitOutcome::Matched { .. }));
    assert_eq!(s.score(), 1);
}

#[test]
fn non_matching_submission_changes_nothing_however_often() {
    let mut s = three_problem_session();
    s.apply_start(true, 1, Some(String::from("<span>limit</span>")), None).unwrap();
    let token_before = s.advance_token();
    for _ in 0..5 {
        let o = s.apply_submit(Some(String::from("<span>wrong</span>"))).unwrap();
        match o {
            SubmitOutcome::NoMatch { out_markup } => {
                assert_eq!(out_markup.as_str(), "<span>wrong</span>");
            }
            other => panic!("expected no match, got {:?}", other),
        }
        assert_eq!(s.score(), 0);
        assert_eq!(s.phase(), Phase::Playing);
        assert_eq!(s.advance_token(), token_before);
    }
}

#[test]
fn empty_submission_never_matches_a_non_empty_target() {
    let mut s = three_problem_session();
    s.apply_start(true, 0, Some(String::from("<span>euler</span>")), None).unwrap();
    let o = s.apply_submit(Some(String::new())).unwrap();
    assert!(matches!(o, SubmitOutcome::NoMatch { .. }));
    assert_eq!(s.score(), 0);
    assert_eq!(s.phase(), Phase::Playing);
}

#[test]
fn submission_outside_play_is_ignored() {
    let mut s = three_problem_session();
    let o = s.apply_submit(Some(String::from("<span>x</span>"))).unwrap();
    assert!(matches!(o, SubmitOutcome::Ignored));
    assert_eq!(s.phase(), Phase::Idle);
}

#[test]
fn skip_loads_a_new_problem_without_scoring() {
    let mut s = three_problem_session();
    s.apply_start(true, 0, Some(String::from("<span>euler</span>")), None).unwrap();
    let o = s.apply_skip(2, Some(String::from("<span>circle</span>"))).unwrap();
    match o {
        AdvanceOutcome::Loaded(l) => {
            assert_eq!(l.title.as_str(), "Area of a Circle");
            assert_eq!(l.points_text.as_str(), "5");
        }
        other => panic!("expected a load, got {:?}", other),
    }
    assert_eq!(s.score(), 0);
    assert_eq!(s.pending_points(), 5);
    assert_eq!(s.phase(), Phase::Playing);
}

#[test]
fn skip_after_a_solve_keeps_the_score_and_goes_back_to_play() {
    let mut s = three_problem_session();
    s.apply_start(true, 2, Some(String::from("<span>circle</span>")), None).unwrap();
    s.apply_submit(Some(String::from("<span>circle</span>"))).unwrap();
    assert_eq!(s.score(), 5);
    let o = s.apply_skip(0, Some(String::from("<span>euler</span>"))).unwrap();
    assert!(matches!(o, AdvanceOutcome::Loaded(_)));
    assert_eq!(s.score(), 5);
    assert_eq!(s.phase(), Phase::Playing);
}

#[test]
fn stale_auto_advance_does_nothing() {
    let mut s = three_problem_session();
    s.apply_start(true, 2, Some(String::from("<span>circle</span>")), None).unwrap();
    let token = match s.apply_submit(Some(String::from("<span>circle</span>"))).unwrap() {
        SubmitOutcome::Matched { advance_token, .. } => advance_token,
        other => panic!("expected a match, got {:?}", other),
    };
    // A skip runs first: the scheduled advance goes stale.
    s.apply_skip(0, Some(String::from("<span>euler</span>"))).unwrap();
    let idx = s.current_index();
    let o = s.apply_advance(token, 1, Some(String::from("<span>limit</span>"))).unwrap();
    assert!(matches!(o, AdvanceOutcome::Ignored));
    assert_eq!(s.current_index(), idx);
    assert_eq!(s.phase(), Phase::Playing);
}

#[test]
fn fresh_auto_advance_loads_without_touching_the_score() {
    let mut s = three_problem_session();
    s.apply_start(true, 2, Some(String::from("<span>circle</span>")), None).unwrap();
    let token = match s.apply_submit(Some(String::from("<span>circle</span>"))).unwrap() {
        SubmitOutcome::Matched { advance_token, .. } => advance_token,
        other => panic!("expected a match, got {:?}", other),
    };
    let o = s.apply_advance(token, 1, Some(String::from("<span>limit</span>"))).unwrap();
    assert!(matches!(o, AdvanceOutcome::Loaded(_)));
    assert_eq!(s.score(), 5);
    assert_eq!(s.pending_points(), 3);
    assert_eq!(s.phase(), Phase::Playing);
}

#[test]
fn timed_session_counts_twenty_decrementing_ticks_then_ends() {
    let mut s = three_problem_session();
    let o = s.apply_start(true, 0, Some(String::from("<span>euler</span>")), None).unwrap();
    assert!(o.start_countdown);
    assert_eq!(s.seconds_remaining(), INITIAL_SECONDS);
    s.countdown_started(7);
    assert_eq!(s.timer_handle(), Some(7));
    let mut fired = 0u64;
    loop {
        match s.tick() {
            TickOutcome::Running { timer_text } => {
                fired += 1;
                let left = INITIAL_SECONDS - fired;
                let expected = format!("{:02}:{:02}", left / 60, left % 60);
                assert_eq!(timer_text, expected);
                assert_eq!(s.seconds_remaining(), left);
            }
            TickOutcome::Finished { timer_text, cancel_timer, summary_text } => {
                fired += 1;
                assert_eq!(timer_text.as_str(), "");
                assert_eq!(cancel_timer, Some(7));
                assert_eq!(summary_text.as_str(), "You finished with 0 points!");
                break;
            }
            TickOutcome::Ignored => panic!("tick ignored during a timed session"),
        }
    }
    assert_eq!(fired, INITIAL_SECONDS);
    assert_eq!(s.phase(), Phase::Ended);
    assert_eq!(s.timer_handle(), None);
    // No tick-driven mutation after the end.
    assert!(matches!(s.tick(), TickOutcome::Ignored));
    assert_eq!(s.phase(), Phase::Ended);
}

#[test]
fn zen_session_never_ticks_and_shows_the_infinity_markup() {
    let mut s = three_problem_session();
    let o: StartOutcome = s
        .apply_start(false, 0, Some(String::from("<span>euler</span>")), Some(String::from("INF")))
        .unwrap();
    assert!(!o.start_countdown);
    assert_eq!(o.cancel_timer, None);
    assert_eq!(o.zen_timer_markup.as_deref(), Some("INF"));
    assert_eq!(s.timer_handle(), None);
    for _ in 0..5 {
        assert!(matches!(s.tick(), TickOutcome::Ignored));
        assert_eq!(s.phase(), Phase::Playing);
        assert_eq!(s.score(), 0);
    }
}

#[test]
fn ending_the_game_cancels_the_countdown_and_freezes_the_state() {
    let mut s = three_problem_session();
    s.apply_start(true, 2, Some(String::from("<span>circle</span>")), None).unwrap();
    s.countdown_started(3);
    s.apply_submit(Some(String::from("<span>circle</span>"))).unwrap();
    match s.end() {
        EndOutcome::Ended { cancel_timer, summary_text } => {
            assert_eq!(cancel_timer, Some(3));
            assert_eq!(summary_text.as_str(), "You finished with 5 points!");
        }
        other => panic!("expected an ended outcome, got {:?}", other),
    }
    assert_eq!(s.phase(), Phase::Ended);
    assert_eq!(s.timer_handle(), None);
    for _ in 0..3 {
        assert!(matches!(s.tick(), TickOutcome::Ignored));
        assert_eq!(s.phase(), Phase::Ended);
        assert_eq!(s.score(), 5);
    }
    // A second end action has nothing left to do.
    assert!(matches!(s.end(), EndOutcome::Ignored));
}

#[test]
fn restarting_leaves_exactly_one_countdown() {
    let mut s = three_problem_session();
    s.apply_start(true, 0, Some(String::from("<span>euler</span>")), None).unwrap();
    s.countdown_started(1);
    let o = s.apply_start(true, 1, Some(String::from("<span>limit</span>")), None).unwrap();
    assert_eq!(o.cancel_timer, Some(1));
    assert_eq!(s.timer_handle(), None);
    s.countdown_started(2);
    assert_eq!(s.timer_handle(), Some(2));
    assert_eq!(s.score(), 0);
    assert_eq!(s.seconds_remaining(), INITIAL_SECONDS);
}

#[test]
fn restart_resets_score_and_clock() {
    let mut s = three_problem_session();
    s.apply_start(true, 2, Some(String::from("<span>circle</span>")), None).unwrap();
    s.countdown_started(9);
    s.apply_submit(Some(String::from("<span>circle</span>"))).unwrap();
    s.tick();
    assert_eq!(s.score(), 5);
    let o = s.apply_start(true, 0, Some(String::from("<span>euler</span>")), None).unwrap();
    assert_eq!(o.cancel_timer, Some(9));
    assert_eq!(s.score(), 0);
    assert_eq!(s.seconds_remaining(), INITIAL_SECONDS);
    assert_eq!(s.phase(), Phase::Playing);
}

#[test]
fn a_session_works_over_a_custom_catalog() {
    let problems = vec![Problem::new("x+1", "One More", 2), Problem::new("x-1", "One Less", 4)];
    let mut s = Session::new(problems);
    assert_eq!(s.problem_count(), 2);
    let o = s.apply_start(true, 1, Some(String::from("less")), None).unwrap();
    assert_eq!(o.loaded.title.as_str(), "One Less");
    assert_eq!(s.pending_points(), 4);
    s.apply_submit(Some(String::from("less"))).unwrap();
    assert_eq!(s.score(), 4);
}
