use texquiz::problem::standard_catalog;
use texquiz::session::{AdvanceOutcome, Phase, Session, SubmitOutcome};

#[test]
fn starting_renders_a_real_target() {
    let mut s = Session::new(standard_catalog());
    let o = s.start(true).unwrap();
    assert!(s.current_index() < s.problem_count());
    let cat = standard_catalog();
    let src = cat[s.current_index()].source.as_str();
    // A real rendering is markup, not the source handed back unchanged.
    assert_ne!(o.loaded.target_markup.as_str(), src);
    assert!(o.loaded.target_markup.contains("katex"));
    // The annotation echo of the source is stripped before storing.
    assert!(!o.loaded.target_markup.contains("<annotation"));
    assert_eq!(o.loaded.target_markup, s.target_markup());
}

#[test]
fn submitting_the_canonical_source_scores_and_advances() {
    let cat = standard_catalog();
    let points: Vec<u64> = cat.iter().map(|p| p.points).collect();
    let sources: Vec<String> = cat.iter().map(|p| p.source.clone()).collect();
    let mut s = Session::new(cat);
    s.start(true).unwrap();
    s.countdown_started(11);
    let i = s.current_index();
    let o = s.submit(sources[i].as_str()).unwrap();
    let token = match o {
        SubmitOutcome::Matched { score_text, advance_token, .. } => {
            assert_eq!(score_text, format!("{}", points[i]));
            advance_token
        }
        other => panic!("expected a match, got {:?}", other),
    };
    assert_eq!(s.score(), points[i]);
    assert_eq!(s.phase(), Phase::Solved);
    // The automatic advance itself leaves the score alone.
    let a = s.auto_advance(token).unwrap();
    assert!(matches!(a, AdvanceOutcome::Loaded(_)));
    assert_eq!(s.score(), points[i]);
    assert_eq!(s.phase(), Phase::Playing);
    assert!(s.current_index() < s.problem_count());
}

#[test]
fn wrong_input_renders_live_but_does_not_score() {
    let mut s = Session::new(standard_catalog());
    s.start(true).unwrap();
    let o = s.submit("x+y").unwrap();
    match o {
        SubmitOutcome::NoMatch { out_markup } => {
            assert!(out_markup.contains("katex"));
        }
        other => panic!("expected no match, got {:?}", other),
    }
    assert_eq!(s.score(), 0);
    assert_eq!(s.phase(), Phase::Playing);
}

#[test]
fn empty_input_does_not_match_any_catalog_target() {
    let mut s = Session::new(standard_catalog());
    s.start(true).unwrap();
    let o = s.submit("").unwrap();
    assert!(matches!(o, SubmitOutcome::NoMatch { .. }));
    assert_eq!(s.score(), 0);
    assert_eq!(s.phase(), Phase::Playing);
}

#[test]
fn malformed_input_degrades_to_a_placeholder_instead_of_failing() {
    let mut s = Session::new(standard_catalog());
    s.start(true).unwrap();
    let o = s.submit("\\frac{").unwrap();
    assert!(matches!(o, SubmitOutcome::NoMatch { .. }));
    assert_eq!(s.phase(), Phase::Playing);
    // The player can keep typing: a later correct answer still lands.
    let cat = standard_catalog();
    let i = s.current_index();
    let o = s.submit(cat[i].source.as_str()).unwrap();
    assert!(matches!(o, SubmitOutcome::Matched { .. }));
}

#[test]
fn zen_start_renders_the_infinity_glyph() {
    let mut s = Session::new(standard_catalog());
    let o = s.start(false).unwrap();
    assert!(!o.start_countdown);
    let glyph = o.zen_timer_markup.expect("zen play must show the infinity placeholder");
    assert!(glyph.contains("katex"));
}

#[test]
fn the_quotient_macro_is_available_to_typed_input() {
    let mut s = Session::new(standard_catalog());
    s.start(true).unwrap();
    // Renders through the custom macro; must not be an engine failure.
    let o = s.submit("\\dv{f}{x}").unwrap();
    assert!(matches!(o, SubmitOutcome::NoMatch { .. }));
}

#[test]
fn a_skip_draws_and_renders_a_fresh_problem() {
    let mut s = Session::new(standard_catalog());
    s.start(true).unwrap();
    let o = s.skip().unwrap();
    match o {
        AdvanceOutcome::Loaded(l) => {
            assert!(l.target_markup.contains("katex"));
            assert!(!l.target_markup.contains("<annotation"));
        }
        other => panic!("expected a load, got {:?}", other),
    }
    assert_eq!(s.score(), 0);
}
