//! The game session controller: one state machine governing problem
//! selection, answer validation, scoring and timing.
//!
//! Every event the display layer can deliver (a start action, an edit of
//! the input, a skip, a countdown tick, the delayed automatic advance, an
//! end action) is a method here. Each method reports, in its returned
//! outcome, everything the display layer must do; the display layer
//! performs it and owes the controller nothing but the next event and, in
//! timed play, the handle of the countdown it started.
//!
//! Rendering and the random draw are outside work. The methods that need
//! them make the calls and state what holds whatever came back; beside
//! each stands an `apply_*` method that takes the outside results as
//! arguments and whose contract is exact for every value of them.

use vstd::prelude::*;
use crate::problem::{Problem, ProblemView, catalog_view};
use crate::render::{
    katex_output, annotation_stripped, render_display_tolerant, render_display_strict,
    render_inline_plain, strip_annotations,
};
use crate::text::{trimmed, dec_rep, clock_text, summary_text, format_u64, format_clock,
    format_summary, trim_str};

verus! {

/// How long a timed session runs, in seconds.
pub const INITIAL_SECONDS: u64 = 20;

/// The pause between a correct answer and the automatic advance, in
/// milliseconds.
pub const ADVANCE_DELAY_MS: u32 = 1500;

/// The period of the countdown in timed play, in milliseconds.
pub const TICK_INTERVAL_MS: u32 = 1000;

/// The name of the differential-quotient macro available to typed input.
pub open spec fn quotient_macro_name() -> Seq<char> {
    "\\dv"@
}

/// What the differential-quotient macro expands to.
pub open spec fn quotient_macro_body() -> Seq<char> {
    "\\frac{\\mathrm{d}#1}{\\mathrm{d}#2}"@
}

/// The rendering of a problem's canonical source: display mode, strict
/// errors, no custom macro.
pub open spec fn target_rendering_of(source: Seq<char>) -> Seq<char> {
    katex_output(source, true, false, Seq::empty(), Seq::empty())
}

/// The rendering of typed input: display mode, errors rendered as
/// placeholders, the differential-quotient macro available.
pub open spec fn input_rendering_of(input: Seq<char>) -> Seq<char> {
    katex_output(input, true, true, quotient_macro_name(), quotient_macro_body())
}

/// The infinity glyph shown on the timer surface in zen play.
pub open spec fn infinity_markup() -> Seq<char> {
    katex_output("\\infty"@, false, false, Seq::empty(), Seq::empty())
}

/// Where a session stands.
#[derive(Clone, Copy, PartialEq, Eq, Structural, Debug)]
pub enum Phase {
    /// Before any start action.
    Idle,
    /// A problem is active and input is taken.
    Playing,
    /// A correct match was found; the automatic advance is pending.
    Solved,
    /// The session is over; only a fresh start leaves this state.
    Ended,
}

/// Why a transition was refused.
#[derive(Clone, Copy, PartialEq, Eq, Debug)]
pub enum GameError {
    /// The rendering collaborator failed on vetted content: a
    /// content-authoring or engine defect, fatal to the attempted
    /// transition, which leaves the session unchanged.
    RenderFailed,
}

/// The mathematical image of a [`Session`].
#[verifier::ext_equal]
pub struct SessionView {
    /// The catalog, fixed for the session's lifetime.
    pub problems: Seq<ProblemView>,
    /// Where the session stands.
    pub phase: Phase,
    /// Points gathered so far.
    pub score: u64,
    /// Points the current problem is worth.
    pub pending_points: u64,
    /// Whether this run is timed.
    pub timed: bool,
    /// Seconds left in timed play; unused in zen play.
    pub seconds_remaining: u64,
    /// Handle of the active countdown, if one was recorded.
    pub timer: Option<u32>,
    /// Index of the current problem.
    pub current: int,
    /// The stripped rendering of the current problem's source.
    pub target: Seq<char>,
    /// Staleness token: the delayed advance fires only if no other
    /// transition has bumped this since it was scheduled.
    pub advance_token: u64,
}

/// A session is well formed when its catalog is non-empty, the pending
/// points are those of the current problem whenever one is active, timers
/// exist only in timed play and never outlive the session, and an active
/// timed session always has seconds left to count.
pub open spec fn wf(v: SessionView) -> bool {
    &&& v.problems.len() > 0
    &&& (v.phase is Playing || v.phase is Solved) ==> {
        &&& 0 <= v.current < v.problems.len()
        &&& v.pending_points == v.problems[v.current].points
    }
    &&& !v.timed ==> v.timer is None
    &&& (v.phase is Idle || v.phase is Ended) ==> v.timer is None
    &&& (v.timed && (v.phase is Playing || v.phase is Solved)) ==> v.seconds_remaining > 0
}

/// A fresh session over a catalog: idle, nothing scored, no timer.
pub open spec fn initial_view(problems: Seq<ProblemView>) -> SessionView {
    SessionView {
        problems,
        phase: Phase::Idle,
        score: 0,
        pending_points: 0,
        timed: false,
        seconds_remaining: 0,
        timer: None,
        current: 0,
        target: Seq::empty(),
        advance_token: 0,
    }
}

/// The state change of loading a problem whose source rendered to
/// `html`: problem `i` becomes current, its points pending, the stripped
/// rendering the comparison target, and any scheduled advance goes stale.
pub open spec fn load_applied_view(v: SessionView, i: int, html: Seq<char>) -> SessionView {
    SessionView {
        phase: Phase::Playing,
        current: i,
        pending_points: v.problems[i].points,
        target: annotation_stripped(html),
        advance_token: (v.advance_token + 1) as u64,
        ..v
    }
}

/// Loading problem `i` with the rendering its source really produces.
pub open spec fn load_view(v: SessionView, i: int) -> SessionView {
    load_applied_view(v, i, target_rendering_of(v.problems[i].source))
}

/// The state change of a start action: score reset, mode chosen, the
/// clock wound up in timed play, any previous countdown dropped, and
/// problem `i` (rendered to `html`) loaded first.
pub open spec fn start_applied_view(v: SessionView, timed: bool, i: int, html: Seq<char>) -> SessionView {
    load_applied_view(
        SessionView {
            score: 0,
            timed: timed,
            seconds_remaining: if timed { INITIAL_SECONDS } else { 0 },
            timer: None,
            ..v
        },
        i,
        html,
    )
}

/// Starting on problem `i` with the rendering its source really produces.
pub open spec fn start_view(v: SessionView, timed: bool, i: int) -> SessionView {
    start_applied_view(v, timed, i, target_rendering_of(v.problems[i].source))
}

/// Whether a rendering of typed input matches the current target: both
/// are compared with annotation blocks removed and white space trimmed.
pub open spec fn rendered_matches(v: SessionView, rendered: Seq<char>) -> bool {
    trimmed(annotation_stripped(rendered)) == trimmed(v.target)
}

/// The state change of submitting input whose rendering is `rendered`: a
/// match during play scores the pending points and suspends input; any
/// other submission changes nothing.
pub open spec fn submit_view(v: SessionView, rendered: Seq<char>) -> SessionView {
    if v.phase is Playing && rendered_matches(v, rendered) {
        SessionView { phase: Phase::Solved, score: (v.score + v.pending_points) as u64, ..v }
    } else {
        v
    }
}

/// Whether a countdown tick does anything: only in timed play, only while
/// a problem is active, only while seconds remain.
pub open spec fn tick_fires(v: SessionView) -> bool {
    v.timed && (v.phase is Playing || v.phase is Solved) && v.seconds_remaining > 0
}

/// The state change of one countdown tick: one second less; at zero the
/// session ends and the countdown is dropped.
pub open spec fn tick_view(v: SessionView) -> SessionView {
    if tick_fires(v) {
        if v.seconds_remaining == 1 {
            SessionView { seconds_remaining: 0, phase: Phase::Ended, timer: None, ..v }
        } else {
            SessionView { seconds_remaining: (v.seconds_remaining - 1) as u64, ..v }
        }
    } else {
        v
    }
}

/// Whether an end action does anything: only while a problem is active.
pub open spec fn end_applies(v: SessionView) -> bool {
    v.phase is Playing || v.phase is Solved
}

/// The state change of ending the game: the session is over and the
/// countdown is dropped.
pub open spec fn end_view(v: SessionView) -> SessionView {
    if end_applies(v) {
        SessionView { phase: Phase::Ended, timer: None, ..v }
    } else {
        v
    }
}

/// Whether a skip does anything: only while a problem is active.
pub open spec fn skip_applies(v: SessionView) -> bool {
    v.phase is Playing || v.phase is Solved
}

/// Whether the delayed automatic advance, scheduled under `token`, still
/// applies: only straight after a solve, and only if no other transition
/// has run since.
pub open spec fn advance_applies(v: SessionView, token: u64) -> bool {
    v.phase is Solved && token == v.advance_token
}

/// The state change of recording a freshly started countdown.
pub open spec fn countdown_started_view(v: SessionView, handle: u32) -> SessionView {
    SessionView { timer: Some(handle), ..v }
}

/// What the display layer must show after a problem is loaded.
#[derive(Debug)]
pub struct LoadOutcome {
    /// Title of the loaded problem.
    pub title: String,
    /// Its point value, in decimal.
    pub points_text: String,
    /// The stripped rendering of its source, for the target surface.
    pub target_markup: String,
}

/// What follows a start action.
#[derive(Debug)]
pub struct StartOutcome {
    /// A previously recorded countdown that must be cancelled first.
    pub cancel_timer: Option<u32>,
    /// Whether a fresh one-second countdown must be started.
    pub start_countdown: bool,
    /// Markup for the timer surface in zen play: an infinity glyph.
    pub zen_timer_markup: Option<String>,
    /// The score display, reset to zero.
    pub score_text: String,
    /// The first problem of the session.
    pub loaded: LoadOutcome,
}

/// What follows a submitted input.
#[derive(Debug)]
pub enum SubmitOutcome {
    /// The session is not taking input; nothing to do.
    Ignored,
    /// The rendering does not match the target: show it and wait.
    NoMatch {
        /// The stripped rendering of the input, for the live surface.
        out_markup: String,
    },
    /// The rendering matches: show it, disable input, show the new score,
    /// and schedule the automatic advance under the given token.
    Matched {
        /// The stripped rendering of the input, for the live surface.
        out_markup: String,
        /// The new score, in decimal.
        score_text: String,
        /// Token under which the delayed advance must be scheduled.
        advance_token: u64,
    },
}

/// What follows a skip or the delayed automatic advance.
#[derive(Debug)]
pub enum AdvanceOutcome {
    /// Nothing applied; nothing to do.
    Ignored,
    /// A new problem was loaded.
    Loaded(LoadOutcome),
}

/// What follows an end action.
#[derive(Debug)]
pub enum EndOutcome {
    /// The session was not active; nothing to do.
    Ignored,
    /// The session is over: cancel the countdown, show the summary.
    Ended {
        /// The countdown to cancel, if one was recorded.
        cancel_timer: Option<u32>,
        /// The summary line for the ending surface.
        summary_text: String,
    },
}

/// What follows a countdown tick.
#[derive(Debug)]
pub enum TickOutcome {
    /// The tick fell outside timed play; nothing happened.
    Ignored,
    /// The countdown goes on: show the clock text.
    Running {
        /// The remaining time as `MM:SS`.
        timer_text: String,
    },
    /// Time ran out: clear the clock, cancel the countdown, show the
    /// summary.
    Finished {
        /// The cleared clock text.
        timer_text: String,
        /// The countdown to cancel, if one was recorded.
        cancel_timer: Option<u32>,
        /// The summary line for the ending surface.
        summary_text: String,
    },
}

/// What a correct load outcome shows: the fields of problem `i` and the
/// stripped rendering `html` of its source.
pub open spec fn load_outcome_ok(pre: SessionView, i: int, html: Seq<char>, o: LoadOutcome) -> bool {
    &&& o.title@ == pre.problems[i].title
    &&& o.points_text@ == dec_rep(pre.problems[i].points as nat)
    &&& o.target_markup@ == annotation_stripped(html)
}

/// What a correct start outcome holds.
pub open spec fn start_outcome_ok(
    pre: SessionView,
    timed: bool,
    i: int,
    html: Seq<char>,
    o: StartOutcome,
) -> bool {
    &&& o.cancel_timer == pre.timer
    &&& o.start_countdown == timed
    &&& (timed ==> o.zen_timer_markup is None)
    &&& o.score_text@ == dec_rep(0)
    &&& load_outcome_ok(pre, i, html, o.loaded)
}

/// What a correct submit outcome holds, for input rendered to `rendered`.
pub open spec fn submit_outcome_ok(pre: SessionView, rendered: Seq<char>, o: SubmitOutcome) -> bool {
    if !(pre.phase is Playing) {
        o is Ignored
    } else if rendered_matches(pre, rendered) {
        &&& o is Matched
        &&& o->Matched_out_markup@ == annotation_stripped(rendered)
        &&& o->Matched_score_text@ == dec_rep((pre.score + pre.pending_points) as u64 as nat)
        &&& o->Matched_advance_token == pre.advance_token
    } else {
        &&& o is NoMatch
        &&& o->NoMatch_out_markup@ == annotation_stripped(rendered)
    }
}

/// What a correct end outcome holds.
pub open spec fn end_outcome_ok(pre: SessionView, o: EndOutcome) -> bool {
    if end_applies(pre) {
        &&& o is Ended
        &&& o->Ended_cancel_timer == pre.timer
        &&& o->Ended_summary_text@ == summary_text(pre.score as nat)
    } else {
        o is Ignored
    }
}

/// What a correct tick outcome holds.
pub open spec fn tick_outcome_ok(pre: SessionView, o: TickOutcome) -> bool {
    if !tick_fires(pre) {
        o is Ignored
    } else if pre.seconds_remaining == 1 {
        &&& o is Finished
        &&& o->Finished_timer_text@ == Seq::<char>::empty()
        &&& o->Finished_cancel_timer == pre.timer
        &&& o->Finished_summary_text@ == summary_text(pre.score as nat)
    } else {
        &&& o is Running
        &&& o->Running_timer_text@ == clock_text((pre.seconds_remaining - 1) as nat)
    }
}

/// One start step: problem `i` was drawn, and state and outcome follow
/// from it and the real rendering of its source.
pub open spec fn start_step(
    pre: SessionView,
    timed: bool,
    i: int,
    o: StartOutcome,
    post: SessionView,
) -> bool {
    &&& 0 <= i < pre.problems.len()
    &&& post == start_view(pre, timed, i)
    &&& start_outcome_ok(pre, timed, i, target_rendering_of(pre.problems[i].source), o)
}

/// One load step: problem `i` was drawn, and state and outcome follow
/// from it and the real rendering of its source.
pub open spec fn load_step(pre: SessionView, i: int, o: LoadOutcome, post: SessionView) -> bool {
    &&& 0 <= i < pre.problems.len()
    &&& post == load_view(pre, i)
    &&& load_outcome_ok(pre, i, target_rendering_of(pre.problems[i].source), o)
}

/// Relies on `rand::random_range`: returns a value of the given range;
/// panics on an empty range, which the `requires` rules out. The draw
/// depends on chance, so only the bound is stated.
#[verifier::external_body]
fn pick_index(n: usize) -> (r: usize)
    requires
        n > 0,
    ensures
        r < n,
{
    rand::random_range(0..n)
}

/// The game session: all mutable state of one run.
pub struct Session {
    problems: Vec<Problem>,
    phase: Phase,
    score: u64,
    pending_points: u64,
    timed: bool,
    seconds_remaining: u64,
    timer: Option<u32>,
    current: usize,
    target: String,
    advance_token: u64,
}

impl View for Session {
    type V = SessionView;

    closed spec fn view(&self) -> SessionView {
        SessionView {
            problems: catalog_view(self.problems@),
            phase: self.phase,
            score: self.score,
            pending_points: self.pending_points,
            timed: self.timed,
            seconds_remaining: self.seconds_remaining,
            timer: self.timer,
            current: self.current as int,
            target: self.target@,
            advance_token: self.advance_token,
        }
    }
}

impl Session {
    /// A fresh, idle session over the given problem catalog.
    pub fn new(problems: Vec<Problem>) -> (r: Session)
        requires
            problems@.len() > 0,
        ensures
            r@ == initial_view(catalog_view(problems@)),
            wf(r@),
    {
        let ghost pv = catalog_view(problems@);
        let s = Session {
            problems,
            phase: Phase::Idle,
            score: 0,
            pending_points: 0,
            timed: false,
            seconds_remaining: 0,
            timer: None,
            current: 0,
            target: String::new(),
            advance_token: 0,
        };
        proof {
            assert(s@ =~= initial_view(pv));
        }
        s
    }

    /// Makes problem `pick` current: strips the given rendering of its
    /// source into the comparison target and reports the display values.
    fn load_with(&mut self, pick: usize, html: String) -> (r: LoadOutcome)
        requires
            wf(old(self)@),
            pick < old(self)@.problems.len(),
            old(self)@.advance_token < u64::MAX,
            old(self)@.timed ==> old(self)@.seconds_remaining > 0,
        ensures
            final(self)@ == load_applied_view(old(self)@, pick as int, html@),
            wf(final(self)@),
            load_outcome_ok(old(self)@, pick as int, html@, r),
    {
        let stripped = strip_annotations(html.as_str());
        self.phase = Phase::Playing;
        self.current = pick;
        self.pending_points = self.problems[pick].points;
        self.target = stripped.clone();
        self.advance_token = self.advance_token + 1;
        let title = self.problems[pick].title.clone();
        let points_text = format_u64(self.problems[pick].points);
        proof {
            assert(old(self)@.problems[pick as int] == self.problems@[pick as int]@);
            assert(self@ =~= load_applied_view(old(self)@, pick as int, html@));
        }
        LoadOutcome { title, points_text, target_markup: stripped }
    }

    /// Applies a start action to already gathered outside results: the
    /// drawn problem index, the rendering of its source (or its failure),
    /// and, for zen play, the rendered infinity glyph (or its failure).
    /// Exact for every value of the outside results: a failed rendering
    /// aborts the transition and leaves the session unchanged.
    pub fn apply_start(
        &mut self,
        timed: bool,
        pick: usize,
        target_html: Option<String>,
        zen_markup: Option<String>,
    ) -> (r: Result<StartOutcome, GameError>)
        requires
            wf(old(self)@),
            pick < old(self)@.problems.len(),
            old(self)@.advance_token < u64::MAX,
        ensures
            wf(final(self)@),
            target_html is None || (!timed && zen_markup is None) ==> {
                &&& r matches Err(GameError::RenderFailed)
                &&& final(self)@ == old(self)@
            },
            target_html matches Some(h) ==> (timed || zen_markup is Some) ==> {
                &&& final(self)@ == start_applied_view(old(self)@, timed, pick as int, h@)
                &&& r matches Ok(o)
                &&& start_outcome_ok(old(self)@, timed, pick as int, h@, o)
                &&& (!timed ==> o.zen_timer_markup == zen_markup)
            },
    {
        let h = match target_html {
            None => { return Err(GameError::RenderFailed); },
            Some(h) => h,
        };
        if !timed && zen_markup.is_none() {
            return Err(GameError::RenderFailed);
        }
        self.score = 0;
        self.timed = timed;
        self.seconds_remaining = if timed { INITIAL_SECONDS } else { 0 };
        let cancel = self.timer;
        self.timer = None;
        let ghost mid = self@;
        let ghost h_view = h@;
        proof {
            assert(mid =~= (SessionView {
                score: 0,
                timed: timed,
                seconds_remaining: if timed { INITIAL_SECONDS as u64 } else { 0 },
                timer: None,
                ..old(self)@
            }));
        }
        let loaded = self.load_with(pick, h);
        let zen_out = if timed { None } else { zen_markup };
        let score_text = format_u64(0);
        proof {
            assert(self@ =~= start_applied_view(old(self)@, timed, pick as int, h_view));
        }
        Ok(StartOutcome {
            cancel_timer: cancel,
            start_countdown: timed,
            zen_timer_markup: zen_out,
            score_text,
            loaded,
        })
    }

    /// Starts a session, timed or zen: draws the first problem at random,
    /// renders its source, resets the score, and surrenders any previous
    /// countdown for cancellation. In zen play the outcome carries the
    /// infinity glyph for the timer surface; in timed play the display
    /// layer must start a one-second countdown and report its handle
    /// through [`Session::countdown_started`].
    pub fn start(&mut self, timed: bool) -> (r: Result<StartOutcome, GameError>)
        requires
            wf(old(self)@),
            old(self)@.advance_token < u64::MAX,
        ensures
            wf(final(self)@),
            r matches Err(e) ==> e == GameError::RenderFailed && final(self)@ == old(self)@,
            r matches Ok(o) ==> exists|i: int| start_step(old(self)@, timed, i, o, final(self)@),
            r matches Ok(o) ==> !timed ==> (o.zen_timer_markup matches Some(m) && m@
                == infinity_markup()),
    {
        let pick = pick_index(self.problems.len());
        let target_html = render_display_strict(self.problems[pick].source.as_str());
        let zen_markup = if timed {
            None
        } else {
            render_inline_plain("\\infty")
        };
        let r = self.apply_start(timed, pick, target_html, zen_markup);
        proof {
            if r is Ok {
                let o = r->Ok_0;
                assert(start_step(old(self)@, timed, pick as int, o, self@));
            }
        }
        r
    }

    /// Records the handle of the countdown the display layer just
    /// started, so that a later transition can cancel it.
    pub fn countdown_started(&mut self, handle: u32)
        requires
            wf(old(self)@),
            old(self)@.timed,
            old(self)@.phase is Playing,
            old(self)@.timer is None,
        ensures
            wf(final(self)@),
            final(self)@ == countdown_started_view(old(self)@, handle),
    {
        self.timer = Some(handle);
        proof {
            assert(self@ =~= countdown_started_view(old(self)@, handle));
        }
    }

    /// Applies a submission whose input rendered to `rendered` (or whose
    /// rendering failed). Exact for every value of the outside result: a
    /// failed rendering aborts and changes nothing; otherwise a match
    /// during play scores the pending points, and anything else leaves
    /// the session untouched.
    pub fn apply_submit(&mut self, rendered: Option<String>) -> (r: Result<
        SubmitOutcome,
        GameError,
    >)
        requires
            wf(old(self)@),
            old(self)@.score + old(self)@.pending_points <= u64::MAX,
        ensures
            wf(final(self)@),
            rendered is None ==> {
                &&& r matches Err(GameError::RenderFailed)
                &&& final(self)@ == old(self)@
            },
            rendered matches Some(h) ==> {
                &&& final(self)@ == submit_view(old(self)@, h@)
                &&& r matches Ok(o)
                &&& submit_outcome_ok(old(self)@, h@, o)
            },
    {
        let h = match rendered {
            None => { return Err(GameError::RenderFailed); },
            Some(h) => h,
        };
        if !(self.phase == Phase::Playing) {
            return Ok(SubmitOutcome::Ignored);
        }
        let stripped = strip_annotations(h.as_str());
        let lhs = trim_str(stripped.as_str());
        let rhs = trim_str(self.target.as_str());
        if lhs == rhs {
            self.score = self.score + self.pending_points;
            self.phase = Phase::Solved;
            let score_text = format_u64(self.score);
            proof {
                assert(self@ =~= submit_view(old(self)@, h@));
            }
            Ok(SubmitOutcome::Matched {
                out_markup: stripped,
                score_text,
                advance_token: self.advance_token,
            })
        } else {
            Ok(SubmitOutcome::NoMatch { out_markup: stripped })
        }
    }

    /// Handles one edit of the input surface: renders the typed input
    /// tolerantly (the differential-quotient macro available, malformed
    /// input degrading to a placeholder) and compares the rendering, in
    /// comparison form, with the current target.
    pub fn submit(&mut self, input: &str) -> (r: Result<SubmitOutcome, GameError>)
        requires
            wf(old(self)@),
            old(self)@.score + old(self)@.pending_points <= u64::MAX,
        ensures
            wf(final(self)@),
            r matches Err(e) ==> e == GameError::RenderFailed && final(self)@ == old(self)@,
            r matches Ok(o) ==> {
                &&& final(self)@ == submit_view(old(self)@, input_rendering_of(input@))
                &&& submit_outcome_ok(old(self)@, input_rendering_of(input@), o)
            },
    {
        let rendered = render_display_tolerant(
            input,
            "\\dv",
            "\\frac{\\mathrm{d}#1}{\\mathrm{d}#2}",
        );
        self.apply_submit(rendered)
    }

    /// Applies a skip to already gathered outside results. Exact for
    /// every value of them: outside active play nothing happens; a failed
    /// rendering aborts and changes nothing; otherwise problem `pick` is
    /// loaded and the score stands.
    pub fn apply_skip(&mut self, pick: usize, target_html: Option<String>) -> (r: Result<
        AdvanceOutcome,
        GameError,
    >)
        requires
            wf(old(self)@),
            pick < old(self)@.problems.len(),
            old(self)@.advance_token < u64::MAX,
        ensures
            wf(final(self)@),
            !skip_applies(old(self)@) ==> {
                &&& r matches Ok(AdvanceOutcome::Ignored)
                &&& final(self)@ == old(self)@
            },
            skip_applies(old(self)@) && target_html is None ==> {
                &&& r matches Err(GameError::RenderFailed)
                &&& final(self)@ == old(self)@
            },
            target_html matches Some(h) ==> skip_applies(old(self)@) ==> {
                &&& final(self)@ == load_applied_view(old(self)@, pick as int, h@)
                &&& r matches Ok(AdvanceOutcome::Loaded(l))
                &&& load_outcome_ok(old(self)@, pick as int, h@, l)
            },
    {
        if !(self.phase == Phase::Playing || self.phase == Phase::Solved) {
            return Ok(AdvanceOutcome::Ignored);
        }
        let h = match target_html {
            None => { return Err(GameError::RenderFailed); },
            Some(h) => h,
        };
        let loaded = self.load_with(pick, h);
        Ok(AdvanceOutcome::Loaded(loaded))
    }

    /// Skips the current problem: a new one is drawn and loaded, no
    /// points awarded, whatever the correctness state was. Outside active
    /// play this does nothing.
    pub fn skip(&mut self) -> (r: Result<AdvanceOutcome, GameError>)
        requires
            wf(old(self)@),
            old(self)@.advance_token < u64::MAX,
        ensures
            wf(final(self)@),
            final(self)@.score == old(self)@.score,
            r matches Err(e) ==> e == GameError::RenderFailed && final(self)@ == old(self)@,
            !skip_applies(old(self)@) ==> {
                &&& r matches Ok(AdvanceOutcome::Ignored)
                &&& final(self)@ == old(self)@
            },
            r matches Ok(o) ==> skip_applies(old(self)@) ==> (o matches AdvanceOutcome::Loaded(
                l,
            ) && exists|i: int| load_step(old(self)@, i, l, final(self)@)),
    {
        if !(self.phase == Phase::Playing || self.phase == Phase::Solved) {
            return Ok(AdvanceOutcome::Ignored);
        }
        let pick = pick_index(self.problems.len());
        let target_html = render_display_strict(self.problems[pick].source.as_str());
        let r = self.apply_skip(pick, target_html);
        proof {
            if r is Ok {
                let o = r->Ok_0;
                assert(o matches AdvanceOutcome::Loaded(l) && load_step(
                    old(self)@,
                    pick as int,
                    l,
                    self@,
                ));
            }
        }
        r
    }

    /// Applies the delayed automatic advance to already gathered outside
    /// results. Exact for every value of them: a stale token, or any
    /// phase but straight-after-a-solve, does nothing; a failed rendering
    /// aborts and changes nothing; otherwise problem `pick` is loaded and
    /// the score stands.
    pub fn apply_advance(&mut self, token: u64, pick: usize, target_html: Option<String>) -> (r:
        Result<AdvanceOutcome, GameError>)
        requires
            wf(old(self)@),
            pick < old(self)@.problems.len(),
            old(self)@.advance_token < u64::MAX,
        ensures
            wf(final(self)@),
            !advance_applies(old(self)@, token) ==> {
                &&& r matches Ok(AdvanceOutcome::Ignored)
                &&& final(self)@ == old(self)@
            },
            advance_applies(old(self)@, token) && target_html is None ==> {
                &&& r matches Err(GameError::RenderFailed)
                &&& final(self)@ == old(self)@
            },
            target_html matches Some(h) ==> advance_applies(old(self)@, token) ==> {
                &&& final(self)@ == load_applied_view(old(self)@, pick as int, h@)
                &&& r matches Ok(AdvanceOutcome::Loaded(l))
                &&& load_outcome_ok(old(self)@, pick as int, h@, l)
            },
    {
        if !(self.phase == Phase::Solved && token == self.advance_token) {
            return Ok(AdvanceOutcome::Ignored);
        }
        let h = match target_html {
            None => { return Err(GameError::RenderFailed); },
            Some(h) => h,
        };
        let loaded = self.load_with(pick, h);
        Ok(AdvanceOutcome::Loaded(loaded))
    }

    /// The delayed automatic advance after a solve, guarded against
    /// staleness: it fires only if `token` is still the session's current
    /// advance token and the session still stands where the solve left
    /// it. The score is untouched by the advance itself.
    pub fn auto_advance(&mut self, token: u64) -> (r: Result<AdvanceOutcome, GameError>)
        requires
            wf(old(self)@),
            old(self)@.advance_token < u64::MAX,
        ensures
            wf(final(self)@),
            final(self)@.score == old(self)@.score,
            r matches Err(e) ==> e == GameError::RenderFailed && final(self)@ == old(self)@,
            !advance_applies(old(self)@, token) ==> {
                &&& r matches Ok(AdvanceOutcome::Ignored)
                &&& final(self)@ == old(self)@
            },
            r matches Ok(o) ==> advance_applies(old(self)@, token) ==> (o matches AdvanceOutcome::Loaded(
                l,
            ) && exists|i: int| load_step(old(self)@, i, l, final(self)@)),
    {
        if !(self.phase == Phase::Solved && token == self.advance_token) {
            return Ok(AdvanceOutcome::Ignored);
        }
        let pick = pick_index(self.problems.len());
        let target_html = render_display_strict(self.problems[pick].source.as_str());
        let r = self.apply_advance(token, pick, target_html);
        proof {
            if r is Ok {
                let o = r->Ok_0;
                assert(o matches AdvanceOutcome::Loaded(l) && load_step(
                    old(self)@,
                    pick as int,
                    l,
                    self@,
                ));
            }
        }
        r
    }

    /// One countdown tick. It fires only in timed play while a problem is
    /// active: the remaining seconds go down by one and the clock text is
    /// reported; at zero the session ends, the clock is cleared and the
    /// countdown handle is surrendered for cancellation.
    pub fn tick(&mut self) -> (r: TickOutcome)
        requires
            wf(old(self)@),
        ensures
            wf(final(self)@),
            final(self)@ == tick_view(old(self)@),
            tick_outcome_ok(old(self)@, r),
    {
        if !(self.timed && (self.phase == Phase::Playing || self.phase == Phase::Solved)
            && self.seconds_remaining > 0) {
            return TickOutcome::Ignored;
        }
        self.seconds_remaining = self.seconds_remaining - 1;
        if self.seconds_remaining == 0 {
            self.phase = Phase::Ended;
            let cancel = self.timer;
            self.timer = None;
            let summary = format_summary(self.score);
            proof {
                assert(self@ =~= tick_view(old(self)@));
            }
            TickOutcome::Finished {
                timer_text: String::new(),
                cancel_timer: cancel,
                summary_text: summary,
            }
        } else {
            let timer_text = format_clock(self.seconds_remaining);
            proof {
                assert(self@ =~= tick_view(old(self)@));
            }
            TickOutcome::Running { timer_text }
        }
    }

    /// Ends the game: the session is over, the summary is reported, and
    /// any recorded countdown is surrendered for cancellation. Outside
    /// active play this does nothing.
    pub fn end(&mut self) -> (r: EndOutcome)
        requires
            wf(old(self)@),
        ensures
            wf(final(self)@),
            final(self)@ == end_view(old(self)@),
            end_outcome_ok(old(self)@, r),
    {
        if !(self.phase == Phase::Playing || self.phase == Phase::Solved) {
            return EndOutcome::Ignored;
        }
        self.phase = Phase::Ended;
        let cancel = self.timer;
        self.timer = None;
        let summary = format_summary(self.score);
        proof {
            assert(self@ =~= end_view(old(self)@));
        }
        EndOutcome::Ended { cancel_timer: cancel, summary_text: summary }
    }

    /// Where the session stands.
    pub fn phase(&self) -> (r: Phase)
        ensures
            r == self@.phase,
    {
        self.phase
    }

    /// Points gathered so far.
    pub fn score(&self) -> (r: u64)
        ensures
            r == self@.score,
    {
        self.score
    }

    /// Points the current problem is worth.
    pub fn pending_points(&self) -> (r: u64)
        ensures
            r == self@.pending_points,
    {
        self.pending_points
    }

    /// Whether this run is timed.
    pub fn is_timed(&self) -> (r: bool)
        ensures
            r == self@.timed,
    {
        self.timed
    }

    /// Seconds left in timed play.
    pub fn seconds_remaining(&self) -> (r: u64)
        ensures
            r == self@.seconds_remaining,
    {
        self.seconds_remaining
    }

    /// Handle of the recorded countdown, if any.
    pub fn timer_handle(&self) -> (r: Option<u32>)
        ensures
            r == self@.timer,
    {
        self.timer
    }

    /// The current staleness token for the delayed advance.
    pub fn advance_token(&self) -> (r: u64)
        ensures
            r == self@.advance_token,
    {
        self.advance_token
    }

    /// Index of the current problem.
    pub fn current_index(&self) -> (r: usize)
        ensures
            r == self@.current,
    {
        self.current
    }

    /// How many problems the catalog holds.
    pub fn problem_count(&self) -> (r: usize)
        ensures
            r == self@.problems.len(),
    {
        self.problems.len()
    }

    /// The stored comparison target: the stripped rendering of the
    /// current problem's source.
    pub fn target_markup(&self) -> (r: String)
        ensures
            r@ == self@.target,
    {
        self.target.clone()
    }
}

} // verus!
