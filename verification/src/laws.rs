//! Session-wide laws, proved once and for all over the session's
//! transition functions.

use vstd::prelude::*;
use crate::session::{
    SessionView, wf, submit_view, rendered_matches, tick_view, tick_fires, end_view,
    end_applies, load_applied_view, start_applied_view, countdown_started_view,
};

verus! {

/// Submitting a non-matching rendering never changes the session, the
/// score among its fields, whatever the session was doing.
pub proof fn lemma_nonmatching_submit_no_change(v: SessionView, rendered: Seq<char>)
    requires
        !rendered_matches(v, rendered),
    ensures
        submit_view(v, rendered) == v,
{
}

/// `n` submissions of the same rendering, one after the other.
pub open spec fn submit_n(v: SessionView, rendered: Seq<char>, n: nat) -> SessionView
    decreases n,
{
    if n == 0 {
        v
    } else {
        submit_view(submit_n(v, rendered, (n - 1) as nat), rendered)
    }
}

/// Repeating the same input changes nothing beyond the first submission:
/// any number of submissions of one rendering is one submission. For a
/// non-matching rendering the first already changes nothing, so repeating
/// it any number of times never changes the score.
pub proof fn lemma_submit_idempotent(v: SessionView, rendered: Seq<char>, n: nat)
    requires
        n >= 1,
    ensures
        submit_n(v, rendered, n) == submit_view(v, rendered),
    decreases n,
{
    if n == 1 {
        assert(submit_n(v, rendered, 0) == v);
    } else {
        lemma_submit_idempotent(v, rendered, (n - 1) as nat);
        let w = submit_view(v, rendered);
        if v.phase is Playing && rendered_matches(v, rendered) {
            assert(w.phase is Solved);
            assert(submit_view(w, rendered) == w);
        } else {
            assert(w == v);
        }
    }
}

/// A matching rendering submitted during play moves the session to
/// `Solved` and raises the score by exactly the pending points, touching
/// nothing else; any other rendering leaves the session untouched.
pub proof fn lemma_submit_scores_exactly(v: SessionView, rendered: Seq<char>)
    requires
        v.phase is Playing,
        v.score + v.pending_points <= u64::MAX,
    ensures
        rendered_matches(v, rendered) ==> {
            &&& submit_view(v, rendered).phase is Solved
            &&& submit_view(v, rendered).score == v.score + v.pending_points
            &&& submit_view(v, rendered).pending_points == v.pending_points
            &&& submit_view(v, rendered).timer == v.timer
            &&& submit_view(v, rendered).target == v.target
        },
        !rendered_matches(v, rendered) ==> submit_view(v, rendered) == v,
{
}

/// Loading a problem, by a skip or by the automatic advance, never
/// changes the score, and makes exactly the loaded problem's points
/// pending.
pub proof fn lemma_load_keeps_score_and_pends_points(v: SessionView, i: int, html: Seq<char>)
    requires
        0 <= i < v.problems.len(),
    ensures
        load_applied_view(v, i, html).score == v.score,
        load_applied_view(v, i, html).pending_points == v.problems[i].points,
        load_applied_view(v, i, html).current == i,
{
}

/// `k` countdown ticks, one after the other.
pub open spec fn tick_n(v: SessionView, k: nat) -> SessionView
    decreases k,
{
    if k == 0 {
        v
    } else {
        tick_view(tick_n(v, (k - 1) as nat))
    }
}

/// A timed session in play with `n` seconds left runs through exactly
/// `n` decrementing ticks: after `k < n` of them it is still in play with
/// `n - k` seconds left, and the `n`-th tick ends it.
pub proof fn lemma_countdown_runs_out(v: SessionView, n: nat, k: nat)
    requires
        v.timed,
        v.phase is Playing,
        v.seconds_remaining == n,
        1 <= n,
        k <= n,
    ensures
        k < n ==> {
            &&& tick_n(v, k).phase is Playing
            &&& tick_n(v, k).timed
            &&& tick_n(v, k).seconds_remaining == n - k
        },
        k == n ==> tick_n(v, k).phase is Ended,
    decreases k,
{
    if k > 0 {
        lemma_countdown_runs_out(v, n, (k - 1) as nat);
    }
}

/// In zen play no countdown tick ever fires or changes anything.
pub proof fn lemma_zen_never_ticks(v: SessionView)
    requires
        !v.timed,
    ensures
        !tick_fires(v),
        tick_view(v) == v,
{
}

/// Ending the game cancels the countdown for good: the ended session
/// holds no timer, no tick fires on it, and no tick changes it.
pub proof fn lemma_end_stops_ticks(v: SessionView)
    requires
        wf(v),
    ensures
        end_view(v).timer is None,
        !tick_fires(end_view(v)),
        tick_view(end_view(v)) == end_view(v),
{
    if end_applies(v) {
    } else {
        assert(v.phase is Idle || v.phase is Ended);
    }
}

/// Starting a session while a countdown is active leaves exactly one
/// countdown: the start step drops the old handle (the start outcome
/// surrenders it for cancellation), and recording the fresh countdown
/// installs the new handle alone.
pub proof fn lemma_restart_leaves_one_countdown(
    v: SessionView,
    i: int,
    html: Seq<char>,
    fresh: u32,
)
    ensures
        start_applied_view(v, true, i, html).timer is None,
        countdown_started_view(start_applied_view(v, true, i, html), fresh).timer == Some(fresh),
{
}

} // verus!
