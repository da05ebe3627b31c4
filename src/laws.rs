//! What holds of whole job runs.
use vstd::prelude::*;
use crate::ids::uuid_text;
use crate::models::{ResolutionResult, result_for};
use crate::pipeline::{ActionView, Outcome, Phase, RunState, action_for, master_key, next, outcome,
    run_inv, start_state, step_preserves_invariant, thumbnail_key, video_text};
use crate::profile::{Profile, recognized};

verus! {

/// The state reached after `n` actions that all succeeded.
pub open spec fn run_succeeding(s: RunState, n: nat) -> RunState
    decreases n,
{
    if n == 0 {
        s
    } else {
        run_succeeding(next(s, None), (n - 1) as nat)
    }
}

/// The resolutions recorded for a plan that was carried out in full.
pub open spec fn results_for_plan(plan: Seq<Profile>, video_id: Seq<char>) -> Seq<ResolutionResult> {
    plan.map_values(|p: Profile| result_for(p, video_id))
}

proof fn run_succeeding_splits(s: RunState, a: nat, b: nat)
    ensures
        run_succeeding(s, a + b) == run_succeeding(run_succeeding(s, a), b),
    decreases a,
{
    if a > 0 {
        run_succeeding_splits(next(s, None), (a - 1) as nat, b);
        assert((a + b - 1) as nat == ((a - 1) as nat + b) as nat);
    }
}

proof fn encoding_completes(s: RunState, j: nat)
    requires
        run_inv(s),
        s.phase == Phase::Encoding,
        s.done.len() + j == s.plan.len(),
    ensures
        ({
            let t = run_succeeding(s, 2 * j);
            &&& run_inv(t)
            &&& t.phase == Phase::PublishingManifest
            &&& t.video_id == s.video_id
            &&& t.work_dir == s.work_dir
            &&& t.plan == s.plan
        }),
    decreases j,
{
    let s1 = next(s, None);
    let s2 = next(s1, None);
    step_preserves_invariant(s, None);
    step_preserves_invariant(s1, None);
    assert(run_succeeding(s, 2 * j) == run_succeeding(s1, (2 * j - 1) as nat));
    assert(run_succeeding(s1, (2 * j - 1) as nat) == run_succeeding(s2, (2 * j - 2) as nat));
    if j > 1 {
        encoding_completes(s2, (j - 1) as nat);
        assert((2 * j - 2) as nat == 2 * ((j - 1) as nat));
    }
}

/// A run of an envelope that requests at least one catalog resolution, in
/// which every outside action succeeds, reports `ready` with one entry per
/// recognized resolution in request order and the master playlist's location.
pub proof fn successful_run_reports_ready(
    video_id: u128,
    source: Seq<char>,
    requested: Seq<Seq<char>>,
    temp_dir: Seq<char>,
)
    requires
        recognized(requested).len() >= 1,
    ensures
        ({
            let s = run_succeeding(
                start_state(video_id, source, requested, temp_dir),
                2 * recognized(requested).len() + 6,
            );
            &&& s.phase == Phase::Reporting
            &&& action_for(s) == ActionView::Finish {
                video_id,
                outcome: Outcome::Ready {
                    resolutions: results_for_plan(recognized(requested), uuid_text(video_id)),
                    manifest: master_key(uuid_text(video_id)),
                    thumbnail: Some(thumbnail_key(uuid_text(video_id))),
                },
            }
        }),
{
    let k = recognized(requested).len();
    let s0 = start_state(video_id, source, requested, temp_dir);
    let s1 = next(s0, None);
    let s2 = next(s1, None);
    let s3 = next(s2, None);
    step_preserves_invariant(s0, None);
    step_preserves_invariant(s1, None);
    step_preserves_invariant(s2, None);
    assert(run_succeeding(s0, 2 * k + 6) == run_succeeding(s1, (2 * k + 5) as nat));
    assert(run_succeeding(s1, (2 * k + 5) as nat) == run_succeeding(s2, (2 * k + 4) as nat));
    assert(run_succeeding(s2, (2 * k + 4) as nat) == run_succeeding(s3, (2 * k + 3) as nat));
    run_succeeding_splits(s3, 2 * k, 3);
    encoding_completes(s3, k);
    let t = run_succeeding(s3, 2 * k);
    let t1 = next(t, None);
    let t2 = next(t1, None);
    let t3 = next(t2, None);
    step_preserves_invariant(t, None);
    step_preserves_invariant(t1, None);
    step_preserves_invariant(t2, None);
    assert(run_succeeding(t, 3) == run_succeeding(t1, 2));
    assert(run_succeeding(t1, 2) == run_succeeding(t2, 1));
    assert(run_succeeding(t2, 1) == run_succeeding(t3, 0));
    assert(t3.done =~= results_for_plan(recognized(requested), uuid_text(video_id)));
}

/// A failure of the download, of an encode, or of a publication aborts the
/// job: the next action removes the working directory, and the one after it
/// reports `failed` with a non-empty error description and no resolutions.
pub proof fn fatal_failure_fails_job(s: RunState, detail: Seq<char>, later: Option<Seq<char>>)
    requires
        run_inv(s),
        s.phase == Phase::Downloading || s.phase == Phase::Encoding || s.phase == Phase::Publishing
            || s.phase == Phase::PublishingManifest,
    ensures
        action_for(next(s, Some(detail))) == (ActionView::Cleanup { directory: s.work_dir }),
        ({
            let f = next(next(s, Some(detail)), later);
            &&& f.phase == Phase::Reporting
            &&& (outcome(f) is Failed)
            &&& outcome(f)->message.len() > 0
        }),
{
    step_preserves_invariant(s, Some(detail));
}

/// A failed thumbnail never turns a job from `ready` to `failed`: the run
/// reports the same `ready` record as when the thumbnail succeeds, only
/// without a thumbnail location.
pub proof fn thumbnail_failure_keeps_ready(
    s: RunState,
    detail: Seq<char>,
    later: Option<Seq<char>>,
)
    requires
        run_inv(s),
        s.phase == Phase::Thumbnailing,
    ensures
        ({
            let failed = next(next(s, Some(detail)), later);
            let succeeded = next(next(s, None), later);
            &&& failed.phase == Phase::Reporting
            &&& outcome(failed) == Outcome::Ready {
                resolutions: s.done,
                manifest: master_key(video_text(s)),
                thumbnail: None,
            }
            &&& outcome(succeeded) == Outcome::Ready {
                resolutions: s.done,
                manifest: master_key(video_text(s)),
                thumbnail: Some(thumbnail_key(video_text(s))),
            }
        }),
{
}

/// The record that a run reports is consistent: `ready` comes with at least
/// one resolution and the master playlist's location, `failed` with a
/// non-empty error description.
pub proof fn reported_record_is_consistent(s: RunState)
    requires
        run_inv(s),
        s.phase == Phase::Reporting,
    ensures
        match outcome(s) {
            Outcome::Ready { resolutions, manifest, .. } => {
                &&& resolutions.len() >= 1
                &&& manifest == master_key(video_text(s))
            },
            Outcome::Failed { message } => message.len() > 0,
        },
{
}

/// During a run the accumulated resolutions only grow: every transition
/// keeps the entries already recorded.
pub proof fn resolutions_only_grow(s: RunState, e: Option<Seq<char>>)
    requires
        run_inv(s),
    ensures
        next(s, e).done.len() >= s.done.len(),
        next(s, e).done.subrange(0, s.done.len() as int) == s.done,
{
    assert(next(s, e).done.subrange(0, s.done.len() as int) =~= s.done);
}

} // verus!
