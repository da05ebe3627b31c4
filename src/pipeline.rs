//! The per-job state machine of the transcoding worker.
//!
//! One [`JobRun`] drives one envelope from dequeue to its terminal record. The
//! machine never performs work itself: each transition names the next
//! [`Action`] (update the store, download, probe, encode, publish, extract a
//! thumbnail, clean up, report), the runner performs it and feeds back an
//! [`Event`] telling whether it succeeded.
use vstd::prelude::*;
use crate::encoder::{hls_args, probe_args, thumbnail_args, hls_encode_args, probe_duration_args,
    thumbnail_extract_args};
use crate::ids::{uuid_text, video_id_text};
use crate::models::{Resolution, ResolutionResult, TranscodeJobMessage, result_for, results_of};
use crate::playlist::{master_playlist, generate_master_playlist};
use crate::profile::{Profile, ResolutionConfig, profiles_of, recognized, recognized_profiles,
    texts_of};
use crate::text::{join, join_path, concat};

verus! {

/// Where a job run stands.
#[derive(Debug, Clone, Copy, PartialEq, Eq, Structural)]
pub enum Phase {
    MarkingProcessing,
    Downloading,
    Probing,
    Encoding,
    Publishing,
    PublishingManifest,
    Thumbnailing,
    CleaningUp,
    Reporting,
    Finished,
}

/// A job run as a mathematical value. The resolution in progress, while
/// encoding or publishing, is `plan[done.len()]`.
pub struct RunState {
    pub video_id: u128,
    pub source: Seq<char>,
    pub work_dir: Seq<char>,
    pub plan: Seq<Profile>,
    pub phase: Phase,
    pub done: Seq<ResolutionResult>,
    pub failure: Option<Seq<char>>,
    pub manifest: Option<Seq<char>>,
    pub thumbnail: Option<Seq<char>>,
}

/// The terminal record of a job, as a mathematical value.
pub enum Outcome {
    Ready { resolutions: Seq<ResolutionResult>, manifest: Seq<char>, thumbnail: Option<Seq<char>> },
    Failed { message: Seq<char> },
}

/// The next piece of outside work, as a mathematical value.
pub enum ActionView {
    MarkProcessing { video_id: u128 },
    Download { source: Seq<char>, destination: Seq<char> },
    Probe { input: Seq<char>, args: Seq<Seq<char>> },
    Encode { output_dir: Seq<char>, args: Seq<Seq<char>> },
    Publish { directory: Seq<char>, key_prefix: Seq<char> },
    PublishManifest { key: Seq<char>, text: Seq<char> },
    Thumbnail { output: Seq<char>, key: Seq<char>, args: Seq<Seq<char>> },
    Cleanup { directory: Seq<char> },
    Finish { video_id: u128, outcome: Outcome },
    Idle,
}

/// The text of an optional string.
pub open spec fn text_of(o: Option<String>) -> Option<Seq<char>> {
    match o {
        Some(s) => Some(s@),
        None => None,
    }
}

/// The identifier text of the run's video.
pub open spec fn video_text(s: RunState) -> Seq<char> {
    uuid_text(s.video_id)
}

/// The local copy of the source.
pub open spec fn input_path(s: RunState) -> Seq<char> {
    join(s.work_dir, "original"@)
}

/// The local directory that one resolution is encoded into.
pub open spec fn output_dir(s: RunState, p: Profile) -> Seq<char> {
    join(s.work_dir, p.name)
}

/// The local file of the thumbnail.
pub open spec fn thumbnail_file(s: RunState) -> Seq<char> {
    join(s.work_dir, "thumbnail.jpg"@)
}

/// The storage key of a video's master playlist.
pub open spec fn master_key(video_id: Seq<char>) -> Seq<char> {
    video_id + "/master.m3u8"@
}

/// The storage key of a video's thumbnail.
pub open spec fn thumbnail_key(video_id: Seq<char>) -> Seq<char> {
    video_id + "/thumbnail.jpg"@
}

/// The resolution in progress.
pub open spec fn current(s: RunState) -> Profile {
    s.plan[s.done.len() as int]
}

/// The state of a new run for the envelope (`video_id`, `source`,
/// `requested`), working under `temp_dir`.
pub open spec fn start_state(
    video_id: u128,
    source: Seq<char>,
    requested: Seq<Seq<char>>,
    temp_dir: Seq<char>,
) -> RunState {
    RunState {
        video_id,
        source,
        work_dir: join(temp_dir, uuid_text(video_id)),
        plan: recognized(requested),
        phase: Phase::MarkingProcessing,
        done: seq![],
        failure: None,
        manifest: None,
        thumbnail: None,
    }
}

/// The run aborted with `message`: only cleanup and the report remain.
pub open spec fn abort(s: RunState, message: Seq<char>) -> RunState {
    RunState { phase: Phase::CleaningUp, failure: Some(message), ..s }
}

/// The transition on the outcome `e` of the current action: `None` when it
/// succeeded, `Some(detail)` when it failed.
pub open spec fn next(s: RunState, e: Option<Seq<char>>) -> RunState {
    match s.phase {
        Phase::MarkingProcessing => RunState { phase: Phase::Downloading, ..s },
        Phase::Downloading => match e {
            None => RunState { phase: Phase::Probing, ..s },
            Some(m) => abort(s, "downloading the source failed: "@ + m),
        },
        Phase::Probing => if s.plan.len() == 0 {
            abort(s, "no requested resolution is in the catalog"@)
        } else {
            RunState { phase: Phase::Encoding, ..s }
        },
        Phase::Encoding => match e {
            None => RunState { phase: Phase::Publishing, ..s },
            Some(m) => abort(s, "encoding "@ + current(s).name + " failed: "@ + m),
        },
        Phase::Publishing => match e {
            None => {
                let done = s.done.push(result_for(current(s), video_text(s)));
                RunState {
                    phase: if done.len() < s.plan.len() {
                        Phase::Encoding
                    } else {
                        Phase::PublishingManifest
                    },
                    done,
                    ..s
                }
            },
            Some(m) => abort(s, "publishing "@ + current(s).name + " failed: "@ + m),
        },
        Phase::PublishingManifest => match e {
            None => RunState {
                phase: Phase::Thumbnailing,
                manifest: Some(master_key(video_text(s))),
                ..s
            },
            Some(m) => abort(s, "publishing the master playlist failed: "@ + m),
        },
        Phase::Thumbnailing => RunState {
            phase: Phase::CleaningUp,
            thumbnail: if e is None {
                Some(thumbnail_key(video_text(s)))
            } else {
                None
            },
            ..s
        },
        Phase::CleaningUp => RunState { phase: Phase::Reporting, ..s },
        Phase::Reporting => RunState { phase: Phase::Finished, ..s },
        Phase::Finished => s,
    }
}

/// The terminal record that a run reports.
pub open spec fn outcome(s: RunState) -> Outcome {
    match s.failure {
        Some(m) => Outcome::Failed { message: m },
        None => Outcome::Ready {
            resolutions: s.done,
            manifest: master_key(video_text(s)),
            thumbnail: s.thumbnail,
        },
    }
}

/// The action that a state asks for.
pub open spec fn action_for(s: RunState) -> ActionView {
    match s.phase {
        Phase::MarkingProcessing => ActionView::MarkProcessing { video_id: s.video_id },
        Phase::Downloading => ActionView::Download { source: s.source, destination: input_path(s) },
        Phase::Probing => ActionView::Probe { input: input_path(s), args: probe_args(input_path(s)) },
        Phase::Encoding => ActionView::Encode {
            output_dir: output_dir(s, current(s)),
            args: hls_args(input_path(s), output_dir(s, current(s)), current(s)),
        },
        Phase::Publishing => ActionView::Publish {
            directory: output_dir(s, current(s)),
            key_prefix: join(video_text(s), current(s).name),
        },
        Phase::PublishingManifest => ActionView::PublishManifest {
            key: master_key(video_text(s)),
            text: master_playlist(s.done, video_text(s)),
        },
        Phase::Thumbnailing => ActionView::Thumbnail {
            output: thumbnail_file(s),
            key: thumbnail_key(video_text(s)),
            args: thumbnail_args(input_path(s), thumbnail_file(s)),
        },
        Phase::CleaningUp => ActionView::Cleanup { directory: s.work_dir },
        Phase::Reporting => ActionView::Finish { video_id: s.video_id, outcome: outcome(s) },
        Phase::Finished => ActionView::Idle,
    }
}

/// What holds of every state that a run reaches.
pub open spec fn run_inv(s: RunState) -> bool {
    &&& s.done.len() <= s.plan.len()
    &&& forall|i: int|
        0 <= i < s.done.len() ==> #[trigger] s.done[i] == result_for(s.plan[i], video_text(s))
    &&& match s.phase {
        Phase::MarkingProcessing | Phase::Downloading | Phase::Probing => {
            &&& s.done.len() == 0
            &&& s.failure is None
            &&& s.manifest is None
            &&& s.thumbnail is None
        },
        Phase::Encoding | Phase::Publishing => {
            &&& s.done.len() < s.plan.len()
            &&& s.failure is None
            &&& s.manifest is None
            &&& s.thumbnail is None
        },
        Phase::PublishingManifest | Phase::Thumbnailing => {
            &&& s.done.len() == s.plan.len()
            &&& s.plan.len() >= 1
            &&& s.failure is None
            &&& s.thumbnail is None
            &&& (s.phase == Phase::PublishingManifest ==> s.manifest is None)
            &&& (s.phase == Phase::Thumbnailing ==> s.manifest == Some(
                master_key(video_text(s)),
            ))
        },
        Phase::CleaningUp | Phase::Reporting | Phase::Finished => {
            &&& s.failure is None ==> {
                &&& s.done.len() == s.plan.len()
                &&& s.plan.len() >= 1
                &&& s.manifest == Some(master_key(video_text(s)))
            }
            &&& s.failure matches Some(m) ==> m.len() > 0
        },
    }
}

/// Every transition keeps the run invariant: accumulated resolutions match the
/// plan in order, a run on its way to `ready` has published every planned
/// resolution and its master playlist, and an aborted run carries a
/// non-empty error description.
pub proof fn step_preserves_invariant(s: RunState, e: Option<Seq<char>>)
    requires
        run_inv(s),
    ensures
        run_inv(next(s, e)),
{
    reveal_strlit("downloading the source failed: ");
    reveal_strlit("no requested resolution is in the catalog");
    reveal_strlit("encoding ");
    reveal_strlit("publishing ");
    reveal_strlit("publishing the master playlist failed: ");
    let t = next(s, e);
    if s.phase == Phase::Publishing && e is None {
        assert forall|i: int| 0 <= i < t.done.len() implies #[trigger] t.done[i] == result_for(
            t.plan[i],
            video_text(t),
        ) by {
            if i < s.done.len() {
                assert(t.done[i] == s.done[i]);
            }
        }
    }
}

/// The state a new run starts in satisfies the run invariant.
pub proof fn start_satisfies_invariant(
    video_id: u128,
    source: Seq<char>,
    requested: Seq<Seq<char>>,
    temp_dir: Seq<char>,
)
    ensures
        run_inv(start_state(video_id, source, requested, temp_dir)),
{
}

/// The outcome of the last action handed out.
#[derive(Debug, Clone)]
pub enum Event {
    Succeeded,
    Failed(String),
}

impl View for Event {
    type V = Option<Seq<char>>;

    open spec fn view(&self) -> Option<Seq<char>> {
        match self {
            Event::Succeeded => None,
            Event::Failed(m) => Some(m@),
        }
    }
}

/// The terminal update of a video record.
#[derive(Debug, Clone)]
pub enum TerminalUpdate {
    Ready { resolutions: Vec<Resolution>, manifest_path: String, thumbnail_path: Option<String> },
    Failed { error_message: String },
}

impl View for TerminalUpdate {
    type V = Outcome;

    open spec fn view(&self) -> Outcome {
        match self {
            TerminalUpdate::Ready { resolutions, manifest_path, thumbnail_path } => Outcome::Ready {
                resolutions: results_of(resolutions@),
                manifest: manifest_path@,
                thumbnail: text_of(*thumbnail_path),
            },
            TerminalUpdate::Failed { error_message } => Outcome::Failed {
                message: error_message@,
            },
        }
    }
}

/// The next piece of outside work of a run.
#[derive(Debug, Clone)]
pub enum Action {
    /// Set the record's status to `processing`.
    MarkProcessing { video_id: u128 },
    /// Fetch the original from storage into a local file.
    Download { source: String, destination: String },
    /// Run the prober and record the duration (best effort).
    Probe { input: String, args: Vec<String> },
    /// Create `output_dir` and run the encoder.
    Encode { output_dir: String, args: Vec<String> },
    /// Upload every regular file directly under `directory`.
    Publish { directory: String, key_prefix: String },
    /// Upload the master playlist.
    PublishManifest { key: String, text: String },
    /// Run the encoder to extract a thumbnail, then upload it.
    Thumbnail { output: String, key: String, args: Vec<String> },
    /// Remove the local working directory.
    Cleanup { directory: String },
    /// Write the terminal record.
    Finish { video_id: u128, update: TerminalUpdate },
    /// Nothing is left to do.
    Idle,
}

impl View for Action {
    type V = ActionView;

    open spec fn view(&self) -> ActionView {
        match self {
            Action::MarkProcessing { video_id } => ActionView::MarkProcessing { video_id: *video_id },
            Action::Download { source, destination } => ActionView::Download {
                source: source@,
                destination: destination@,
            },
            Action::Probe { input, args } => ActionView::Probe {
                input: input@,
                args: texts_of(args@),
            },
            Action::Encode { output_dir, args } => ActionView::Encode {
                output_dir: output_dir@,
                args: texts_of(args@),
            },
            Action::Publish { directory, key_prefix } => ActionView::Publish {
                directory: directory@,
                key_prefix: key_prefix@,
            },
            Action::PublishManifest { key, text } => ActionView::PublishManifest {
                key: key@,
                text: text@,
            },
            Action::Thumbnail { output, key, args } => ActionView::Thumbnail {
                output: output@,
                key: key@,
                args: texts_of(args@),
            },
            Action::Cleanup { directory } => ActionView::Cleanup { directory: directory@ },
            Action::Finish { video_id, update } => ActionView::Finish {
                video_id: *video_id,
                outcome: update@,
            },
            Action::Idle => ActionView::Idle,
        }
    }
}

/// One job in flight.
pub struct JobRun {
    video_id: u128,
    video_text: String,
    source: String,
    work_dir: String,
    plan: Vec<ResolutionConfig>,
    phase: Phase,
    done: Vec<Resolution>,
    failure: Option<String>,
    manifest: Option<String>,
    thumbnail: Option<String>,
}

impl View for JobRun {
    type V = RunState;

    closed spec fn view(&self) -> RunState {
        RunState {
            video_id: self.video_id,
            source: self.source@,
            work_dir: self.work_dir@,
            plan: profiles_of(self.plan@),
            phase: self.phase,
            done: results_of(self.done@),
            failure: text_of(self.failure),
            manifest: text_of(self.manifest),
            thumbnail: text_of(self.thumbnail),
        }
    }
}

fn copy_text(o: &Option<String>) -> (r: Option<String>)
    ensures
        text_of(r) == text_of(*o),
{
    match o {
        Some(s) => Some(s.clone()),
        None => None,
    }
}

fn copy_results(v: &Vec<Resolution>) -> (r: Vec<Resolution>)
    ensures
        results_of(r@) == results_of(v@),
{
    let mut out: Vec<Resolution> = Vec::new();
    let mut i: usize = 0;
    while i < v.len()
        invariant
            i <= v@.len(),
            results_of(out@) =~= results_of(v@.take(i as int)),
        decreases v.len() - i,
    {
        out.push(v[i].duplicate());
        assert(results_of(v@.take(i + 1)) =~= results_of(v@.take(i as int)).push(v@[i as int]@));
        i = i + 1;
    }
    assert(v@.take(i as int) =~= v@);
    out
}

impl JobRun {
    /// The run is well formed.
    pub closed spec fn wf(&self) -> bool {
        &&& self.video_text@ == uuid_text(self.video_id)
        &&& run_inv(self@)
    }

    /// A new run for `job`, working in a directory named after the video
    /// under `temp_dir`. Only the catalog profiles among the requested names
    /// are planned, in request order.
    pub fn start(job: &TranscodeJobMessage, temp_dir: &str) -> (r: JobRun)
        ensures
            r.wf(),
            r@ == start_state(
                job.video_id,
                job.original_path@,
                texts_of(job.resolutions@),
                temp_dir@,
            ),
    {
        let video_text = video_id_text(job.video_id);
        let work_dir = join_path(temp_dir, video_text.as_str());
        let run = JobRun {
            video_id: job.video_id,
            video_text,
            source: job.original_path.clone(),
            work_dir,
            plan: recognized_profiles(&job.resolutions),
            phase: Phase::MarkingProcessing,
            done: Vec::new(),
            failure: None,
            manifest: None,
            thumbnail: None,
        };
        assert(results_of(run.done@) =~= seq![]);
        run
    }

    /// Where the run stands.
    pub fn phase(&self) -> (r: Phase)
        ensures
            r == self@.phase,
    {
        self.phase
    }

    /// The action that the current state asks for.
    pub fn action(&self) -> (r: Action)
        requires
            self.wf(),
        ensures
            r@ == action_for(self@),
    {
        let input = join_path(self.work_dir.as_str(), "original");
        match self.phase {
            Phase::MarkingProcessing => Action::MarkProcessing { video_id: self.video_id },
            Phase::Downloading => Action::Download {
                source: self.source.clone(),
                destination: input,
            },
            Phase::Probing => {
                let args = probe_duration_args(input.as_str());
                Action::Probe { input, args }
            },
            Phase::Encoding => {
                let p = &self.plan[self.done.len()];
                assert(p@ == current(self@));
                let dir = join_path(self.work_dir.as_str(), p.name.as_str());
                let args = hls_encode_args(input.as_str(), dir.as_str(), p);
                Action::Encode { output_dir: dir, args }
            },
            Phase::Publishing => {
                let p = &self.plan[self.done.len()];
                assert(p@ == current(self@));
                Action::Publish {
                    directory: join_path(self.work_dir.as_str(), p.name.as_str()),
                    key_prefix: join_path(self.video_text.as_str(), p.name.as_str()),
                }
            },
            Phase::PublishingManifest => Action::PublishManifest {
                key: concat(self.video_text.as_str(), "/master.m3u8"),
                text: generate_master_playlist(&self.done, self.video_text.as_str()),
            },
            Phase::Thumbnailing => {
                let output = join_path(self.work_dir.as_str(), "thumbnail.jpg");
                let args = thumbnail_extract_args(input.as_str(), output.as_str());
                Action::Thumbnail {
                    output,
                    key: concat(self.video_text.as_str(), "/thumbnail.jpg"),
                    args,
                }
            },
            Phase::CleaningUp => Action::Cleanup { directory: self.work_dir.clone() },
            Phase::Reporting => {
                let update = match &self.failure {
                    Some(m) => TerminalUpdate::Failed { error_message: m.clone() },
                    None => TerminalUpdate::Ready {
                        resolutions: copy_results(&self.done),
                        manifest_path: concat(self.video_text.as_str(), "/master.m3u8"),
                        thumbnail_path: copy_text(&self.thumbnail),
                    },
                };
                Action::Finish { video_id: self.video_id, update }
            },
            Phase::Finished => Action::Idle,
        }
    }

    fn abort_with(&mut self, message: String)
        requires
            old(self).wf(),
            message@.len() > 0,
        ensures
            final(self).video_text == old(self).video_text,
            final(self).video_id == old(self).video_id,
            final(self)@ == abort(old(self)@, message@),
    {
        self.failure = Some(message);
        self.phase = Phase::CleaningUp;
    }

    /// Applies the outcome of the last action and returns the next action.
    pub fn advance(&mut self, event: &Event) -> (r: Action)
        requires
            old(self).wf(),
        ensures
            final(self).wf(),
            final(self)@ == next(old(self)@, event@),
            r@ == action_for(final(self)@),
    {
        proof {
            step_preserves_invariant(self@, event@);
            reveal_strlit("downloading the source failed: ");
            reveal_strlit("no requested resolution is in the catalog");
            reveal_strlit("encoding ");
            reveal_strlit("publishing ");
            reveal_strlit("publishing the master playlist failed: ");
        }
        match self.phase {
            Phase::MarkingProcessing => {
                self.phase = Phase::Downloading;
            },
            Phase::Downloading => match event {
                Event::Succeeded => {
                    self.phase = Phase::Probing;
                },
                Event::Failed(m) => {
                    self.abort_with(concat("downloading the source failed: ", m.as_str()));
                },
            },
            Phase::Probing => {
                if self.plan.len() == 0 {
                    self.abort_with(String::from_str("no requested resolution is in the catalog"));
                } else {
                    self.phase = Phase::Encoding;
                }
            },
            Phase::Encoding => match event {
                Event::Succeeded => {
                    self.phase = Phase::Publishing;
                },
                Event::Failed(m) => {
                    let mut msg = concat("encoding ", self.plan[self.done.len()].name.as_str());
                    msg.append(" failed: ");
                    msg.append(m.as_str());
                    self.abort_with(msg);
                },
            },
            Phase::Publishing => match event {
                Event::Succeeded => {
                    let ghost old_done = results_of(self.done@);
                    let p = &self.plan[self.done.len()];
                    assert(p@ == current(self@));
                    let entry = Resolution {
                        name: p.name.clone(),
                        width: p.width,
                        height: p.height,
                        bitrate: p.video_bitrate,
                        segment_path: join_path(self.video_text.as_str(), p.name.as_str()),
                    };
                    self.done.push(entry);
                    assert(results_of(self.done@) =~= old_done.push(entry@));
                    if self.done.len() < self.plan.len() {
                        self.phase = Phase::Encoding;
                    } else {
                        self.phase = Phase::PublishingManifest;
                    }
                },
                Event::Failed(m) => {
                    let mut msg = concat("publishing ", self.plan[self.done.len()].name.as_str());
                    msg.append(" failed: ");
                    msg.append(m.as_str());
                    self.abort_with(msg);
                },
            },
            Phase::PublishingManifest => match event {
                Event::Succeeded => {
                    self.manifest = Some(concat(self.video_text.as_str(), "/master.m3u8"));
                    self.phase = Phase::Thumbnailing;
                },
                Event::Failed(m) => {
                    self.abort_with(
                        concat("publishing the master playlist failed: ", m.as_str()),
                    );
                },
            },
            Phase::Thumbnailing => {
                match event {
                    Event::Succeeded => {
                        self.thumbnail = Some(concat(self.video_text.as_str(), "/thumbnail.jpg"));
                    },
                    Event::Failed(_) => {
                        self.thumbnail = None;
                    },
                }
                self.phase = Phase::CleaningUp;
            },
            Phase::CleaningUp => {
                self.phase = Phase::Reporting;
            },
            Phase::Reporting => {
                self.phase = Phase::Finished;
            },
            Phase::Finished => {},
        }
        self.action()
    }
}

/// The worker's decision on what a dequeue returned: no envelope starts no
/// run and asks for no action, so no record is touched; an envelope starts a
/// run whose first action marks its record `processing`.
pub fn accept_job(job: Option<TranscodeJobMessage>, temp_dir: &str) -> (r: Option<(JobRun, Action)>)
    ensures
        job is None <==> r is None,
        match (job, r) {
            (Some(j), Some((run, a))) => {
                &&& run.wf()
                &&& run@ == start_state(
                    j.video_id,
                    j.original_path@,
                    texts_of(j.resolutions@),
                    temp_dir@,
                )
                &&& a@ == ActionView::MarkProcessing { video_id: j.video_id }
            },
            _ => true,
        },
{
    match job {
        None => None,
        Some(j) => {
            let run = JobRun::start(&j, temp_dir);
            let a = run.action();
            Some((run, a))
        },
    }
}

} // verus!
