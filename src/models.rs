//! The records that the pipeline reads and writes.
use vstd::prelude::*;
use crate::profile::Profile;
use crate::text::join;

verus! {

/// Lifecycle of a video record.
#[derive(Debug, Clone, Copy, PartialEq, Eq, Structural)]
pub enum VideoStatus {
    Pending,
    Processing,
    Ready,
    Failed,
}

impl Default for VideoStatus {
    fn default() -> (r: Self)
        ensures
            r == VideoStatus::Pending,
    {
        VideoStatus::Pending
    }
}

/// A resolution that was encoded and published, as a mathematical value.
pub struct ResolutionResult {
    pub name: Seq<char>,
    pub width: u32,
    pub height: u32,
    pub bitrate: u32,
    pub segment_path: Seq<char>,
}

/// A resolution that was encoded and published; `bitrate` is the video
/// bitrate in kbps, `segment_path` the key prefix of its published files.
#[derive(Debug, Clone)]
pub struct Resolution {
    pub name: String,
    pub width: u32,
    pub height: u32,
    pub bitrate: u32,
    pub segment_path: String,
}

impl View for Resolution {
    type V = ResolutionResult;

    open spec fn view(&self) -> ResolutionResult {
        ResolutionResult {
            name: self.name@,
            width: self.width,
            height: self.height,
            bitrate: self.bitrate,
            segment_path: self.segment_path@,
        }
    }
}

impl Resolution {
    /// A copy of this entry.
    pub fn duplicate(&self) -> (r: Resolution)
        ensures
            r@ == self@,
    {
        Resolution {
            name: self.name.clone(),
            width: self.width,
            height: self.height,
            bitrate: self.bitrate,
            segment_path: self.segment_path.clone(),
        }
    }
}

/// The views of a sequence of entries.
pub open spec fn results_of(v: Seq<Resolution>) -> Seq<ResolutionResult> {
    v.map_values(|r: Resolution| r@)
}

/// The entry recorded for `p` once it is published for the video whose
/// identifier text is `video_id`: its files live under `<video_id>/<name>`.
pub open spec fn result_for(p: Profile, video_id: Seq<char>) -> ResolutionResult {
    ResolutionResult {
        name: p.name,
        width: p.width,
        height: p.height,
        bitrate: p.video_bitrate,
        segment_path: join(video_id, p.name),
    }
}

/// The envelope of one transcode request, as it travels on the work queue.
/// `video_id` is the integer value of the video's UUID.
#[derive(Debug, Clone)]
pub struct TranscodeJobMessage {
    pub video_id: u128,
    pub original_path: String,
    pub resolutions: Vec<String>,
}

} // verus!
