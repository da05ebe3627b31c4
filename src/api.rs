//! The rules of the HTTP layer: upload validation, listing pages, metadata
//! updates, public URLs, deletion plans and the mapping of errors to responses.
use vstd::prelude::*;
use crate::ids::{uuid_text, video_id_text};
use crate::models::{Resolution, TranscodeJobMessage, VideoStatus};
use crate::pipeline::text_of;
use crate::profile::texts_of;
use crate::publish::BucketClass;
use crate::text::{has_prefix, join, join_path, concat, starts_with};

verus! {

/// The fields of an upload form that the rules read.
#[derive(Debug, Clone)]
pub struct UploadForm {
    pub title: Option<String>,
    pub description: Option<String>,
    pub filename: Option<String>,
    pub content_type: Option<String>,
    pub has_file: bool,
}

/// Why an upload is refused.
#[derive(Debug, Clone, Copy, PartialEq, Eq, Structural)]
pub enum UploadError {
    NoFile,
    NoFilename,
    NotVideo,
}

impl UploadError {
    /// The message shown to the client.
    pub fn message(&self) -> (r: String)
        ensures
            r@ == match self {
                UploadError::NoFile => "No file uploaded"@,
                UploadError::NoFilename => "No filename provided"@,
                UploadError::NotVideo => "File must be a video"@,
            },
    {
        match self {
            UploadError::NoFile => String::from_str("No file uploaded"),
            UploadError::NoFilename => String::from_str("No filename provided"),
            UploadError::NotVideo => String::from_str("File must be a video"),
        }
    }
}

/// An accepted upload: what to store and the job to enqueue.
#[derive(Debug, Clone)]
pub struct UploadPlan {
    pub title: String,
    pub description: Option<String>,
    pub filename: String,
    pub content_type: String,
    pub original_path: String,
    pub job: TranscodeJobMessage,
}

/// The content type of an upload, `application/octet-stream` when absent.
pub open spec fn upload_content_type(form: UploadForm) -> Seq<char> {
    match form.content_type {
        Some(c) => c@,
        None => "application/octet-stream"@,
    }
}

/// The resolutions requested for every upload.
pub open spec fn default_resolutions() -> Seq<Seq<char>> {
    seq!["360p"@, "720p"@]
}

fn copy_opt(o: &Option<String>) -> (r: Option<String>)
    ensures
        text_of(r) == text_of(*o),
{
    match o {
        Some(s) => Some(s.clone()),
        None => None,
    }
}

/// Validates an upload form for the new video `video_id`. It is refused
/// without a file, then without a file name, then when its content type (by
/// default `application/octet-stream`) does not start with `video/`. An
/// accepted upload is stored at `<video_id>/<filename>`, is titled by the
/// file name when it has no title, and enqueues a job for 360p and 720p.
pub fn plan_upload(form: &UploadForm, video_id: u128) -> (r: Result<UploadPlan, UploadError>)
    ensures
        !form.has_file ==> r == Err::<UploadPlan, UploadError>(UploadError::NoFile),
        form.has_file && form.filename is None ==> r == Err::<UploadPlan, UploadError>(
            UploadError::NoFilename,
        ),
        form.has_file && form.filename is Some && !has_prefix(
            upload_content_type(*form),
            "video/"@,
        ) ==> r == Err::<UploadPlan, UploadError>(UploadError::NotVideo),
        form.has_file && form.filename is Some && has_prefix(upload_content_type(*form), "video/"@)
            ==> r is Ok,
        r matches Ok(p) ==> {
            let filename = form.filename->Some_0@;
            &&& p.filename@ == filename
            &&& p.title@ == match form.title {
                Some(t) => t@,
                None => filename,
            }
            &&& text_of(p.description) == text_of(form.description)
            &&& p.content_type@ == upload_content_type(*form)
            &&& p.original_path@ == join(uuid_text(video_id), filename)
            &&& p.job.video_id == video_id
            &&& p.job.original_path@ == p.original_path@
            &&& texts_of(p.job.resolutions@) == default_resolutions()
        },
{
    if !form.has_file {
        return Err(UploadError::NoFile);
    }
    let filename = match &form.filename {
        Some(f) => f.clone(),
        None => {
            return Err(UploadError::NoFilename);
        },
    };
    let content_type = match &form.content_type {
        Some(c) => c.clone(),
        None => String::from_str("application/octet-stream"),
    };
    if !starts_with(content_type.as_str(), "video/") {
        return Err(UploadError::NotVideo);
    }
    let title = match &form.title {
        Some(t) => t.clone(),
        None => filename.clone(),
    };
    let original_path = join_path(video_id_text(video_id).as_str(), filename.as_str());
    let mut resolutions: Vec<String> = Vec::new();
    resolutions.push(String::from_str("360p"));
    resolutions.push(String::from_str("720p"));
    assert(texts_of(resolutions@) =~= default_resolutions());
    let job = TranscodeJobMessage {
        video_id,
        original_path: original_path.clone(),
        resolutions,
    };
    Ok(UploadPlan {
        title,
        description: copy_opt(&form.description),
        filename,
        content_type,
        original_path,
        job,
    })
}

/// Query parameters for listing videos.
#[derive(Debug, Clone)]
pub struct ListVideosQuery {
    pub limit: Option<i64>,
    pub offset: Option<i64>,
    pub status: Option<String>,
}

impl ListVideosQuery {
    /// The page size: 20 by default, at most 100.
    pub fn page_limit(&self) -> (r: i64)
        ensures
            r == match self.limit {
                Some(l) => if l < 100 {
                    l
                } else {
                    100
                },
                None => 20,
            },
    {
        match self.limit {
            Some(l) => if l < 100 {
                l
            } else {
                100
            },
            None => 20,
        }
    }

    /// The number of videos skipped: 0 by default.
    pub fn page_offset(&self) -> (r: i64)
        ensures
            r == match self.offset {
                Some(o) => o,
                None => 0,
            },
    {
        match self.offset {
            Some(o) => o,
            None => 0,
        }
    }
}

/// Request to update video metadata.
#[derive(Debug, Clone)]
pub struct UpdateVideoRequest {
    pub title: Option<String>,
    pub description: Option<String>,
}

impl UpdateVideoRequest {
    /// The metadata after the update: each field given replaces the stored one.
    pub fn apply(&self, title: &String, description: &Option<String>) -> (r: (
        String,
        Option<String>,
    ))
        ensures
            r.0@ == match self.title {
                Some(t) => t@,
                None => title@,
            },
            text_of(r.1) == match self.description {
                Some(d) => Some(d@),
                None => text_of(*description),
            },
    {
        let t = match &self.title {
            Some(t) => t.clone(),
            None => title.clone(),
        };
        let d = match &self.description {
            Some(d) => Some(d.clone()),
            None => copy_opt(description),
        };
        (t, d)
    }
}

/// The streaming URL of a video: its manifest under `base_url/manifests`,
/// only once the video is ready.
pub fn streaming_url(base_url: &str, status: VideoStatus, manifest_path: &Option<String>) -> (r:
    Option<String>)
    ensures
        text_of(r) == match manifest_path {
            Some(p) => if status == VideoStatus::Ready {
                Some(base_url@ + "/manifests/"@ + p@)
            } else {
                None
            },
            None => None,
        },
{
    match manifest_path {
        Some(p) => if status == VideoStatus::Ready {
            let mut u = concat(base_url, "/manifests/");
            u.append(p.as_str());
            Some(u)
        } else {
            None
        },
        None => None,
    }
}

/// The thumbnail URL of a video: its thumbnail under `base_url/segments`.
pub fn thumbnail_url(base_url: &str, thumbnail_path: &Option<String>) -> (r: Option<String>)
    ensures
        text_of(r) == match thumbnail_path {
            Some(p) => Some(base_url@ + "/segments/"@ + p@),
            None => None,
        },
{
    match thumbnail_path {
        Some(p) => {
            let mut u = concat(base_url, "/segments/");
            u.append(p.as_str());
            Some(u)
        },
        None => None,
    }
}

/// One removal from object storage.
#[derive(Debug, Clone)]
pub struct Deletion {
    pub bucket: BucketClass,
    pub key: String,
    pub by_prefix: bool,
}

/// A removal as a mathematical value: destination, key or prefix, and
/// whether every key under the prefix goes.
pub open spec fn deletion_view(d: Deletion) -> (BucketClass, Seq<char>, bool) {
    (d.bucket, d.key@, d.by_prefix)
}

/// The removals that deleting a video takes, in order: its original, the
/// segments of each resolution by prefix, then its master playlist.
pub open spec fn deletions_for(
    original: Option<Seq<char>>,
    segment_paths: Seq<Seq<char>>,
    manifest: Option<Seq<char>>,
) -> Seq<(BucketClass, Seq<char>, bool)> {
    let first = match original {
        Some(o) => seq![(BucketClass::Originals, o, false)],
        None => seq![],
    };
    let last = match manifest {
        Some(m) => seq![(BucketClass::Manifests, m, false)],
        None => seq![],
    };
    first + segment_paths.map_values(|p: Seq<char>| (BucketClass::Segments, p, true)) + last
}

/// The segment prefixes of a list of resolutions.
pub open spec fn segment_paths_of(v: Seq<Resolution>) -> Seq<Seq<char>> {
    v.map_values(|r: Resolution| r.segment_path@)
}

/// The removals that deleting a video takes.
pub fn deletion_plan(
    original_path: &Option<String>,
    resolutions: &Vec<Resolution>,
    manifest_path: &Option<String>,
) -> (r: Vec<Deletion>)
    ensures
        r@.map_values(|d: Deletion| deletion_view(d)) == deletions_for(
            text_of(*original_path),
            segment_paths_of(resolutions@),
            text_of(*manifest_path),
        ),
{
    let ghost target = deletions_for(
        text_of(*original_path),
        segment_paths_of(resolutions@),
        text_of(*manifest_path),
    );
    let ghost first: Seq<(BucketClass, Seq<char>, bool)> = match text_of(*original_path) {
        Some(o) => seq![(BucketClass::Originals, o, false)],
        None => seq![],
    };
    let ghost mids = segment_paths_of(resolutions@).map_values(
        |p: Seq<char>| (BucketClass::Segments, p, true),
    );
    let mut out: Vec<Deletion> = Vec::new();
    if let Some(o) = original_path {
        out.push(Deletion { bucket: BucketClass::Originals, key: o.clone(), by_prefix: false });
    }
    assert(out@.map_values(|d: Deletion| deletion_view(d)) =~= first);
    let mut i: usize = 0;
    while i < resolutions.len()
        invariant
            i <= resolutions@.len(),
            mids == segment_paths_of(resolutions@).map_values(
                |p: Seq<char>| (BucketClass::Segments, p, true),
            ),
            out@.map_values(|d: Deletion| deletion_view(d)) =~= first + mids.take(i as int),
        decreases resolutions.len() - i,
    {
        let ghost before = out@;
        out.push(
            Deletion {
                bucket: BucketClass::Segments,
                key: resolutions[i].segment_path.clone(),
                by_prefix: true,
            },
        );
        assert(mids.take(i + 1) =~= mids.take(i as int).push(mids[i as int]));
        assert(out@.map_values(|d: Deletion| deletion_view(d)) =~= before.map_values(
            |d: Deletion| deletion_view(d),
        ).push(mids[i as int]));
        i = i + 1;
    }
    assert(mids.take(i as int) =~= mids);
    let ghost before = out@;
    if let Some(m) = manifest_path {
        out.push(Deletion { bucket: BucketClass::Manifests, key: m.clone(), by_prefix: false });
        assert(out@.map_values(|d: Deletion| deletion_view(d)) =~= before.map_values(
            |d: Deletion| deletion_view(d),
        ).push((BucketClass::Manifests, m@, false)));
    }
    assert(out@.map_values(|d: Deletion| deletion_view(d)) =~= target);
    out
}

} // verus!
