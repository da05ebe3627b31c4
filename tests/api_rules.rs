use video_backend::api::{deletion_plan, plan_upload, streaming_url, thumbnail_url, ListVideosQuery,
    UpdateVideoRequest, UploadError, UploadForm};
use video_backend::error::AppError;
use video_backend::models::{Resolution, VideoStatus};
use video_backend::publish::{content_type_for, upload_target, BucketClass, StorageLayout};
use video_backend::worker::{Backoff, PollResult};

fn form(title: Option<&str>, filename: Option<&str>, ct: Option<&str>, has_file: bool) -> UploadForm {
    UploadForm {
        title: title.map(|s| s.to_string()),
        description: Some("d".to_string()),
        filename: filename.map(|s| s.to_string()),
        content_type: ct.map(|s| s.to_string()),
        has_file,
    }
}

#[test]
fn upload_without_file_is_refused() {
    assert_eq!(plan_upload(&form(None, Some("a.mp4"), Some("video/mp4"), false), 1).unwrap_err(), UploadError::NoFile);
}

#[test]
fn upload_without_filename_is_refused() {
    assert_eq!(plan_upload(&form(None, None, Some("video/mp4"), true), 1).unwrap_err(), UploadError::NoFilename);
}

#[test]
fn upload_of_non_video_is_refused() {
    assert_eq!(plan_upload(&form(None, Some("a.png"), Some("image/png"), true), 1).unwrap_err(), UploadError::NotVideo);
    assert_eq!(plan_upload(&form(None, Some("a.bin"), None, true), 1).unwrap_err(), UploadError::NotVideo);
    assert_eq!(UploadError::NotVideo.message(), "File must be a video");
}

#[test]
fn accepted_upload_plan() {
    let p = plan_upload(&form(None, Some("clip.mp4"), Some("video/mp4"), true), 0x1f).unwrap();
    assert_eq!(p.title, "clip.mp4");
    assert_eq!(p.original_path, "00000000-0000-0000-0000-00000000001f/clip.mp4");
    assert_eq!(p.job.original_path, p.original_path);
    assert_eq!(p.job.video_id, 0x1f);
    assert_eq!(p.job.resolutions, vec!["360p".to_string(), "720p".to_string()]);
    assert_eq!(p.description, Some("d".to_string()));
    let q = plan_upload(&form(Some("T"), Some("clip.mp4"), Some("video/webm"), true), 2).unwrap();
    assert_eq!(q.title, "T");
}

#[test]
fn content_types_by_extension() {
    assert_eq!(content_type_for("playlist.m3u8"), "application/vnd.apple.mpegurl");
    assert_eq!(content_type_for("segment_001.webm"), "video/webm");
    assert_eq!(content_type_for("init.mp4"), "video/mp4");
    assert_eq!(content_type_for("segment_002.m4s"), "video/mp4");
    assert_eq!(content_type_for("notes.txt"), "application/octet-stream");
}

#[test]
fn upload_targets_route_by_role() {
    let t = upload_target("v/360p", "playlist.m3u8");
    assert_eq!(t.key, "v/360p/playlist.m3u8");
    assert_eq!(t.bucket, BucketClass::Manifests);
    let s = upload_target("v/360p", "segment_000.m4s");
    assert_eq!(s.bucket, BucketClass::Segments);
    assert_eq!(s.content_type, "video/mp4");
}

#[test]
fn storage_urls() {
    let l = StorageLayout {
        endpoint: "http://minio:9000".to_string(),
        bucket_videos: "videos".to_string(),
        bucket_segments: "segments".to_string(),
        bucket_manifests: "manifests".to_string(),
    };
    assert_eq!(l.get_streaming_url("v/master.m3u8"), "http://minio:9000/manifests/v/master.m3u8");
    assert_eq!(l.object_url(BucketClass::Originals, "v/a.mp4"), "http://minio:9000/videos/v/a.mp4");
}

#[test]
fn list_query_defaults_and_cap() {
    let q = ListVideosQuery { limit: None, offset: None, status: None };
    assert_eq!((q.page_limit(), q.page_offset()), (20, 0));
    let q = ListVideosQuery { limit: Some(500), offset: Some(40), status: None };
    assert_eq!((q.page_limit(), q.page_offset()), (100, 40));
    let q = ListVideosQuery { limit: Some(7), offset: None, status: None };
    assert_eq!(q.page_limit(), 7);
}

#[test]
fn update_last_write_wins() {
    let r = UpdateVideoRequest { title: Some("new".to_string()), description: None };
    assert_eq!(r.apply(&"old".to_string(), &Some("desc".to_string())), ("new".to_string(), Some("desc".to_string())));
    let r = UpdateVideoRequest { title: None, description: Some("x".to_string()) };
    assert_eq!(r.apply(&"old".to_string(), &None), ("old".to_string(), Some("x".to_string())));
}

#[test]
fn urls_of_a_video() {
    let m = Some("v/master.m3u8".to_string());
    assert_eq!(streaming_url("https://h", VideoStatus::Ready, &m), Some("https://h/manifests/v/master.m3u8".to_string()));
    assert_eq!(streaming_url("https://h", VideoStatus::Processing, &m), None);
    assert_eq!(streaming_url("https://h", VideoStatus::Ready, &None), None);
    assert_eq!(thumbnail_url("", &Some("v/thumbnail.jpg".to_string())), Some("/segments/v/thumbnail.jpg".to_string()));
    assert_eq!(thumbnail_url("", &None), None);
}

#[test]
fn deletion_plan_order() {
    let rs = vec![
        Resolution { name: "360p".into(), width: 640, height: 360, bitrate: 800, segment_path: "v/360p".into() },
        Resolution { name: "720p".into(), width: 1280, height: 720, bitrate: 2500, segment_path: "v/720p".into() },
    ];
    let d = deletion_plan(&Some("v/a.mp4".to_string()), &rs, &Some("v/master.m3u8".to_string()));
    let got: Vec<(BucketClass, String, bool)> = d.into_iter().map(|x| (x.bucket, x.key, x.by_prefix)).collect();
    assert_eq!(got, vec![
        (BucketClass::Originals, "v/a.mp4".to_string(), false),
        (BucketClass::Segments, "v/360p".to_string(), true),
        (BucketClass::Segments, "v/720p".to_string(), true),
        (BucketClass::Manifests, "v/master.m3u8".to_string(), false),
    ]);
    assert!(deletion_plan(&None, &vec![], &None).is_empty());
}

#[test]
fn error_responses() {
    assert_eq!(AppError::NotFound("Video x not found".into()).status_code(), 404);
    assert_eq!(AppError::NotFound("Video x not found".into()).public_message(), "Video x not found");
    assert_eq!(AppError::BadRequest("bad".into()).status_code(), 400);
    assert_eq!(AppError::Database("secret".into()).status_code(), 500);
    assert_eq!(AppError::Database("secret".into()).public_message(), "Database error occurred");
    assert_eq!(AppError::Storage("s".into()).public_message(), "Storage error occurred");
    assert_eq!(AppError::Transcoding("s".into()).public_message(), "Transcoding error occurred");
    assert_eq!(AppError::Internal("s".into()).public_message(), "Internal server error");
    assert_eq!(AppError::Redis("s".into()).public_message(), "Queue error occurred");
}

#[test]
fn worker_pauses() {
    let b = Backoff::new();
    assert_eq!(b.dequeue_wait_seconds, 5);
    assert_eq!(b.pause_after(PollResult::Completed), 0);
    assert_eq!(b.pause_after(PollResult::Empty), 1);
    assert_eq!(b.pause_after(PollResult::Failed), 5);
}
