use video_backend::encoder::{hls_encode_args, probe_duration_args, thumbnail_extract_args};
use video_backend::models::{Resolution, VideoStatus};
use video_backend::playlist::generate_master_playlist;
use video_backend::profile::{recognized_profiles, ResolutionConfig};
use video_backend::text::{decimal_text, ends_with, join_path, starts_with};

#[test]
fn catalog_has_three_profiles() {
    let c = ResolutionConfig::get_configs();
    assert_eq!(c.len(), 3);
    assert_eq!((c[0].name.as_str(), c[0].width, c[0].height, c[0].video_bitrate, c[0].audio_bitrate), ("360p", 640, 360, 800, 96));
    assert_eq!((c[1].name.as_str(), c[1].width, c[1].height, c[1].video_bitrate, c[1].audio_bitrate), ("720p", 1280, 720, 2500, 128));
    assert_eq!((c[2].name.as_str(), c[2].width, c[2].height, c[2].video_bitrate, c[2].audio_bitrate), ("1080p", 1920, 1080, 5000, 192));
}

#[test]
fn lookup_by_name() {
    let p = ResolutionConfig::get_by_name("1080p").unwrap();
    assert_eq!(p.width, 1920);
    assert!(ResolutionConfig::get_by_name("4k").is_none());
    assert!(ResolutionConfig::get_by_name("").is_none());
}

#[test]
fn recognized_keeps_request_order() {
    let req = vec!["1080p".to_string(), "4k".to_string(), "360p".to_string()];
    let r = recognized_profiles(&req);
    assert_eq!(r.len(), 2);
    assert_eq!(r[0].name, "1080p");
    assert_eq!(r[1].name, "360p");
}

fn res(name: &str, w: u32, h: u32, b: u32) -> Resolution {
    Resolution { name: name.to_string(), width: w, height: h, bitrate: b, segment_path: format!("v/{}", name) }
}

#[test]
fn master_playlist_exact_text() {
    let rs = vec![res("360p", 640, 360, 800), res("720p", 1280, 720, 2500)];
    let text = generate_master_playlist(&rs, "v");
    assert_eq!(
        text,
        "#EXTM3U\n#EXT-X-VERSION:6\n\n\
#EXT-X-STREAM-INF:BANDWIDTH=800000,RESOLUTION=640x360,NAME=\"360p\"\n/segments/v/360p/playlist.m3u8\n\n\
#EXT-X-STREAM-INF:BANDWIDTH=2500000,RESOLUTION=1280x720,NAME=\"720p\"\n/segments/v/720p/playlist.m3u8\n\n"
    );
}

#[test]
fn master_playlist_is_deterministic() {
    let rs = vec![res("720p", 1280, 720, 2500), res("360p", 640, 360, 800)];
    assert_eq!(generate_master_playlist(&rs, "abc"), generate_master_playlist(&rs, "abc"));
}

#[test]
fn master_playlist_empty_is_header() {
    assert_eq!(generate_master_playlist(&vec![], "v"), "#EXTM3U\n#EXT-X-VERSION:6\n\n");
}

#[test]
fn master_playlist_large_bitrate_does_not_wrap() {
    let rs = vec![res("x", 1, 1, u32::MAX)];
    assert!(generate_master_playlist(&rs, "v").contains("BANDWIDTH=4294967295000,"));
}

#[test]
fn decimal_rendering() {
    assert_eq!(decimal_text(0), "0");
    assert_eq!(decimal_text(7), "7");
    assert_eq!(decimal_text(12345), "12345");
    assert_eq!(decimal_text(u64::MAX), "18446744073709551615");
}

#[test]
fn suffix_prefix_and_join() {
    assert!(ends_with("playlist.m3u8", ".m3u8"));
    assert!(!ends_with("m3u8", ".m3u8"));
    assert!(ends_with("x", ""));
    assert!(starts_with("video/mp4", "video/"));
    assert!(!starts_with("image/png", "video/"));
    assert_eq!(join_path("a", "b"), "a/b");
}

#[test]
fn hls_args_template() {
    let p = ResolutionConfig::get_by_name("360p").unwrap();
    let args = hls_encode_args("/w/original", "/w/360p", &p);
    let expected: Vec<&str> = vec![
        "-i", "/w/original", "-c:v", "libvpx-vp9", "-b:v", "800k", "-maxrate", "1600k", "-bufsize",
        "3200k", "-quality", "good", "-speed", "4", "-tile-columns", "2", "-frame-parallel", "1",
        "-auto-alt-ref", "1", "-lag-in-frames", "25", "-vf", "scale=640:360", "-c:a", "libopus",
        "-b:a", "96k", "-f", "hls", "-hls_time", "4", "-hls_list_size", "0", "-hls_segment_type",
        "fmp4", "-hls_segment_filename", "/w/360p/segment_%03d.webm", "-hls_flags",
        "independent_segments", "/w/360p/playlist.m3u8",
    ];
    assert_eq!(args, expected);
}

#[test]
fn probe_and_thumbnail_templates() {
    assert_eq!(probe_duration_args("in"), vec!["-v", "quiet", "-print_format", "json", "-show_format", "in"]);
    assert_eq!(
        thumbnail_extract_args("in", "out.jpg"),
        vec!["-i", "in", "-ss", "00:00:01", "-vframes", "1", "-vf", "scale=320:-1", "-q:v", "2", "out.jpg"]
    );
}

#[test]
fn status_defaults_to_pending() {
    assert_eq!(VideoStatus::default(), VideoStatus::Pending);
}
