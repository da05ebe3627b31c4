//! The fixed invocation templates of the external encoder and prober.
use vstd::prelude::*;
use crate::profile::{Profile, ResolutionConfig, texts_of};
use crate::text::{decimal, decimal_text, join, join_path, concat};

verus! {

/// A bitrate in kbps as the encoder reads it: the decimal number, then `k`.
pub open spec fn kbps(n: nat) -> Seq<char> {
    decimal(n) + "k"@
}

/// The encoder arguments that turn `input` into a segmented stream of
/// profile `p` under `output_dir`: VP9 video at the profile's bitrate (peak
/// twice it, buffer four times it), Opus audio, 4-second segments named
/// `segment_%03d.webm` and a sub-playlist `playlist.m3u8`.
pub open spec fn hls_args(input: Seq<char>, output_dir: Seq<char>, p: Profile) -> Seq<Seq<char>> {
    seq![
        "-i"@, input,
        "-c:v"@, "libvpx-vp9"@,
        "-b:v"@, kbps(p.video_bitrate as nat),
        "-maxrate"@, kbps(p.video_bitrate as nat * 2),
        "-bufsize"@, kbps(p.video_bitrate as nat * 4),
        "-quality"@, "good"@,
        "-speed"@, "4"@,
        "-tile-columns"@, "2"@,
        "-frame-parallel"@, "1"@,
        "-auto-alt-ref"@, "1"@,
        "-lag-in-frames"@, "25"@,
        "-vf"@, "scale="@ + decimal(p.width as nat) + ":"@ + decimal(p.height as nat),
        "-c:a"@, "libopus"@,
        "-b:a"@, kbps(p.audio_bitrate as nat),
        "-f"@, "hls"@,
        "-hls_time"@, "4"@,
        "-hls_list_size"@, "0"@,
        "-hls_segment_type"@, "fmp4"@,
        "-hls_segment_filename"@, join(output_dir, "segment_%03d.webm"@),
        "-hls_flags"@, "independent_segments"@,
        join(output_dir, "playlist.m3u8"@),
    ]
}

/// The prober arguments that print the container format of `input` as JSON.
pub open spec fn probe_args(input: Seq<char>) -> Seq<Seq<char>> {
    seq!["-v"@, "quiet"@, "-print_format"@, "json"@, "-show_format"@, input]
}

/// The encoder arguments that write one frame taken 1 second into `input`,
/// scaled to 320 pixels wide, as a JPEG at `output`.
pub open spec fn thumbnail_args(input: Seq<char>, output: Seq<char>) -> Seq<Seq<char>> {
    seq![
        "-i"@, input,
        "-ss"@, "00:00:01"@,
        "-vframes"@, "1"@,
        "-vf"@, "scale=320:-1"@,
        "-q:v"@, "2"@,
        output,
    ]
}

fn push_text(v: &mut Vec<String>, s: &str)
    ensures
        texts_of(final(v)@) == texts_of(old(v)@).push(s@),
{
    v.push(String::from_str(s));
    assert(texts_of(final(v)@) =~= texts_of(old(v)@).push(s@));
}

fn push_owned(v: &mut Vec<String>, s: String)
    ensures
        texts_of(final(v)@) == texts_of(old(v)@).push(s@),
{
    v.push(s);
    assert(texts_of(final(v)@) =~= texts_of(old(v)@).push(s@));
}

fn kbps_text(n: u64) -> (r: String)
    ensures
        r@ == kbps(n as nat),
{
    let mut s = decimal_text(n);
    s.append("k");
    s
}

/// The encoder arguments for one resolution of one input.
pub fn hls_encode_args(input: &str, output_dir: &str, config: &ResolutionConfig) -> (r: Vec<String>)
    ensures
        texts_of(r@) == hls_args(input@, output_dir@, config@),
{
    let vb = config.video_bitrate as u64;
    let mut scale = concat("scale=", decimal_text(config.width as u64).as_str());
    scale.append(":");
    scale.append(decimal_text(config.height as u64).as_str());
    let mut v: Vec<String> = Vec::new();
    push_text(&mut v, "-i");
    push_text(&mut v, input);
    push_text(&mut v, "-c:v");
    push_text(&mut v, "libvpx-vp9");
    push_text(&mut v, "-b:v");
    push_owned(&mut v, kbps_text(vb));
    push_text(&mut v, "-maxrate");
    push_owned(&mut v, kbps_text(vb * 2));
    push_text(&mut v, "-bufsize");
    push_owned(&mut v, kbps_text(vb * 4));
    push_text(&mut v, "-quality");
    push_text(&mut v, "good");
    push_text(&mut v, "-speed");
    push_text(&mut v, "4");
    push_text(&mut v, "-tile-columns");
    push_text(&mut v, "2");
    push_text(&mut v, "-frame-parallel");
    push_text(&mut v, "1");
    push_text(&mut v, "-auto-alt-ref");
    push_text(&mut v, "1");
    push_text(&mut v, "-lag-in-frames");
    push_text(&mut v, "25");
    push_text(&mut v, "-vf");
    push_owned(&mut v, scale);
    push_text(&mut v, "-c:a");
    push_text(&mut v, "libopus");
    push_text(&mut v, "-b:a");
    push_owned(&mut v, kbps_text(config.audio_bitrate as u64));
    push_text(&mut v, "-f");
    push_text(&mut v, "hls");
    push_text(&mut v, "-hls_time");
    push_text(&mut v, "4");
    push_text(&mut v, "-hls_list_size");
    push_text(&mut v, "0");
    push_text(&mut v, "-hls_segment_type");
    push_text(&mut v, "fmp4");
    push_text(&mut v, "-hls_segment_filename");
    push_owned(&mut v, join_path(output_dir, "segment_%03d.webm"));
    push_text(&mut v, "-hls_flags");
    push_text(&mut v, "independent_segments");
    push_owned(&mut v, join_path(output_dir, "playlist.m3u8"));
    assert(texts_of(v@) =~= hls_args(input@, output_dir@, config@));
    v
}

/// The prober arguments for one input.
pub fn probe_duration_args(input: &str) -> (r: Vec<String>)
    ensures
        texts_of(r@) == probe_args(input@),
{
    let mut v: Vec<String> = Vec::new();
    push_text(&mut v, "-v");
    push_text(&mut v, "quiet");
    push_text(&mut v, "-print_format");
    push_text(&mut v, "json");
    push_text(&mut v, "-show_format");
    push_text(&mut v, input);
    assert(texts_of(v@) =~= probe_args(input@));
    v
}

/// The encoder arguments that extract the thumbnail of one input.
pub fn thumbnail_extract_args(input: &str, output: &str) -> (r: Vec<String>)
    ensures
        texts_of(r@) == thumbnail_args(input@, output@),
{
    let mut v: Vec<String> = Vec::new();
    push_text(&mut v, "-i");
    push_text(&mut v, input);
    push_text(&mut v, "-ss");
    push_text(&mut v, "00:00:01");
    push_text(&mut v, "-vframes");
    push_text(&mut v, "1");
    push_text(&mut v, "-vf");
    push_text(&mut v, "scale=320:-1");
    push_text(&mut v, "-q:v");
    push_text(&mut v, "2");
    push_text(&mut v, output);
    assert(texts_of(v@) =~= thumbnail_args(input@, output@));
    v
}

} // verus!
