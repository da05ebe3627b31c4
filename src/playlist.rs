//! The master playlist.
use vstd::prelude::*;
use crate::models::{Resolution, ResolutionResult, results_of};
use crate::text::{decimal, decimal_text};

verus! {

/// The fixed header of a master playlist.
pub open spec fn playlist_header() -> Seq<char> {
    "#EXTM3U\n#EXT-X-VERSION:6\n\n"@
}

/// The stream-info block of one resolution: its bandwidth in bits per
/// second, its frame size, its name, then the reference to its sub-playlist.
pub open spec fn stream_block(r: ResolutionResult, video_id: Seq<char>) -> Seq<char> {
    "#EXT-X-STREAM-INF:BANDWIDTH="@ + decimal(r.bitrate as nat * 1000) + ",RESOLUTION="@
        + decimal(r.width as nat) + "x"@ + decimal(r.height as nat) + ",NAME=\""@ + r.name
        + "\"\n"@ + "/segments/"@ + video_id + "/"@ + r.name + "/playlist.m3u8\n\n"@
}

/// The master playlist of `rs`, one block per entry in order.
pub open spec fn master_playlist(rs: Seq<ResolutionResult>, video_id: Seq<char>) -> Seq<char>
    decreases rs.len(),
{
    if rs.len() == 0 {
        playlist_header()
    } else {
        master_playlist(rs.drop_last(), video_id) + stream_block(rs.last(), video_id)
    }
}

/// The master playlist text: the header, then one stream-info block per
/// resolution, in the order given.
pub fn generate_master_playlist(resolutions: &Vec<Resolution>, video_id: &str) -> (r: String)
    ensures
        r@ == master_playlist(results_of(resolutions@), video_id@),
{
    let ghost rs = results_of(resolutions@);
    let mut playlist = String::from_str("#EXTM3U\n#EXT-X-VERSION:6\n\n");
    let mut i: usize = 0;
    while i < resolutions.len()
        invariant
            rs == results_of(resolutions@),
            i <= resolutions@.len(),
            playlist@ == master_playlist(rs.take(i as int), video_id@),
        decreases resolutions.len() - i,
    {
        let res = &resolutions[i];
        assert(rs.take(i + 1).drop_last() =~= rs.take(i as int));
        assert(rs.take(i + 1).last() == res@);
        let bandwidth: u64 = res.bitrate as u64 * 1000;
        let ghost before = playlist@;
        playlist.append("#EXT-X-STREAM-INF:BANDWIDTH=");
        playlist.append(decimal_text(bandwidth).as_str());
        playlist.append(",RESOLUTION=");
        playlist.append(decimal_text(res.width as u64).as_str());
        playlist.append("x");
        playlist.append(decimal_text(res.height as u64).as_str());
        playlist.append(",NAME=\"");
        playlist.append(res.name.as_str());
        playlist.append("\"\n");
        playlist.append("/segments/");
        playlist.append(video_id);
        playlist.append("/");
        playlist.append(res.name.as_str());
        playlist.append("/playlist.m3u8\n\n");
        assert(playlist@ =~= before + stream_block(res@, video_id@));
        i = i + 1;
    }
    assert(rs.take(i as int) =~= rs);
    playlist
}

/// Building the master playlist is deterministic: equal resolution lists and
/// equal video identifiers give the same text.
pub proof fn master_playlist_is_deterministic(
    a: Seq<ResolutionResult>,
    b: Seq<ResolutionResult>,
    video_a: Seq<char>,
    video_b: Seq<char>,
)
    requires
        a == b,
        video_a == video_b,
    ensures
        master_playlist(a, video_a) == master_playlist(b, video_b),
{
}

} // verus!
