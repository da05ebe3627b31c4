//! The fixed catalog of resolution profiles.
use vstd::prelude::*;

verus! {

/// A resolution profile as a mathematical value.
pub struct Profile {
    pub name: Seq<char>,
    pub width: u32,
    pub height: u32,
    pub video_bitrate: u32,
    pub audio_bitrate: u32,
}

/// Resolution configuration for transcoding; bitrates are in kbps.
#[derive(Debug, Clone)]
pub struct ResolutionConfig {
    pub name: String,
    pub width: u32,
    pub height: u32,
    pub video_bitrate: u32,
    pub audio_bitrate: u32,
}

impl View for ResolutionConfig {
    type V = Profile;

    open spec fn view(&self) -> Profile {
        Profile {
            name: self.name@,
            width: self.width,
            height: self.height,
            video_bitrate: self.video_bitrate,
            audio_bitrate: self.audio_bitrate,
        }
    }
}

/// The views of a sequence of configurations.
pub open spec fn profiles_of(v: Seq<ResolutionConfig>) -> Seq<Profile> {
    v.map_values(|c: ResolutionConfig| c@)
}

/// The catalog, in its fixed order.
pub open spec fn catalog() -> Seq<Profile> {
    seq![
        Profile { name: "360p"@, width: 640, height: 360, video_bitrate: 800, audio_bitrate: 96 },
        Profile { name: "720p"@, width: 1280, height: 720, video_bitrate: 2500, audio_bitrate: 128 },
        Profile { name: "1080p"@, width: 1920, height: 1080, video_bitrate: 5000, audio_bitrate: 192 },
    ]
}

/// The profile of the catalog named `name`, if any.
pub open spec fn profile_named(name: Seq<char>) -> Option<Profile> {
    if name == "360p"@ {
        Some(catalog()[0])
    } else if name == "720p"@ {
        Some(catalog()[1])
    } else if name == "1080p"@ {
        Some(catalog()[2])
    } else {
        None
    }
}

/// The catalog profiles of the requested names, in request order; names
/// outside the catalog contribute nothing.
pub open spec fn recognized(names: Seq<Seq<char>>) -> Seq<Profile>
    decreases names.len(),
{
    if names.len() == 0 {
        seq![]
    } else {
        let rest = recognized(names.drop_last());
        match profile_named(names.last()) {
            Some(p) => rest.push(p),
            None => rest,
        }
    }
}

/// The views of a sequence of strings.
pub open spec fn texts_of(v: Seq<String>) -> Seq<Seq<char>> {
    v.map_values(|s: String| s@)
}

fn profile(name: &str, width: u32, height: u32, video_bitrate: u32, audio_bitrate: u32) -> (r:
    ResolutionConfig)
    ensures
        r@ == (Profile { name: name@, width, height, video_bitrate, audio_bitrate }),
{
    ResolutionConfig { name: String::from_str(name), width, height, video_bitrate, audio_bitrate }
}

impl ResolutionConfig {
    /// A copy of this configuration.
    pub fn duplicate(&self) -> (r: ResolutionConfig)
        ensures
            r@ == self@,
    {
        ResolutionConfig {
            name: self.name.clone(),
            width: self.width,
            height: self.height,
            video_bitrate: self.video_bitrate,
            audio_bitrate: self.audio_bitrate,
        }
    }

    /// The whole catalog.
    pub fn get_configs() -> (r: Vec<ResolutionConfig>)
        ensures
            profiles_of(r@) == catalog(),
            r@.len() == 3,
    {
        let mut v: Vec<ResolutionConfig> = Vec::new();
        v.push(profile("360p", 640, 360, 800, 96));
        v.push(profile("720p", 1280, 720, 2500, 128));
        v.push(profile("1080p", 1920, 1080, 5000, 192));
        assert(profiles_of(v@) =~= catalog());
        v
    }

    /// The catalog profile named `name`; `None` for a name outside the catalog.
    pub fn get_by_name(name: &str) -> (r: Option<ResolutionConfig>)
        ensures
            match r {
                Some(c) => profile_named(name@) == Some(c@),
                None => profile_named(name@) is None,
            },
    {
        proof {
            reveal_strlit("360p");
            reveal_strlit("720p");
            reveal_strlit("1080p");
        }
        let configs = Self::get_configs();
        let wanted = String::from_str(name);
        let mut i: usize = 0;
        while i < configs.len()
            invariant
                profiles_of(configs@) == catalog(),
                configs@.len() == 3,
                wanted@ == name@,
                i <= configs@.len(),
                forall|j: int| 0 <= j < i ==> catalog()[j].name != name@,
            decreases configs.len() - i,
        {
            assert(configs@[i as int]@ == catalog()[i as int]);
            if configs[i].name == wanted {
                let c = configs[i].duplicate();
                assert(c@ == catalog()[i as int]);
                return Some(c);
            }
            i = i + 1;
        }
        assert(catalog()[0].name != name@ && catalog()[1].name != name@ && catalog()[2].name != name@);
        None
    }
}

/// The catalog profiles of `requested`, in request order.
pub fn recognized_profiles(requested: &Vec<String>) -> (r: Vec<ResolutionConfig>)
    ensures
        profiles_of(r@) == recognized(texts_of(requested@)),
{
    let ghost names = texts_of(requested@);
    let mut out: Vec<ResolutionConfig> = Vec::new();
    let mut i: usize = 0;
    while i < requested.len()
        invariant
            names == texts_of(requested@),
            i <= requested@.len(),
            profiles_of(out@) == recognized(names.take(i as int)),
        decreases requested.len() - i,
    {
        assert(names.take(i + 1).drop_last() =~= names.take(i as int));
        assert(names.take(i + 1).last() == requested@[i as int]@);
        match ResolutionConfig::get_by_name(requested[i].as_str()) {
            Some(c) => {
                out.push(c);
                assert(profiles_of(out@) =~= recognized(names.take(i as int)).push(c@));
            },
            None => {},
        }
        i = i + 1;
    }
    assert(names.take(i as int) =~= names);
    out
}

} // verus!
