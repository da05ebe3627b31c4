//! Where published artifacts go: destination class, key and content type.
use vstd::prelude::*;
use crate::text::{has_suffix, join, ends_with, join_path};

verus! {

/// The three logical destinations of object storage.
#[derive(Debug, Clone, Copy, PartialEq, Eq, Structural)]
pub enum BucketClass {
    Originals,
    Segments,
    Manifests,
}

/// The content type of a published file, by extension.
pub open spec fn content_type_of(filename: Seq<char>) -> Seq<char> {
    if has_suffix(filename, ".m3u8"@) {
        "application/vnd.apple.mpegurl"@
    } else if has_suffix(filename, ".webm"@) {
        "video/webm"@
    } else if has_suffix(filename, ".m4s"@) || has_suffix(filename, ".mp4"@) {
        "video/mp4"@
    } else {
        "application/octet-stream"@
    }
}

/// Playlists go to the manifest destination, every other file to the
/// segment destination.
pub open spec fn destination_of(filename: Seq<char>) -> BucketClass {
    if has_suffix(filename, ".m3u8"@) {
        BucketClass::Manifests
    } else {
        BucketClass::Segments
    }
}

/// How one local file is published.
#[derive(Debug, Clone)]
pub struct UploadTarget {
    pub key: String,
    pub bucket: BucketClass,
    pub content_type: String,
}

/// The content type of a published file.
pub fn content_type_for(filename: &str) -> (r: String)
    ensures
        r@ == content_type_of(filename@),
{
    if ends_with(filename, ".m3u8") {
        String::from_str("application/vnd.apple.mpegurl")
    } else if ends_with(filename, ".webm") {
        String::from_str("video/webm")
    } else if ends_with(filename, ".m4s") || ends_with(filename, ".mp4") {
        String::from_str("video/mp4")
    } else {
        String::from_str("application/octet-stream")
    }
}

/// How the file `filename` of a directory published under `prefix` is
/// uploaded: key `prefix/filename`, destination and content type by extension.
pub fn upload_target(prefix: &str, filename: &str) -> (r: UploadTarget)
    ensures
        r.key@ == join(prefix@, filename@),
        r.bucket == destination_of(filename@),
        r.content_type@ == content_type_of(filename@),
{
    let bucket = if ends_with(filename, ".m3u8") {
        BucketClass::Manifests
    } else {
        BucketClass::Segments
    };
    UploadTarget { key: join_path(prefix, filename), bucket, content_type: content_type_for(filename) }
}

/// The endpoint and bucket names of object storage.
#[derive(Debug, Clone)]
pub struct StorageLayout {
    pub endpoint: String,
    pub bucket_videos: String,
    pub bucket_segments: String,
    pub bucket_manifests: String,
}

impl StorageLayout {
    /// The bucket name of a destination class.
    pub open spec fn bucket_spec(&self, class: BucketClass) -> Seq<char> {
        match class {
            BucketClass::Originals => self.bucket_videos@,
            BucketClass::Segments => self.bucket_segments@,
            BucketClass::Manifests => self.bucket_manifests@,
        }
    }

    /// The bucket name of a destination class.
    pub fn bucket(&self, class: BucketClass) -> (r: &String)
        ensures
            r@ == self.bucket_spec(class),
    {
        match class {
            BucketClass::Originals => &self.bucket_videos,
            BucketClass::Segments => &self.bucket_segments,
            BucketClass::Manifests => &self.bucket_manifests,
        }
    }

    /// The location of an object: `endpoint/bucket/key`.
    pub fn object_url(&self, class: BucketClass, key: &str) -> (r: String)
        ensures
            r@ == join(join(self.endpoint@, self.bucket_spec(class)), key@),
    {
        let base = join_path(self.endpoint.as_str(), self.bucket(class).as_str());
        join_path(base.as_str(), key)
    }

    /// The public location of a manifest.
    pub fn get_streaming_url(&self, manifest_key: &str) -> (r: String)
        ensures
            r@ == join(join(self.endpoint@, self.bucket_manifests@), manifest_key@),
    {
        self.object_url(BucketClass::Manifests, manifest_key)
    }
}

} // verus!
