//! Application configuration.
use vstd::prelude::*;

verus! {

/// Application configuration.
#[derive(Debug, Clone)]
pub struct Config {
    pub server_host: String,
    pub server_port: u16,
    pub database_url: String,
    pub redis_url: String,
    pub minio_endpoint: String,
    pub minio_access_key: String,
    pub minio_secret_key: String,
    pub minio_bucket_videos: String,
    pub minio_bucket_segments: String,
    pub minio_bucket_manifests: String,
    pub ffmpeg_path: String,
    pub ffprobe_path: String,
    pub temp_dir: String,
}

} // verus!
