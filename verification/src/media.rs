//! Data model of video-file uploads.

use vstd::prelude::*;

verus! {

/// What is known about a video file before upload.
#[derive(Debug, Clone)]
pub struct VideoFileInfo {
    pub path: String,
    pub size: u64,
    pub exists: bool,
}

/// Progress after uploading one chunk.
#[derive(Debug, Clone)]
pub struct UploadChunkResult {
    pub bytes_uploaded: u64,
    pub total_bytes: u64,
    pub completed: bool,
    pub video_id: Option<String>,
}

} // verus!
