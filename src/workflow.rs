//! The outcome of one drop: what the caller gets back in demo mode (the
//! local artifact) and in remote mode (the uploaded object).
use vstd::prelude::*;
use vstd::string::*;
use crate::config::R2Config;
use crate::processor::ProcessResult;
use crate::uploader::UploadResult;

verus! {

/// The combined result of processing a drop and, in remote mode, uploading it.
#[derive(Debug, Clone)]
pub struct DropResult {
    pub url: String,
    pub local_path: Option<String>,
    pub r2_key: Option<String>,
    pub original_size: u64,
    pub processed_size: u64,
    pub file_type: String,
    pub is_demo: bool,
}

/// The result of a drop in demo mode: the artifact stays on disk and its
/// `file://` URL is returned.
pub fn demo_drop_result(result: ProcessResult) -> (r: DropResult)
    ensures
        r.url@ == "file://"@ + result.output_path@,
        r.local_path matches Some(p) && p@ == result.output_path@,
        r.r2_key is None,
        r.original_size == result.original_size,
        r.processed_size == result.processed_size,
        r.file_type@ == result.file_type@,
        r.is_demo,
{
    let mut url = String::from_str("file://");
    url.append(result.output_path.as_str());
    DropResult {
        url,
        local_path: Some(result.output_path),
        r2_key: None,
        original_size: result.original_size,
        processed_size: result.processed_size,
        file_type: result.file_type,
        is_demo: true,
    }
}

/// The result of a drop in remote mode: the uploaded object's URL and key.
pub fn remote_drop_result(result: ProcessResult, upload: UploadResult) -> (r: DropResult)
    ensures
        r.url@ == upload.url@,
        r.local_path is None,
        r.r2_key matches Some(k) && k@ == upload.key@,
        r.original_size == result.original_size,
        r.processed_size == result.processed_size,
        r.file_type@ == result.file_type@,
        !r.is_demo,
{
    DropResult {
        url: upload.url,
        local_path: None,
        r2_key: Some(upload.key),
        original_size: result.original_size,
        processed_size: result.processed_size,
        file_type: result.file_type,
        is_demo: false,
    }
}

/// The configuration, or the error `missing` where there is none.
pub fn require_config(config: Option<R2Config>, missing: &str) -> (r: Result<R2Config, String>)
    ensures
        config is None ==> (r matches Err(m) && m@ == missing@),
        config matches Some(c) ==> r == Ok::<R2Config, String>(c),
{
    match config {
        Some(c) => Ok(c),
        None => Err(String::from_str(missing)),
    }
}

} // verus!
