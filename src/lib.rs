//! Turns a selection of files into one shareable artifact (an image re-encoded
//! to WebP, a ZIP archive, or a renamed copy) and holds the decision logic of
//! the object-storage upload client: key and content-type derivation, retry
//! with exponential backoff, and the categorisation of credential failures.
pub mod text;
pub mod archive;
pub mod processor;
pub mod config;
pub mod uploader;
pub mod workflow;
