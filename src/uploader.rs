//! The decisions of the object-storage upload client: object keys and
//! content types, the public URL, retry with exponential backoff, and the
//! categorisation of credential-check failures. The requests themselves are
//! made by the caller, which hands each outcome back.
use vstd::prelude::*;
use vstd::string::*;
use crate::archive::{is_short_id, short_id};
use crate::config::R2Config;
use crate::text::{
    alphanumeric, append_decimal, contains, decimal, is_alphanumeric, lower_of, lowercase,
    path_ext, path_extension, path_file_stem, path_stem, push_char, seq_contains, str_eq,
};

verus! {

/// The largest number of attempts at one upload.
pub const MAX_RETRIES: u32 = 3;

/// The wait before the first retry, in milliseconds; each later wait doubles.
pub const INITIAL_RETRY_DELAY_MS: u64 = 1000;

/// What a successful upload returns.
#[derive(Debug, Clone)]
pub struct UploadResult {
    pub url: String,
    pub key: String,
    pub size: u64,
}

/// An error text that names a temporary condition (checked lower-cased).
pub open spec fn transient_text(s: Seq<char>) -> bool {
    seq_contains(s, "timeout"@) || seq_contains(s, "connection"@) || seq_contains(s, "temporarily"@)
        || seq_contains(s, "503"@) || seq_contains(s, "502"@) || seq_contains(s, "504"@)
        || seq_contains(s, "retry"@) || seq_contains(s, "network"@)
}

/// Whether an error is transient, that is worth retrying.
pub fn is_transient_error(error: &str) -> (r: bool)
    ensures
        r == transient_text(lower_of(error@)),
{
    is_transient_lowered(lowercase(error).as_str())
}

/// Whether an already lower-cased error text names a temporary condition.
pub fn is_transient_lowered(e: &str) -> (r: bool)
    ensures
        r == transient_text(e@),
{
    contains(e, "timeout") || contains(e, "connection") || contains(e, "temporarily")
        || contains(e, "503") || contains(e, "502") || contains(e, "504")
        || contains(e, "retry") || contains(e, "network")
}

/// The user-facing category of a credential-check failure, from the
/// lower-cased provider error text.
pub open spec fn friendly_text(lower: Seq<char>) -> Seq<char> {
    if seq_contains(lower, "timeout"@) || seq_contains(lower, "timed out"@) {
        "Connection timed out - please try again"@
    } else if seq_contains(lower, "connection refused"@) || seq_contains(lower, "network"@) {
        "Connection failed - check your network"@
    } else {
        "Invalid R2 credentials"@
    }
}

/// Collapses a raw provider error into one of three user-facing messages.
pub fn friendly_error(err_str: &str) -> (r: String)
    ensures
        r@ == friendly_text(lower_of(err_str@)),
{
    friendly_error_lowered(lowercase(err_str).as_str())
}

/// The user-facing category of an already lower-cased provider error text.
pub fn friendly_error_lowered(e: &str) -> (r: String)
    ensures
        r@ == friendly_text(e@),
{
    if contains(e, "timeout") || contains(e, "timed out") {
        return String::from_str("Connection timed out - please try again");
    }
    if contains(e, "connection refused") || contains(e, "network") {
        return String::from_str("Connection failed - check your network");
    }
    String::from_str("Invalid R2 credentials")
}

/// The storage endpoint of an account.
pub open spec fn endpoint_text(account_id: Seq<char>) -> Seq<char> {
    "https://"@ + account_id + ".r2.cloudflarestorage.com"@
}

/// The storage endpoint for a configuration: `https://<account-id>.<domain>`.
pub fn r2_endpoint(config: &R2Config) -> (r: String)
    ensures
        r@ == endpoint_text(config.account_id@),
{
    let mut s = String::from_str("https://");
    s.append(config.account_id.as_str());
    s.append(".r2.cloudflarestorage.com");
    s
}

/// A character that may stand in an object key's name part unchanged.
pub open spec fn key_safe(c: char) -> bool {
    alphanumeric(c) || c == '-' || c == '_'
}

/// A name with every character that is not alphanumeric, `-` or `_`
/// replaced by `_`.
pub open spec fn sanitized(s: Seq<char>) -> Seq<char> {
    Seq::new(s.len(), |i: int| if key_safe(s[i]) { s[i] } else { '_' })
}

/// Replaces every character that is not alphanumeric, `-` or `_` with `_`.
pub fn sanitize_name(name: &str) -> (r: String)
    ensures
        r@ == sanitized(name@),
{
    let n = name.unicode_len();
    let mut r = String::new();
    let mut i: usize = 0;
    while i < n
        invariant
            n == name@.len(),
            i <= n,
            r@ =~= sanitized(name@).take(i as int),
        decreases n - i,
    {
        let c = name.get_char(i);
        if is_alphanumeric(c) || c == '-' || c == '_' {
            push_char(&mut r, c);
        } else {
            push_char(&mut r, '_');
        }
        i = i + 1;
        assert(r@ =~= sanitized(name@).take(i as int));
    }
    assert(sanitized(name@).take(n as int) =~= sanitized(name@));
    r
}

/// The content type of an extension (compared as given).
pub open spec fn content_type_text(ext: Seq<char>) -> Seq<char> {
    if ext == "webp"@ {
        "image/webp"@
    } else if ext == "jpg"@ || ext == "jpeg"@ {
        "image/jpeg"@
    } else if ext == "png"@ {
        "image/png"@
    } else if ext == "gif"@ {
        "image/gif"@
    } else if ext == "pdf"@ {
        "application/pdf"@
    } else if ext == "zip"@ {
        "application/zip"@
    } else if ext == "mp4"@ {
        "video/mp4"@
    } else if ext == "mov"@ {
        "video/quicktime"@
    } else {
        "application/octet-stream"@
    }
}

/// Looks up the content type of an extension.
pub fn content_type_for(ext: &str) -> (r: String)
    ensures
        r@ == content_type_text(ext@),
{
    if str_eq(ext, "webp") {
        String::from_str("image/webp")
    } else if str_eq(ext, "jpg") || str_eq(ext, "jpeg") {
        String::from_str("image/jpeg")
    } else if str_eq(ext, "png") {
        String::from_str("image/png")
    } else if str_eq(ext, "gif") {
        String::from_str("image/gif")
    } else if str_eq(ext, "pdf") {
        String::from_str("application/pdf")
    } else if str_eq(ext, "zip") {
        String::from_str("application/zip")
    } else if str_eq(ext, "mp4") {
        String::from_str("video/mp4")
    } else if str_eq(ext, "mov") {
        String::from_str("video/quicktime")
    } else {
        String::from_str("application/octet-stream")
    }
}

/// The extension an uploaded object keeps: the file's own, or `bin`.
pub open spec fn upload_ext(path: Seq<char>) -> Seq<char> {
    match path_ext(path) {
        Some(e) => e,
        None => "bin"@,
    }
}

/// The stem an uploaded object's name starts from: the file's own, or `file`.
pub open spec fn upload_stem(path: Seq<char>) -> Seq<char> {
    match path_stem(path) {
        Some(s) => s,
        None => "file"@,
    }
}

/// The object key of a file under the identifier `id`:
/// `u/<id>_<sanitized stem>.<ext>`.
pub open spec fn object_key_text(path: Seq<char>, id: Seq<char>) -> Seq<char> {
    "u/"@ + id + "_"@ + sanitized(upload_stem(path)) + "."@ + upload_ext(path)
}

/// Where and how a file is to be stored: its object key and content type.
#[derive(Debug, Clone)]
pub struct UploadPlan {
    pub key: String,
    pub content_type: String,
}

/// The object key and content type of a file under the identifier `id`.
pub fn upload_plan_with_id(file_path: &str, id: &str) -> (r: UploadPlan)
    ensures
        r.key@ == object_key_text(file_path@, id@),
        r.content_type@ == content_type_text(upload_ext(file_path@)),
{
    let ext = match path_extension(file_path) {
        Some(e) => e,
        None => String::from_str("bin"),
    };
    let stem = match path_file_stem(file_path) {
        Some(s) => s,
        None => String::from_str("file"),
    };
    let mut key = String::from_str("u/");
    key.append(id);
    key.append("_");
    key.append(sanitize_name(stem.as_str()).as_str());
    key.append(".");
    key.append(ext.as_str());
    let content_type = content_type_for(ext.as_str());
    UploadPlan { key, content_type }
}

/// The object key (under a fresh identifier) and content type of a file.
pub fn upload_plan(file_path: &str) -> (r: UploadPlan)
    ensures
        exists|id: Seq<char>| is_short_id(id) && r.key@ == object_key_text(file_path@, id),
        r.content_type@ == content_type_text(upload_ext(file_path@)),
{
    let id = short_id();
    upload_plan_with_id(file_path, id.as_str())
}

/// A text with every trailing `/` removed.
pub open spec fn trim_trailing_slashes(s: Seq<char>) -> Seq<char>
    decreases s.len(),
{
    if s.len() > 0 && s.last() == '/' {
        trim_trailing_slashes(s.drop_last())
    } else {
        s
    }
}

/// The public URL of an object: the base without trailing slashes, `/`, the key.
pub open spec fn public_url_text(base: Seq<char>, key: Seq<char>) -> Seq<char> {
    trim_trailing_slashes(base) + seq!['/'] + key
}

/// Joins the public base URL and an object key with a single `/`.
pub fn public_url(base: &str, key: &str) -> (r: String)
    ensures
        r@ == public_url_text(base@, key@),
{
    let mut n = base.unicode_len();
    assert(base@.take(n as int) =~= base@);
    while n > 0 && base.get_char(n - 1) == '/'
        invariant
            n <= base@.len(),
            trim_trailing_slashes(base@) == trim_trailing_slashes(base@.take(n as int)),
        decreases n,
    {
        assert(base@.take(n as int).drop_last() =~= base@.take(n - 1));
        n = n - 1;
    }
    let mut s = crate::text::slice_chars(base, 0, n);
    assert(base@.subrange(0, n as int) =~= base@.take(n as int));
    if n > 0 {
        assert(base@.take(n as int).last() == base@[n - 1]);
    }
    assert(trim_trailing_slashes(base@.take(n as int)) == base@.take(n as int));
    push_char(&mut s, '/');
    s.append(key);
    assert(s@ =~= public_url_text(base@, key@));
    s
}

/// What a successful upload of `size` bytes under `key` returns.
pub fn upload_result(config: &R2Config, key: &str, size: u64) -> (r: UploadResult)
    ensures
        r.url@ == public_url_text(config.public_url_base@, key@),
        r.key@ == key@,
        r.size == size,
{
    UploadResult {
        url: public_url(config.public_url_base.as_str(), key),
        key: String::from_str(key),
        size,
    }
}

/// What one PUT request came back with.
#[derive(Debug, Clone)]
pub enum PutOutcome {
    /// The request completed with this HTTP status.
    Status(u16),
    /// The request failed; the transport's error text.
    Failed(String),
}

/// What to do after an upload attempt.
#[derive(Debug, Clone)]
pub enum UploadDecision {
    /// The object is stored.
    Succeed,
    /// Wait this many milliseconds, then try again.
    RetryAfter(u64),
    /// Give up with this error.
    Fail(String),
}

/// The wait before retry number `n + 1`: 1000 ms doubled `n` times.
pub open spec fn backoff_delay(n: nat) -> nat
    decreases n,
{
    if n == 0 {
        INITIAL_RETRY_DELAY_MS as nat
    } else {
        2 * backoff_delay((n - 1) as nat)
    }
}

/// The progress of one upload: attempts made so far and the next wait.
#[derive(Debug, Clone)]
pub struct RetryState {
    pub attempts: u32,
    pub delay_ms: u64,
}

impl RetryState {
    /// A state from which another attempt may be made.
    pub open spec fn wf(&self) -> bool {
        self.attempts < MAX_RETRIES && self.delay_ms == backoff_delay(self.attempts as nat)
    }

    /// The state before the first attempt.
    pub fn new() -> (r: RetryState)
        ensures
            r.attempts == 0,
            r.delay_ms == INITIAL_RETRY_DELAY_MS,
            r.wf(),
    {
        RetryState { attempts: 0, delay_ms: INITIAL_RETRY_DELAY_MS }
    }
}

/// An HTTP status worth retrying.
pub open spec fn retryable_status(s: u16) -> bool {
    s == 502 || s == 503 || s == 504
}

/// The error of an attempt that completed with a failure status.
pub open spec fn status_error_text(s: u16) -> Seq<char> {
    "R2 upload failed with status: "@ + decimal(s as nat)
}

/// The error of an attempt whose request failed.
pub open spec fn transport_error_text(e: Seq<char>) -> Seq<char> {
    "Failed to upload to R2: "@ + e
}

/// Decides what follows an upload attempt, and counts it. Status 200 is
/// success. A 502, 503 or 504, or a failed request whose error is
/// transient, is retried after the current wait, which then doubles, as
/// long as fewer than `MAX_RETRIES` attempts have been made; any other
/// outcome fails at once.
pub fn upload_step(state: &mut RetryState, outcome: &PutOutcome) -> (d: UploadDecision)
    requires
        old(state).wf(),
    ensures
        final(state).attempts == old(state).attempts + 1,
        d is RetryAfter ==> final(state).wf(),
        match outcome {
            PutOutcome::Status(s) => if *s == 200 {
                d is Succeed
            } else if retryable_status(*s) && final(state).attempts < MAX_RETRIES {
                d == UploadDecision::RetryAfter(old(state).delay_ms)
                    && final(state).delay_ms == 2 * old(state).delay_ms
            } else {
                d matches UploadDecision::Fail(m) && m@ == status_error_text(*s)
            },
            PutOutcome::Failed(e) => if transient_text(lower_of(transport_error_text(e@)))
                && final(state).attempts < MAX_RETRIES {
                d == UploadDecision::RetryAfter(old(state).delay_ms)
                    && final(state).delay_ms == 2 * old(state).delay_ms
            } else {
                d matches UploadDecision::Fail(m) && m@ == transport_error_text(e@)
            },
        },
{
    proof {
        reveal_with_fuel(backoff_delay, 3);
        assert(backoff_delay(state.attempts as nat + 1) == 2 * backoff_delay(state.attempts as nat));
    }
    state.attempts = state.attempts + 1;
    match outcome {
        PutOutcome::Status(s) => {
            if *s == 200 {
                return UploadDecision::Succeed;
            }
            let mut m = String::from_str("R2 upload failed with status: ");
            append_decimal(&mut m, *s as u64);
            if (*s == 502 || *s == 503 || *s == 504) && state.attempts < MAX_RETRIES {
                let wait = state.delay_ms;
                state.delay_ms = state.delay_ms * 2;
                UploadDecision::RetryAfter(wait)
            } else {
                UploadDecision::Fail(m)
            }
        },
        PutOutcome::Failed(e) => {
            let mut m = String::from_str("Failed to upload to R2: ");
            m.append(e.as_str());
            if is_transient_error(m.as_str()) && state.attempts < MAX_RETRIES {
                let wait = state.delay_ms;
                state.delay_ms = state.delay_ms * 2;
                UploadDecision::RetryAfter(wait)
            } else {
                UploadDecision::Fail(m)
            }
        },
    }
}

/// The message of the generic credential failure.
pub open spec fn invalid_credentials_text() -> Seq<char> {
    "Invalid R2 credentials"@
}

/// Interprets the test write of a credential check: status 200 passes, any
/// other status is the generic failure, and a failed request is categorised
/// by `friendly_error`.
pub fn credential_check(outcome: &PutOutcome) -> (r: Result<(), String>)
    ensures
        match outcome {
            PutOutcome::Status(s) => if *s == 200 {
                r is Ok
            } else {
                r matches Err(m) && m@ == invalid_credentials_text()
            },
            PutOutcome::Failed(e) => r matches Err(m) && m@ == friendly_text(lower_of(e@)),
        },
{
    match outcome {
        PutOutcome::Status(s) => {
            if *s == 200 {
                Ok(())
            } else {
                Err(String::from_str("Invalid R2 credentials"))
            }
        },
        PutOutcome::Failed(e) => Err(friendly_error(e.as_str())),
    }
}

} // verus!
