//! Validation of a file selection and the choice and execution of the
//! transformation that turns it into one artifact.
use vstd::prelude::*;
use vstd::string::*;
use crate::archive::{
    image_decodes, is_short_id, zip_writing, MAX_ENTRY_NAME_CHARS, reencode_webp, webp_of, ReencodeError, short_id, zip_archive, zip_entries, zip_finish,
    zip_new, zip_start_file, zip_write_all,
};
use crate::text::{
    append_decimal, base_name, base_name_or, decimal, join_path, join_spec, lower_of, lowercase,
    path_ext, path_extension, path_file_stem, path_stem, seq_contains, str_eq,
};

verus! {

/// The largest number of files in one selection.
pub const MAX_FILES: usize = 50;

/// The largest size of one file: 500 MiB.
pub const MAX_SINGLE_FILE_SIZE: u64 = 500 * 1024 * 1024;

/// The largest total size of a selection: 1 GiB.
pub const MAX_TOTAL_SIZE: u64 = 1024 * 1024 * 1024;

/// Bytes in a mebibyte.
pub const MIB: u64 = 1024 * 1024;

/// What the file system reports of one selected path.
#[derive(Debug, Clone)]
pub enum FileStatus {
    /// Nothing exists at the path.
    Missing,
    /// The path names a directory.
    Directory,
    /// The path exists, but its metadata could not be read; the reason.
    Unreadable(String),
    /// A regular file of the given size in bytes.
    File(u64),
}

/// One selected path together with what the file system reports of it.
#[derive(Debug, Clone)]
pub struct FileEntry {
    pub path: String,
    pub status: FileStatus,
}

/// A user-correctable problem with the selection.
#[derive(Debug, Clone)]
pub struct ValidationError {
    pub message: String,
    pub file: Option<String>,
}

impl View for ValidationError {
    type V = (Seq<char>, Option<Seq<char>>);

    open spec fn view(&self) -> (Seq<char>, Option<Seq<char>>) {
        (self.message@, opt_view(self.file))
    }
}

impl ValidationError {
    /// The message shown to the user.
    pub fn to_string(&self) -> (r: String)
        ensures
            r@ == self.message@,
    {
        self.message.clone()
    }
}

/// The view of an optional string.
pub open spec fn opt_view(o: Option<String>) -> Option<Seq<char>> {
    match o {
        Some(s) => Some(s@),
        None => None,
    }
}

/// Extensions (lower case) that a selection may hold.
pub open spec fn allowed_extension(e: Seq<char>) -> bool {
    e == "jpg"@
        || e == "jpeg"@
        || e == "png"@
        || e == "gif"@
        || e == "bmp"@
        || e == "tiff"@
        || e == "tif"@
        || e == "webp"@
        || e == "heic"@
        || e == "heif"@
        || e == "pdf"@
        || e == "doc"@
        || e == "docx"@
        || e == "xls"@
        || e == "xlsx"@
        || e == "ppt"@
        || e == "pptx"@
        || e == "txt"@
        || e == "rtf"@
        || e == "csv"@
        || e == "zip"@
        || e == "tar"@
        || e == "gz"@
        || e == "7z"@
        || e == "rar"@
        || e == "mov"@
        || e == "mp4"@
        || e == "avi"@
        || e == "mkv"@
        || e == "webm"@
        || e == "m4v"@
        || e == "mp3"@
        || e == "wav"@
        || e == "aac"@
        || e == "flac"@
        || e == "m4a"@
        || e == "ogg"@
        || e == "json"@
        || e == "xml"@
        || e == "html"@
        || e == "css"@
        || e == "js"@
        || e == "ts"@
        || e == "py"@
        || e == "rs"@
        || e == "go"@
        || e == "swift"@
        || e == "svg"@
        || e == "ico"@
        || e == "dmg"@
        || e == "pkg"@
        || e == "app"@
}

/// Whether a lower-case extension is on the allow-list.
pub fn is_allowed_extension(ext: &str) -> (r: bool)
    ensures
        r == allowed_extension(ext@),
{
    str_eq(ext, "jpg")
        || str_eq(ext, "jpeg")
        || str_eq(ext, "png")
        || str_eq(ext, "gif")
        || str_eq(ext, "bmp")
        || str_eq(ext, "tiff")
        || str_eq(ext, "tif")
        || str_eq(ext, "webp")
        || str_eq(ext, "heic")
        || str_eq(ext, "heif")
        || str_eq(ext, "pdf")
        || str_eq(ext, "doc")
        || str_eq(ext, "docx")
        || str_eq(ext, "xls")
        || str_eq(ext, "xlsx")
        || str_eq(ext, "ppt")
        || str_eq(ext, "pptx")
        || str_eq(ext, "txt")
        || str_eq(ext, "rtf")
        || str_eq(ext, "csv")
        || str_eq(ext, "zip")
        || str_eq(ext, "tar")
        || str_eq(ext, "gz")
        || str_eq(ext, "7z")
        || str_eq(ext, "rar")
        || str_eq(ext, "mov")
        || str_eq(ext, "mp4")
        || str_eq(ext, "avi")
        || str_eq(ext, "mkv")
        || str_eq(ext, "webm")
        || str_eq(ext, "m4v")
        || str_eq(ext, "mp3")
        || str_eq(ext, "wav")
        || str_eq(ext, "aac")
        || str_eq(ext, "flac")
        || str_eq(ext, "m4a")
        || str_eq(ext, "ogg")
        || str_eq(ext, "json")
        || str_eq(ext, "xml")
        || str_eq(ext, "html")
        || str_eq(ext, "css")
        || str_eq(ext, "js")
        || str_eq(ext, "ts")
        || str_eq(ext, "py")
        || str_eq(ext, "rs")
        || str_eq(ext, "go")
        || str_eq(ext, "swift")
        || str_eq(ext, "svg")
        || str_eq(ext, "ico")
        || str_eq(ext, "dmg")
        || str_eq(ext, "pkg")
        || str_eq(ext, "app")
}

/// Extensions (lower case) of the images that are re-encoded.
pub open spec fn image_extension(e: Seq<char>) -> bool {
    e == "jpg"@
        || e == "jpeg"@
        || e == "png"@
        || e == "gif"@
        || e == "bmp"@
        || e == "tiff"@
        || e == "tif"@
}

/// The path's extension, lower-cased, is one of the convertible image formats.
pub open spec fn is_image_path(p: Seq<char>) -> bool {
    match path_ext(p) {
        Some(e) => image_extension(lower_of(e)),
        None => false,
    }
}

/// The path's extension, lower-cased, is `webp`.
pub open spec fn is_webp_path(p: Seq<char>) -> bool {
    match path_ext(p) {
        Some(e) => lower_of(e) == "webp"@,
        None => false,
    }
}

/// Whether a lower-cased extension is one of the convertible image formats.
pub fn is_image_extension(ext: &str) -> (r: bool)
    ensures
        r == image_extension(ext@),
{
    str_eq(ext, "jpg")
        || str_eq(ext, "jpeg")
        || str_eq(ext, "png")
        || str_eq(ext, "gif")
        || str_eq(ext, "bmp")
        || str_eq(ext, "tiff")
        || str_eq(ext, "tif")
}

/// Whether a lower-cased extension is `webp`.
pub fn is_webp_extension(ext: &str) -> (r: bool)
    ensures
        r == (ext@ == "webp"@),
{
    str_eq(ext, "webp")
}

/// Determines whether a file is an image, by its extension.
pub fn is_image(path: &str) -> (r: bool)
    ensures
        r == is_image_path(path@),
{
    match path_extension(path) {
        Some(e) => is_image_extension(lowercase(e.as_str()).as_str()),
        None => false,
    }
}

/// Determines whether a file is already WebP, by its extension.
pub fn is_webp(path: &str) -> (r: bool)
    ensures
        r == is_webp_path(path@),
{
    match path_extension(path) {
        Some(e) => is_webp_extension(lowercase(e.as_str()).as_str()),
        None => false,
    }
}

/// A size in MiB to one decimal place, as tenths, rounding half to even.
pub open spec fn mib_tenths(size: nat) -> nat {
    let q = (size * 10) / (MIB as nat);
    let r = (size * 10) % (MIB as nat);
    if r * 2 > MIB || (r * 2 == MIB && q % 2 == 1) {
        q + 1
    } else {
        q
    }
}

/// A size in MiB written with one decimal place.
pub open spec fn mib_text(size: nat) -> Seq<char> {
    decimal(mib_tenths(size) / 10) + seq!['.'] + decimal(mib_tenths(size) % 10)
}

/// Appends a size in MiB with one decimal place.
pub fn append_mib(s: &mut String, size: u64)
    ensures
        final(s)@ == old(s)@ + mib_text(size as nat),
{
    let wide: u128 = size as u128 * 10;
    let q: u128 = wide / (MIB as u128);
    let r: u128 = wide % (MIB as u128);
    let t: u128 = if r * 2 > MIB as u128 || (r * 2 == MIB as u128 && q % 2 == 1) {
        q + 1
    } else {
        q
    };
    assert(t == mib_tenths(size as nat));
    assert(t < 0x1_0000_0000_0000_0000) by (nonlinear_arith)
        requires
            t <= q + 1,
            q == wide / (MIB as u128),
            wide == size * 10,
            size < 0x1_0000_0000_0000_0000,
            MIB == 1048576,
    ;
    append_decimal(s, (t / 10) as u64);
    crate::text::push_char(s, '.');
    append_decimal(s, (t % 10) as u64);
    assert(s@ =~= old(s)@ + mib_text(size as nat));
}

/// The message for a file over the single-file limit.
pub open spec fn too_large_message(path: Seq<char>, size: nat) -> Seq<char> {
    "\""@ + base_name_or(path, "file"@) + "\" is too large ("@ + mib_text(size)
        + " MB). Maximum file size is 500 MB."@
}

/// The message for a file whose extension is not allowed.
pub open spec fn unsupported_message(path: Seq<char>, lower_ext: Seq<char>) -> Seq<char> {
    "Unsupported file type: ."@ + lower_ext + " ("@ + base_name_or(path, "file"@) + ")"@
}

/// The message for a selection over the total limit.
pub open spec fn total_message(total: nat) -> Seq<char> {
    "Total size ("@ + mib_text(total) + " MB) exceeds 1 GB limit."@
}

/// The message for an empty selection.
pub open spec fn no_files_message() -> Seq<char> {
    "No files provided"@
}

/// The message for a selection over the count limit.
pub open spec fn too_many_message() -> Seq<char> {
    "Too many files. Maximum is 50 files."@
}

/// The message for a directory in the selection.
pub open spec fn directory_message() -> Seq<char> {
    "Directories are not supported. Please zip the folder first."@
}

/// What is wrong with one entry, checked in order: existence, kind,
/// readability, size, extension.
pub open spec fn entry_failure(e: FileEntry) -> Option<(Seq<char>, Option<Seq<char>>)> {
    let p = e.path@;
    match e.status {
        FileStatus::Missing => Some(("File not found: "@ + p, Some(p))),
        FileStatus::Directory => Some((directory_message(), Some(p))),
        FileStatus::Unreadable(why) => Some(("Cannot read file: "@ + why@, Some(p))),
        FileStatus::File(size) => if size > MAX_SINGLE_FILE_SIZE {
            Some((too_large_message(p, size as nat), Some(p)))
        } else {
            match path_ext(p) {
                Some(x) => if allowed_extension(lower_of(x)) {
                    None
                } else {
                    Some((unsupported_message(p, lower_of(x)), Some(p)))
                },
                None => None,
            }
        },
    }
}

/// The first failing entry from position `i` on.
pub open spec fn first_failure(s: Seq<FileEntry>, i: int) -> Option<(Seq<char>, Option<Seq<char>>)>
    decreases s.len() - i,
{
    if i < 0 || i >= s.len() {
        None
    } else {
        match entry_failure(s[i]) {
            Some(f) => Some(f),
            None => first_failure(s, i + 1),
        }
    }
}

/// The size in bytes of a regular file entry, and 0 for any other.
pub open spec fn entry_size(e: FileEntry) -> nat {
    match e.status {
        FileStatus::File(size) => size as nat,
        _ => 0,
    }
}

/// The sum of the entries' sizes.
pub open spec fn total_size(s: Seq<FileEntry>) -> nat
    decreases s.len(),
{
    if s.len() == 0 {
        0
    } else {
        total_size(s.drop_last()) + entry_size(s.last())
    }
}

/// The outcome of validating a selection: `None` where it passes, else the
/// first problem found, as (message, offending path).
pub open spec fn validation_outcome(s: Seq<FileEntry>) -> Option<(Seq<char>, Option<Seq<char>>)> {
    if s.len() == 0 {
        Some((no_files_message(), None))
    } else if s.len() > MAX_FILES {
        Some((too_many_message(), None))
    } else {
        match first_failure(s, 0) {
            Some(f) => Some(f),
            None => if total_size(s) > MAX_TOTAL_SIZE {
                Some((total_message(total_size(s)), None))
            } else {
                None
            },
        }
    }
}

fn failure(message: String, file: Option<String>) -> (r: ValidationError)
    ensures
        r.message == message,
        r.file == file,
{
    ValidationError { message, file }
}

/// Checks one entry: existence, kind, readability, size, extension.
fn check_entry(e: &FileEntry) -> (r: Option<ValidationError>)
    ensures
        entry_failure(*e) == (match r {
            Some(v) => Some(v@),
            None => None::<(Seq<char>, Option<Seq<char>>)>,
        }),
{
    let p = e.path.as_str();
    match &e.status {
        FileStatus::Missing => {
            let mut m = String::from_str("File not found: ");
            m.append(p);
            Some(failure(m, Some(String::from_str(p))))
        },
        FileStatus::Directory => Some(failure(
            String::from_str("Directories are not supported. Please zip the folder first."),
            Some(String::from_str(p)),
        )),
        FileStatus::Unreadable(why) => {
            let mut m = String::from_str("Cannot read file: ");
            m.append(why.as_str());
            Some(failure(m, Some(String::from_str(p))))
        },
        FileStatus::File(size) => {
            if *size > MAX_SINGLE_FILE_SIZE {
                let mut m = String::from_str("\"");
                m.append(base_name(p, "file").as_str());
                m.append("\" is too large (");
                append_mib(&mut m, *size);
                m.append(" MB). Maximum file size is 500 MB.");
                assert(m@ =~= too_large_message(p@, *size as nat));
                return Some(failure(m, Some(String::from_str(p))));
            }
            match path_extension(p) {
                Some(x) => {
                    let lower = lowercase(x.as_str());
                    if is_allowed_extension(lower.as_str()) {
                        None
                    } else {
                        let mut m = String::from_str("Unsupported file type: .");
                        m.append(lower.as_str());
                        m.append(" (");
                        m.append(base_name(p, "file").as_str());
                        m.append(")");
                        assert(m@ =~= unsupported_message(p@, lower@));
                        Some(failure(m, Some(String::from_str(p))))
                    }
                },
                None => None,
            }
        },
    }
}

/// Checks the size of a selection before any file is looked at: it must
/// hold between one and `MAX_FILES` entries.
pub fn validate_count(count: usize) -> (r: Result<(), ValidationError>)
    ensures
        count == 0 ==> (r matches Err(v) && v@ == (no_files_message(), None::<Seq<char>>)),
        count > MAX_FILES ==> (r matches Err(v) && v@ == (too_many_message(), None::<Seq<char>>)),
        1 <= count <= MAX_FILES ==> r is Ok,
{
    if count == 0 {
        return Err(failure(String::from_str("No files provided"), None));
    }
    if count > MAX_FILES {
        return Err(failure(String::from_str("Too many files. Maximum is 50 files."), None));
    }
    Ok(())
}

/// Validates a selection before any transformation: it must be non-empty,
/// hold at most `MAX_FILES` entries, every entry must be an existing,
/// readable regular file of at most `MAX_SINGLE_FILE_SIZE` bytes whose
/// extension, if any, is allowed, and the sizes must add up to at most
/// `MAX_TOTAL_SIZE`. The first problem found is reported.
pub fn validate_files(paths: &Vec<FileEntry>) -> (r: Result<(), ValidationError>)
    ensures
        validation_outcome(paths@) == (match r {
            Ok(_) => None::<(Seq<char>, Option<Seq<char>>)>,
            Err(v) => Some(v@),
        }),
        paths@.len() > MAX_FILES ==> (r matches Err(v) && v@ == (too_many_message(), None::<Seq<char>>)),
{
    match validate_count(paths.len()) {
        Ok(()) => {},
        Err(v) => {
            return Err(v);
        },
    }
    let mut total: u64 = 0;
    let mut i: usize = 0;
    while i < paths.len()
        invariant
            1 <= paths@.len() <= MAX_FILES,
            i <= paths@.len(),
            first_failure(paths@, 0) == first_failure(paths@, i as int),
            total == total_size(paths@.take(i as int)),
            total <= i * MAX_SINGLE_FILE_SIZE,
        decreases paths@.len() - i,
    {
        let e = &paths[i];
        match check_entry(e) {
            Some(v) => {
                return Err(v);
            },
            None => {},
        }
        assert(paths@.take(i + 1).drop_last() =~= paths@.take(i as int));
        match e.status {
            FileStatus::File(size) => {
                assert(size <= MAX_SINGLE_FILE_SIZE);
                assert(total + size <= (i + 1) * MAX_SINGLE_FILE_SIZE <= MAX_FILES * MAX_SINGLE_FILE_SIZE)
                    by (nonlinear_arith)
                    requires
                        total <= i * MAX_SINGLE_FILE_SIZE,
                        size <= MAX_SINGLE_FILE_SIZE,
                        i < MAX_FILES,
                ;
                total = total + size;
            },
            _ => {
                assert(i * MAX_SINGLE_FILE_SIZE <= (i + 1) * MAX_SINGLE_FILE_SIZE) by (nonlinear_arith);
            },
        }
        i = i + 1;
    }
    assert(paths@.take(i as int) =~= paths@);
    if total > MAX_TOTAL_SIZE {
        let mut m = String::from_str("Total size (");
        append_mib(&mut m, total);
        m.append(" MB) exceeds 1 GB limit.");
        assert(m@ =~= total_message(total as nat));
        return Err(failure(m, None));
    }
    Ok(())
}

/// The artifact's metadata: where it is to be written, the size of its
/// sources, its own size, and its type tag.
#[derive(Debug, Clone)]
pub struct ProcessResult {
    pub output_path: String,
    pub original_size: u64,
    pub processed_size: u64,
    pub file_type: String,
}

/// A produced artifact: its metadata and the bytes to write at
/// `result.output_path`.
#[derive(Debug, Clone)]
pub struct ProcessedArtifact {
    pub result: ProcessResult,
    pub bytes: Vec<u8>,
}

/// The stem of a path's file name, with `fallback` where it has none.
pub open spec fn stem_or(p: Seq<char>, fallback: Seq<char>) -> Seq<char> {
    match path_stem(p) {
        Some(s) => s,
        None => fallback,
    }
}

fn stem_or_exec(p: &str, fallback: &str) -> (r: String)
    ensures
        r@ == stem_or(p@, fallback@),
{
    match path_file_stem(p) {
        Some(s) => s,
        None => String::from_str(fallback),
    }
}

/// The archive's entries: each input's base name and bytes, in order.
pub open spec fn archive_entries(paths: Seq<String>, contents: Seq<Vec<u8>>) -> Seq<(Seq<char>, Seq<u8>)> {
    Seq::new(paths.len(), |i: int| (base_name_or(paths[i]@, "file"@), contents[i]@))
}

/// The total length of a list of byte buffers.
pub open spec fn sum_lens(contents: Seq<Vec<u8>>) -> nat
    decreases contents.len(),
{
    if contents.len() == 0 {
        0
    } else {
        sum_lens(contents.drop_last()) + contents.last()@.len()
    }
}

/// No two paths share a base name, so each can name its own archive entry.
pub open spec fn distinct_base_names(paths: Seq<String>) -> bool {
    forall|i: int, j: int|
        0 <= i < j < paths.len() ==> base_name_or(#[trigger] paths[i]@, "file"@) != base_name_or(
            #[trigger] paths[j]@,
            "file"@,
        )
}

/// Every base name fits an archive entry's name field.
pub open spec fn entry_names_fit(paths: Seq<String>) -> bool {
    forall|i: int| 0 <= i < paths.len() ==> base_name_or(#[trigger] paths[i]@, "file"@).len() <= MAX_ENTRY_NAME_CHARS
}

/// The inputs can be archived: their total length fits in 64 bits, and
/// their base names are distinct and fit an entry's name field.
pub open spec fn archivable(paths: Seq<String>, contents: Seq<Vec<u8>>) -> bool {
    sum_lens(contents) <= u64::MAX && entry_names_fit(paths) && distinct_base_names(paths)
}

/// The message for inputs whose total length does not fit in 64 bits.
pub open spec fn too_large_to_archive_message() -> Seq<char> {
    "Inputs are too large to archive"@
}

/// `a` is the archive of `paths` and `contents` under the identifier `id`.
pub open spec fn archive_output(
    paths: Seq<String>,
    contents: Seq<Vec<u8>>,
    dir: Seq<char>,
    id: Seq<char>,
    a: ProcessedArtifact,
) -> bool {
    &&& a.bytes@ == zip_archive(archive_entries(paths, contents))
    &&& a.result.output_path@ == join_spec(dir, "archive_"@ + id + ".zip"@)
    &&& a.result.original_size == sum_lens(contents)
    &&& a.result.processed_size == a.bytes@.len()
    &&& a.result.file_type@ == "archive"@
}

fn with_prefix(prefix: &str, detail: String) -> (r: String)
    ensures
        r@ == prefix@ + detail@,
{
    let mut m = String::from_str(prefix);
    m.append(detail.as_str());
    m
}

/// Builds a ZIP archive of the inputs, one deflate-compressed entry per
/// input named by its base name, to be written as `archive_<id>.zip` in
/// `output_dir`.
pub fn create_zip_with_id(paths: &Vec<String>, contents: &Vec<Vec<u8>>, output_dir: &str, id: &str) -> (r: Result<ProcessedArtifact, String>)
    requires
        paths@.len() == contents@.len(),
    ensures
        sum_lens(contents@) > u64::MAX ==> (r matches Err(m) && m@ == too_large_to_archive_message()),
        r matches Ok(a) ==> archive_output(paths@, contents@, output_dir@, id@, a),
        archivable(paths@, contents@) ==> r is Ok,
        !entry_names_fit(paths@) ==> r is Err,
{
    let mut total: u64 = 0;
    let mut i: usize = 0;
    while i < contents.len()
        invariant
            i <= contents@.len(),
            total == sum_lens(contents@.take(i as int)),
        decreases contents@.len() - i,
    {
        assert(contents@.take(i + 1).drop_last() =~= contents@.take(i as int));
        let len = contents[i].len() as u64;
        if total > u64::MAX - len {
            proof {
                lemma_sum_lens_prefix(contents@, i + 1);
            }
            return Err(String::from_str("Inputs are too large to archive"));
        }
        total = total + len;
        i = i + 1;
    }
    assert(contents@.take(i as int) =~= contents@);
    let mut name = String::from_str("archive_");
    name.append(id);
    name.append(".zip");
    let output_path = join_path(output_dir, name.as_str());
    let mut zip = zip_new();
    let mut j: usize = 0;
    while j < paths.len()
        invariant
            paths@.len() == contents@.len(),
            sum_lens(contents@) <= u64::MAX,
            j <= paths@.len(),
            zip_entries(zip) =~= archive_entries(paths@, contents@).take(j as int),
            j > 0 ==> zip_writing(zip),
            forall|k: int| 0 <= k < j ==> base_name_or(#[trigger] paths@[k]@, "file"@).len() <= MAX_ENTRY_NAME_CHARS,
        decreases paths@.len() - j,
    {
        let file_name = base_name(paths[j].as_str(), "file");
        if file_name.as_str().unicode_len() > MAX_ENTRY_NAME_CHARS {
            let mut m = String::from_str("File name too long for an archive: ");
            m.append(file_name.as_str());
            return Err(m);
        }
        proof {
            if distinct_base_names(paths@) {
                assert forall|k: int| 0 <= k < zip_entries(zip).len() implies #[trigger] zip_entries(zip)[k].0
                    != file_name@ by {
                    assert(zip_entries(zip)[k].0 == base_name_or(paths@[k]@, "file"@));
                }
            }
        }
        match zip_start_file(&mut zip, file_name.as_str()) {
            Ok(()) => {},
            Err(e) => {
                return Err(with_prefix("Failed to start zip entry: ", e));
            },
        }
        match zip_write_all(&mut zip, contents[j].as_slice()) {
            Ok(()) => {},
            Err(e) => {
                return Err(with_prefix("Failed to write to zip: ", e));
            },
        }
        assert(Seq::<u8>::empty() + contents@[j as int]@ =~= contents@[j as int]@);
        j = j + 1;
    }
    assert(archive_entries(paths@, contents@).take(j as int) =~= archive_entries(paths@, contents@));
    assert(entry_names_fit(paths@));
    let bytes = match zip_finish(zip) {
        Ok(b) => b,
        Err(e) => {
            return Err(with_prefix("Failed to finish zip: ", e));
        },
    };
    let processed_size = bytes.len() as u64;
    Ok(ProcessedArtifact {
        result: ProcessResult {
            output_path,
            original_size: total,
            processed_size,
            file_type: String::from_str("archive"),
        },
        bytes,
    })
}

/// The total length of a prefix never exceeds that of the whole list.
proof fn lemma_sum_lens_prefix(contents: Seq<Vec<u8>>, n: int)
    requires
        0 <= n <= contents.len(),
    ensures
        sum_lens(contents.take(n)) <= sum_lens(contents),
    decreases contents.len(),
{
    if n < contents.len() {
        assert(contents.drop_last().take(n) =~= contents.take(n));
        lemma_sum_lens_prefix(contents.drop_last(), n);
    } else {
        assert(contents.take(n) =~= contents);
    }
}

/// Builds a ZIP archive of the inputs under a fresh identifier.
pub fn create_zip(paths: &Vec<String>, contents: &Vec<Vec<u8>>, output_dir: &str) -> (r: Result<ProcessedArtifact, String>)
    requires
        paths@.len() == contents@.len(),
    ensures
        sum_lens(contents@) > u64::MAX ==> (r matches Err(m) && m@ == too_large_to_archive_message()),
        r matches Ok(a) ==> exists|id: Seq<char>| is_short_id(id) && archive_output(paths@, contents@, output_dir@, id, a),
        archivable(paths@, contents@) ==> r is Ok,
        !entry_names_fit(paths@) ==> r is Err,
{
    let id = short_id();
    create_zip_with_id(paths, contents, output_dir, id.as_str())
}

/// `a` is the WebP re-encoding of the image at `path` under the identifier `id`.
pub open spec fn webp_output(path: Seq<char>, data: Seq<u8>, dir: Seq<char>, id: Seq<char>, a: ProcessedArtifact) -> bool {
    &&& webp_of(data) == Some(a.bytes@)
    &&& a.result.output_path@ == join_spec(dir, stem_or(path, "image"@) + "_"@ + id + ".webp"@)
    &&& a.result.original_size == data.len()
    &&& a.result.processed_size == a.bytes@.len()
    &&& a.result.file_type@ == "webp"@
}

/// `m` begins with `prefix`.
pub open spec fn starts_with(m: Seq<char>, prefix: Seq<char>) -> bool {
    prefix.len() <= m.len() && m.subrange(0, prefix.len() as int) == prefix
}

/// The error of an image whose bytes do not decode.
pub open spec fn open_failure_prefix() -> Seq<char> {
    "Failed to open image: "@
}

/// The error of a decoded image that could not be encoded as WebP.
pub open spec fn encode_failure_prefix() -> Seq<char> {
    "Failed to write WebP: "@
}

fn with_prefix_starts(prefix: &str, detail: String) -> (r: String)
    ensures
        starts_with(r@, prefix@),
{
    let r = with_prefix(prefix, detail);
    assert(r@.subrange(0, prefix@.len() as int) =~= prefix@);
    r
}

/// Turns the outcome of re-encoding the bytes `data` of the image at `path`
/// into the artifact to be written as `<stem>_<id>.webp` in `output_dir`, or
/// into the error of the step that failed.
pub fn webp_artifact(path: &str, data_len: usize, output_dir: &str, id: &str, encoded: Result<Vec<u8>, ReencodeError>) -> (r: Result<ProcessedArtifact, String>)
    ensures
        encoded matches Ok(b) ==> (r matches Ok(a) && a.bytes@ == b@ && a.result.output_path@ == join_spec(
            output_dir@,
            stem_or(path@, "image"@) + "_"@ + id@ + ".webp"@,
        ) && a.result.original_size == data_len && a.result.processed_size == b@.len()
            && a.result.file_type@ == "webp"@),
        encoded matches Err(ReencodeError::Decode(_)) ==> (r matches Err(m) && starts_with(m@, open_failure_prefix())),
        encoded matches Err(ReencodeError::Encode(_)) ==> (r matches Err(m) && starts_with(m@, encode_failure_prefix())),
{
    match encoded {
        Ok(bytes) => {
            let mut name = stem_or_exec(path, "image");
            name.append("_");
            name.append(id);
            name.append(".webp");
            let output_path = join_path(output_dir, name.as_str());
            let processed_size = bytes.len() as u64;
            Ok(ProcessedArtifact {
                result: ProcessResult {
                    output_path,
                    original_size: data_len as u64,
                    processed_size,
                    file_type: String::from_str("webp"),
                },
                bytes,
            })
        },
        Err(ReencodeError::Decode(e)) => Err(with_prefix_starts("Failed to open image: ", e)),
        Err(ReencodeError::Encode(e)) => Err(with_prefix_starts("Failed to write WebP: ", e)),
    }
}

/// Decodes an image and re-encodes it as WebP, to be written as
/// `<stem>_<id>.webp` in `output_dir`.
pub fn convert_to_webp_with_id(path: &str, data: &Vec<u8>, output_dir: &str, id: &str) -> (r: Result<ProcessedArtifact, String>)
    ensures
        webp_of(data@) is Some ==> (r matches Ok(a) && webp_output(path@, data@, output_dir@, id@, a)),
        webp_of(data@) is None ==> r is Err,
        !image_decodes(data@) ==> (r matches Err(m) && starts_with(m@, open_failure_prefix())),
        image_decodes(data@) && webp_of(data@) is None ==> (r matches Err(m) && starts_with(
            m@,
            encode_failure_prefix(),
        )),
{
    let encoded = reencode_webp(data.as_slice());
    webp_artifact(path, data.len(), output_dir, id, encoded)
}

/// Re-encodes an image as WebP under a fresh identifier.
pub fn convert_to_webp(path: &str, data: &Vec<u8>, output_dir: &str) -> (r: Result<ProcessedArtifact, String>)
    ensures
        webp_of(data@) is Some ==> (r matches Ok(a) && exists|id: Seq<char>| is_short_id(id) && webp_output(path@, data@, output_dir@, id, a)),
        webp_of(data@) is None ==> r is Err,
        !image_decodes(data@) ==> (r matches Err(m) && starts_with(m@, open_failure_prefix())),
        image_decodes(data@) && webp_of(data@) is None ==> (r matches Err(m) && starts_with(
            m@,
            encode_failure_prefix(),
        )),
{
    let id = short_id();
    convert_to_webp_with_id(path, data, output_dir, id.as_str())
}

/// The type tag of a copied file: its extension, lower-cased, or `bin`.
pub open spec fn copy_ext(path: Seq<char>) -> Seq<char> {
    match path_ext(path) {
        Some(e) => lower_of(e),
        None => "bin"@,
    }
}

/// `a` is the unchanged copy of `path` under the identifier `id`.
pub open spec fn copy_output(path: Seq<char>, data: Seq<u8>, dir: Seq<char>, id: Seq<char>, a: ProcessedArtifact) -> bool {
    &&& a.bytes@ == data
    &&& a.result.output_path@ == join_spec(dir, stem_or(path, "file"@) + "_"@ + id + "."@ + copy_ext(path))
    &&& a.result.original_size == data.len()
    &&& a.result.processed_size == data.len()
    &&& a.result.file_type@ == copy_ext(path)
}

/// Copies a file unchanged, to be written as `<stem>_<id>.<ext>` in
/// `output_dir`.
pub fn copy_file_with_id(path: &str, data: &Vec<u8>, output_dir: &str, id: &str) -> (a: ProcessedArtifact)
    ensures
        copy_output(path@, data@, output_dir@, id@, a),
{
    let ext = match path_extension(path) {
        Some(e) => lowercase(e.as_str()),
        None => String::from_str("bin"),
    };
    let mut name = stem_or_exec(path, "file");
    name.append("_");
    name.append(id);
    name.append(".");
    name.append(ext.as_str());
    let output_path = join_path(output_dir, name.as_str());
    let bytes = copy_bytes(data);
    ProcessedArtifact {
        result: ProcessResult {
            output_path,
            original_size: data.len() as u64,
            processed_size: data.len() as u64,
            file_type: ext,
        },
        bytes,
    }
}

fn copy_bytes(data: &Vec<u8>) -> (r: Vec<u8>)
    ensures
        r@ == data@,
{
    let mut r: Vec<u8> = Vec::with_capacity(data.len());
    let mut i: usize = 0;
    while i < data.len()
        invariant
            i <= data@.len(),
            r@ == data@.take(i as int),
        decreases data@.len() - i,
    {
        r.push(data[i]);
        i = i + 1;
        assert(r@ =~= data@.take(i as int));
    }
    assert(data@.take(i as int) =~= data@);
    r
}

/// Copies a file unchanged under a fresh identifier.
pub fn copy_file(path: &str, data: &Vec<u8>, output_dir: &str) -> (a: ProcessedArtifact)
    ensures
        exists|id: Seq<char>| is_short_id(id) && copy_output(path@, data@, output_dir@, id, a),
{
    let id = short_id();
    copy_file_with_id(path, data, output_dir, id.as_str())
}

/// The paths of the entries, in order.
pub open spec fn entry_paths(entries: Seq<FileEntry>) -> Seq<String> {
    Seq::new(entries.len(), |i: int| entries[i].path)
}

fn paths_of(entries: &Vec<FileEntry>) -> (r: Vec<String>)
    ensures
        r@.len() == entries@.len(),
        forall|i: int| 0 <= i < r@.len() ==> #[trigger] r@[i]@ == entries@[i].path@,
{
    let mut r: Vec<String> = Vec::new();
    let mut i: usize = 0;
    while i < entries.len()
        invariant
            i <= entries@.len(),
            r@.len() == i,
            forall|k: int| 0 <= k < i ==> #[trigger] r@[k]@ == entries@[k].path@,
        decreases entries@.len() - i,
    {
        r.push(String::from_str(entries[i].path.as_str()));
        i = i + 1;
    }
    r
}

/// The archive entries of a selection depend only on the paths' text.
proof fn lemma_archive_entries_same_text(a: Seq<String>, b: Seq<String>, contents: Seq<Vec<u8>>)
    requires
        a.len() == b.len(),
        forall|i: int| 0 <= i < a.len() ==> #[trigger] a[i]@ == b[i]@,
    ensures
        archive_entries(a, contents) == archive_entries(b, contents),
{
    assert(archive_entries(a, contents) =~= archive_entries(b, contents));
}

/// Turns a selection into one artifact. The selection is validated first;
/// then a single convertible image (not already WebP) is re-encoded as WebP,
/// any other single file is copied unchanged, and two or more files are put
/// into a ZIP archive. `contents[i]` holds the bytes of `paths[i]`.
pub fn process_files(paths: &Vec<FileEntry>, contents: &Vec<Vec<u8>>, output_dir: &str) -> (r: Result<ProcessedArtifact, String>)
    requires
        contents@.len() == paths@.len(),
    ensures
        validation_outcome(paths@) matches Some(f) ==> (r matches Err(m) && m@ == f.0),
        validation_outcome(paths@) is None && paths@.len() == 1 && !(is_image_path(paths@[0].path@)
            && !is_webp_path(paths@[0].path@)) ==> (r matches Ok(a) && exists|id: Seq<char>|
            is_short_id(id) && copy_output(paths@[0].path@, contents@[0]@, output_dir@, id, a)),
        validation_outcome(paths@) is None && paths@.len() == 1 && is_image_path(paths@[0].path@)
            && !is_webp_path(paths@[0].path@) ==> (
        (webp_of(contents@[0]@) is Some ==> (r matches Ok(a) && exists|id: Seq<char>|
            is_short_id(id) && webp_output(paths@[0].path@, contents@[0]@, output_dir@, id, a)))
        && (webp_of(contents@[0]@) is None ==> r is Err)
        && (!image_decodes(contents@[0]@) ==> (r matches Err(m) && starts_with(m@, open_failure_prefix())))
        && (image_decodes(contents@[0]@) && webp_of(contents@[0]@) is None ==> (r matches Err(m)
            && starts_with(m@, encode_failure_prefix())))),
        r matches Ok(a) ==> (paths@.len() >= 2 ==> exists|id: Seq<char>|
            is_short_id(id) && archive_output(entry_paths(paths@), contents@, output_dir@, id, a)),
        validation_outcome(paths@) is None && paths@.len() >= 2 && archivable(entry_paths(paths@), contents@)
            ==> r is Ok,
        r is Ok ==> validation_outcome(paths@) is None,
{
    match validate_files(paths) {
        Ok(()) => {},
        Err(e) => {
            return Err(e.message);
        },
    }
    if paths.len() == 1 {
        let path = paths[0].path.as_str();
        if is_image(path) && !is_webp(path) {
            convert_to_webp(path, &contents[0], output_dir)
        } else {
            Ok(copy_file(path, &contents[0], output_dir))
        }
    } else {
        let names = paths_of(paths);
        proof {
            lemma_archive_entries_same_text(names@, entry_paths(paths@), contents@);
            if entry_names_fit(entry_paths(paths@)) {
                assert forall|a: int| 0 <= a < names@.len() implies base_name_or(
                    #[trigger] names@[a]@,
                    "file"@,
                ).len() <= MAX_ENTRY_NAME_CHARS by {
                    assert(entry_paths(paths@)[a]@ == names@[a]@);
                }
            }
            if distinct_base_names(entry_paths(paths@)) {
                assert forall|a: int, b: int| 0 <= a < b < names@.len() implies base_name_or(
                    #[trigger] names@[a]@,
                    "file"@,
                ) != base_name_or(#[trigger] names@[b]@, "file"@) by {
                    assert(entry_paths(paths@)[a]@ == names@[a]@);
                    assert(entry_paths(paths@)[b]@ == names@[b]@);
                }
            }
        }
        let r = create_zip(&names, contents, output_dir);
        r
    }
}

/// A selection of more than `MAX_FILES` entries is refused with the count
/// error, whatever the entries are: no file's metadata or contents decide it.
pub proof fn count_limit_precedes_file_checks(a: Seq<FileEntry>, b: Seq<FileEntry>)
    requires
        a.len() > MAX_FILES,
        b.len() == a.len(),
    ensures
        validation_outcome(a) == Some((too_many_message(), None::<Seq<char>>)),
        validation_outcome(a) == validation_outcome(b),
{
}

/// A single regular file over `MAX_SINGLE_FILE_SIZE` is refused with a
/// message that holds the file's name and its size in MiB to one decimal.
pub proof fn oversize_message_names_file_and_size(e: FileEntry, size: u64)
    requires
        e.status == FileStatus::File(size),
        size > MAX_SINGLE_FILE_SIZE,
    ensures
        validation_outcome(seq![e]) == Some((too_large_message(e.path@, size as nat), Some(e.path@))),
        seq_contains(too_large_message(e.path@, size as nat), base_name_or(e.path@, "file"@)),
        seq_contains(too_large_message(e.path@, size as nat), mib_text(size as nat)),
{
    let s = seq![e];
    assert(first_failure(s, 1) is None);
    let name = base_name_or(e.path@, "file"@);
    let m = too_large_message(e.path@, size as nat);
    let head = "\""@;
    let mid = "\" is too large ("@;
    let tail = " MB). Maximum file size is 500 MB."@;
    assert(m == head + name + mid + mib_text(size as nat) + tail);
    let i = head.len() as int;
    assert(m.subrange(i, i + name.len()) =~= name);
    let j = (head.len() + name.len() + mid.len()) as int;
    assert(m.subrange(j, j + mib_text(size as nat).len()) =~= mib_text(size as nat));
}

/// The total length of the entries' uncompressed bytes.
pub open spec fn entries_data_len(entries: Seq<(Seq<char>, Seq<u8>)>) -> nat
    decreases entries.len(),
{
    if entries.len() == 0 {
        0
    } else {
        entries_data_len(entries.drop_last()) + entries.last().1.len()
    }
}

/// The archive of a selection has one entry per input, in order, named by
/// the input's base name and holding its bytes; its entries' total
/// uncompressed size is the sum of the inputs' sizes.
pub proof fn archive_holds_inputs(paths: Seq<String>, contents: Seq<Vec<u8>>)
    requires
        paths.len() == contents.len(),
    ensures
        archive_entries(paths, contents).len() == paths.len(),
        forall|i: int| 0 <= i < paths.len() ==> #[trigger] archive_entries(paths, contents)[i]
            == (base_name_or(paths[i]@, "file"@), contents[i]@),
        entries_data_len(archive_entries(paths, contents)) == sum_lens(contents),
    decreases paths.len(),
{
    if paths.len() > 0 {
        archive_holds_inputs(paths.drop_last(), contents.drop_last());
        assert(archive_entries(paths, contents).drop_last()
            =~= archive_entries(paths.drop_last(), contents.drop_last()));
    }
}

} // verus!
