//! The outside encoders the processor relies on: ZIP archives, image
//! decoding and WebP encoding, and random identifiers.
use vstd::prelude::*;

verus! {

/// A `zip::ZipWriter` over an in-memory buffer; entries are started only by
/// `zip_start_file`, always with the large-file option. Verus refuses a declaration
/// of the writer type itself (its bounds name `std::io` traits), so it is held
/// here, out of Verus's sight; `zip_entries` names what it holds.
#[verifier::external_body]
pub struct ZipBuilder {
    writer: zip::ZipWriter<std::io::Cursor<Vec<u8>>>,
}

/// The entries written so far, as (name, uncompressed bytes), in order.
pub uninterp spec fn zip_entries(w: ZipBuilder) -> Seq<(Seq<char>, Seq<u8>)>;

/// Whether an entry is open for writing: one was started and nothing has
/// closed it.
pub uninterp spec fn zip_writing(w: ZipBuilder) -> bool;

/// The longest entry name, in characters, that fits the format's 16-bit
/// byte-length field whatever the characters (at most four bytes each).
pub const MAX_ENTRY_NAME_CHARS: usize = 16383;

/// The bytes of the finished archive holding the given entries, each
/// deflate-compressed. With the crate's `time` feature off, entries carry the
/// fixed default timestamp, so the bytes depend on the entries alone.
pub uninterp spec fn zip_archive(entries: Seq<(Seq<char>, Seq<u8>)>) -> Seq<u8>;

/// Relies on `zip::ZipWriter::new`: a writer over an empty in-memory buffer
/// holds no entries.
#[verifier::external_body]
pub(crate) fn zip_new() -> (w: ZipBuilder)
    ensures
        zip_entries(w) == Seq::<(Seq<char>, Seq<u8>)>::empty(),
{
    ZipBuilder { writer: zip::ZipWriter::new(std::io::Cursor::new(Vec::new())) }
}

/// Whether an entry of that name has been started.
pub open spec fn has_entry_named(entries: Seq<(Seq<char>, Seq<u8>)>, name: Seq<char>) -> bool {
    exists|i: int| 0 <= i < entries.len() && #[trigger] entries[i].0 == name
}

/// Relies on `zip::ZipWriter::start_file`: on success a new, empty entry
/// with that name is open, compressed with deflate. Every entry is started
/// with the large-file (ZIP64) option, so closing an entry never fails on
/// its size; with writes going to an in-memory buffer, the one refusal is a
/// name already in the archive. A name over 65535 bytes would panic, so the
/// length is bounded.
#[verifier::external_body]
pub(crate) fn zip_start_file(w: &mut ZipBuilder, name: &str) -> (r: Result<(), String>)
    requires
        name@.len() <= MAX_ENTRY_NAME_CHARS,
    ensures
        r is Ok ==> zip_entries(*final(w)) == zip_entries(*old(w)).push((name@, Seq::<u8>::empty())),
        r is Ok ==> zip_writing(*final(w)),
        !has_entry_named(zip_entries(*old(w)), name@) ==> r is Ok,
{
    let options = zip::write::SimpleFileOptions::default()
        .compression_method(zip::CompressionMethod::Deflated)
        .large_file(true);
    w.writer.start_file(name, options).map_err(|e| e.to_string())
}

/// Relies on `std::io::Write::write_all` for `zip::ZipWriter`: the bytes are
/// appended to the open entry. An entry started with the large-file option
/// has no size limit, and the in-memory buffer does not fail.
#[verifier::external_body]
pub(crate) fn zip_write_all(w: &mut ZipBuilder, data: &[u8]) -> (r: Result<(), String>)
    requires
        zip_entries(*old(w)).len() > 0,
        zip_writing(*old(w)),
    ensures
        r is Ok ==> zip_entries(*final(w)) == zip_entries(*old(w)).update(
            zip_entries(*old(w)).len() - 1,
            (zip_entries(*old(w)).last().0, zip_entries(*old(w)).last().1 + data@),
        ),
        zip_writing(*final(w)),
        r is Ok,
{
    std::io::Write::write_all(&mut w.writer, data).map_err(|e| e.to_string())
}

/// Relies on `zip::ZipWriter::finish`: the archive's bytes. Closing the last
/// entry (started with the large-file option) and writing the central
/// directory to an in-memory buffer do not fail.
#[verifier::external_body]
pub(crate) fn zip_finish(w: ZipBuilder) -> (r: Result<Vec<u8>, String>)
    ensures
        r matches Ok(b) ==> b@ == zip_archive(zip_entries(w)),
        r is Ok,
{
    w.writer.finish().map(|c| c.into_inner()).map_err(|e| e.to_string())
}

/// Whether `image::load_from_memory` decodes these bytes (the format is
/// guessed from the content, under the crate's fixed limits).
pub uninterp spec fn image_decodes(data: Seq<u8>) -> bool;

/// The WebP encoding of the image these bytes decode to, or `None` where
/// decoding or encoding fails.
pub uninterp spec fn webp_of(data: Seq<u8>) -> Option<Seq<u8>>;

/// Which step of a re-encoding failed, with the outside error's text.
#[derive(Debug, Clone)]
pub enum ReencodeError {
    /// The bytes did not decode as an image.
    Decode(String),
    /// The decoded image could not be encoded as WebP.
    Encode(String),
}

/// Relies on `image::load_from_memory` and `image::DynamicImage::write_to`
/// with `ImageFormat::WebP`: decodes the bytes and encodes the image as WebP
/// into memory. Both depend on the bytes alone.
#[verifier::external_body]
pub(crate) fn reencode_webp(data: &[u8]) -> (r: Result<Vec<u8>, ReencodeError>)
    ensures
        (r is Ok) == (webp_of(data@) is Some),
        r matches Ok(b) ==> webp_of(data@) == Some(b@),
        (r matches Err(ReencodeError::Decode(_))) == !image_decodes(data@),
{
    let img = image::load_from_memory(data).map_err(|e| ReencodeError::Decode(e.to_string()))?;
    let mut out = std::io::Cursor::new(Vec::new());
    img.write_to(&mut out, image::ImageFormat::WebP).map_err(|e| ReencodeError::Encode(e.to_string()))?;
    Ok(out.into_inner())
}

/// A lower-case hexadecimal digit.
pub open spec fn is_hex_digit(c: char) -> bool {
    ('0' <= c && c <= '9') || ('a' <= c && c <= 'f')
}

/// Relies on `uuid::Uuid::new_v4` and the `Display` of `Uuid`: a random
/// identifier in hyphenated form, 36 characters of which the first eight are
/// lower-case hexadecimal digits.
#[verifier::external_body]
pub(crate) fn new_uuid_text() -> (r: String)
    ensures
        r@.len() == 36,
        forall|i: int| 0 <= i < 8 ==> is_hex_digit(#[trigger] r@[i]),
{
    uuid::Uuid::new_v4().to_string()
}

/// Eight lower-case hexadecimal digits.
pub open spec fn is_short_id(id: Seq<char>) -> bool {
    id.len() == 8 && forall|i: int| 0 <= i < 8 ==> is_hex_digit(#[trigger] id[i])
}

/// An 8-character fragment of a fresh random identifier, used to keep output
/// names from colliding.
pub fn short_id() -> (r: String)
    ensures
        is_short_id(r@),
{
    let full = new_uuid_text();
    let r = crate::text::slice_chars(full.as_str(), 0, 8);
    assert forall|i: int| 0 <= i < 8 implies is_hex_digit(#[trigger] r@[i]) by {
        assert(r@[i] == full@[i]);
    }
    r
}

} // verus!
