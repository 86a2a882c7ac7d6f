use zipdrop::archive::ReencodeError;
use zipdrop::processor::{is_allowed_extension, is_image_extension, is_webp_extension, validate_count, webp_artifact};
use std::io::{Cursor, Read};
use zipdrop::processor::{
    copy_file, copy_file_with_id, create_zip, create_zip_with_id, process_files, FileEntry,
    FileStatus,
};

fn entry(path: &str, data: &[u8]) -> FileEntry {
    FileEntry { path: path.to_string(), status: FileStatus::File(data.len() as u64) }
}

fn is_short_id(s: &str) -> bool {
    s.len() == 8 && s.chars().all(|c| c.is_ascii_digit() || ('a'..='f').contains(&c))
}

fn png_bytes() -> Vec<u8> {
    let img = image::RgbImage::from_fn(4, 3, |x, y| image::Rgb([x as u8 * 40, y as u8 * 60, 200]));
    let mut out = Cursor::new(Vec::new());
    image::DynamicImage::ImageRgb8(img).write_to(&mut out, image::ImageFormat::Png).unwrap();
    out.into_inner()
}

#[test]
fn non_image_single_file_is_copied_unchanged() {
    let data = b"plain text contents".to_vec();
    let a = process_files(&vec![entry("/docs/notes.TXT", &data)], &vec![data.clone()], "/out").unwrap();
    assert_eq!(a.bytes, data);
    assert_eq!(a.result.file_type, "txt");
    assert_eq!(a.result.original_size, data.len() as u64);
    assert_eq!(a.result.processed_size, data.len() as u64);
    let name = a.result.output_path.strip_prefix("/out/notes_").unwrap();
    assert!(is_short_id(&name[..8]));
    assert_eq!(&name[8..], ".txt");
}

#[test]
fn webp_single_file_is_copied_unchanged() {
    let data = vec![0x52, 0x49, 0x46, 0x46, 1, 2, 3, 4];
    let a = process_files(&vec![entry("/p/photo.webp", &data)], &vec![data.clone()], "/out").unwrap();
    assert_eq!(a.bytes, data);
    assert_eq!(a.result.file_type, "webp");
}

#[test]
fn copy_without_extension_is_tagged_bin() {
    let data = vec![9u8; 5];
    let a = copy_file_with_id("/d/Makefile", &data, "/out/", "0123abcd");
    assert_eq!(a.result.output_path, "/out/Makefile_0123abcd.bin");
    assert_eq!(a.result.file_type, "bin");
    assert_eq!(a.bytes, data);
    let b = copy_file("/d/Makefile", &data, "out");
    assert!(b.result.output_path.starts_with("out/Makefile_"));
}

#[test]
fn single_png_is_reencoded_as_webp() {
    let data = png_bytes();
    let a = process_files(&vec![entry("/pics/Shot 1.png", &data)], &vec![data.clone()], "/out").unwrap();
    assert_eq!(a.result.file_type, "webp");
    assert_eq!(a.result.original_size, data.len() as u64);
    assert_eq!(a.result.processed_size, a.bytes.len() as u64);
    assert!(a.result.output_path.starts_with("/out/Shot 1_"));
    assert!(a.result.output_path.ends_with(".webp"));
    let decoded = image::load_from_memory_with_format(&a.bytes, image::ImageFormat::WebP).unwrap();
    assert_eq!((decoded.width(), decoded.height()), (4, 3));
}

#[test]
fn single_jpeg_is_reencoded_as_webp() {
    let img = image::RgbImage::from_fn(8, 8, |x, _| image::Rgb([x as u8 * 30, 10, 10]));
    let mut out = Cursor::new(Vec::new());
    image::DynamicImage::ImageRgb8(img).write_to(&mut out, image::ImageFormat::Jpeg).unwrap();
    let data = out.into_inner();
    let a = process_files(&vec![entry("/pics/a.jpg", &data)], &vec![data.clone()], "/out").unwrap();
    assert_eq!(a.result.file_type, "webp");
    assert!(image::load_from_memory_with_format(&a.bytes, image::ImageFormat::WebP).is_ok());
}

#[test]
fn corrupt_image_is_an_error() {
    let data = b"not an image".to_vec();
    let e = process_files(&vec![entry("/pics/broken.png", &data)], &vec![data], "/out").unwrap_err();
    assert!(e.starts_with("Failed to open image: "), "{}", e);
}

#[test]
fn several_files_become_an_archive_of_base_names() {
    let a_data = b"first file".to_vec();
    let b_data = vec![7u8; 3000];
    let entries = vec![entry("/home/u/docs/a.txt", &a_data), entry("/tmp/other/b.csv", &b_data)];
    let art = process_files(&entries, &vec![a_data.clone(), b_data.clone()], "/out").unwrap();
    assert_eq!(art.result.file_type, "archive");
    assert_eq!(art.result.original_size, (a_data.len() + b_data.len()) as u64);
    assert_eq!(art.result.processed_size, art.bytes.len() as u64);
    let name = art.result.output_path.strip_prefix("/out/archive_").unwrap();
    assert!(is_short_id(&name[..8]));
    assert_eq!(&name[8..], ".zip");

    let mut zip = zip::ZipArchive::new(Cursor::new(art.bytes)).unwrap();
    assert_eq!(zip.len(), 2);
    let mut total = 0u64;
    let mut names = Vec::new();
    for i in 0..zip.len() {
        let mut f = zip.by_index(i).unwrap();
        names.push(f.name().to_string());
        let mut buf = Vec::new();
        f.read_to_end(&mut buf).unwrap();
        total += buf.len() as u64;
        if i == 0 {
            assert_eq!(buf, a_data);
        } else {
            assert_eq!(buf, b_data);
        }
    }
    assert_eq!(names, vec!["a.txt", "b.csv"]);
    assert_eq!(total, art.result.original_size);
}

#[test]
fn archive_with_id_is_named_by_it() {
    let paths = vec!["/x/one.txt".to_string(), "two".to_string()];
    let contents = vec![b"1".to_vec(), b"22".to_vec()];
    let art = create_zip_with_id(&paths, &contents, "/out", "deadbeef").unwrap();
    assert_eq!(art.result.output_path, "/out/archive_deadbeef.zip");
    assert_eq!(art.result.original_size, 3);
    let art2 = create_zip(&paths, &contents, "").unwrap();
    assert!(art2.result.output_path.starts_with("archive_"));
}

#[test]
fn invalid_selection_stops_processing() {
    let entries = vec![FileEntry { path: "/d".to_string(), status: FileStatus::Directory }];
    let e = process_files(&entries, &vec![vec![]], "/out").unwrap_err();
    assert_eq!(e, "Directories are not supported. Please zip the folder first.");
}

#[test]
fn equal_base_names_cannot_share_an_archive() {
    let paths = vec!["/a/same.txt".to_string(), "/b/same.txt".to_string()];
    let contents = vec![b"1".to_vec(), b"2".to_vec()];
    let e = create_zip_with_id(&paths, &contents, "/out", "00000000").unwrap_err();
    assert!(e.starts_with("Failed to start zip entry: "), "{}", e);
}

#[test]
fn webp_artifact_from_each_outcome() {
    let a = webp_artifact("/p/Cat.PNG", 120, "/out", "abcdef01", Ok(vec![1, 2, 3])).unwrap();
    assert_eq!(a.bytes, vec![1, 2, 3]);
    assert_eq!(a.result.output_path, "/out/Cat_abcdef01.webp");
    assert_eq!(a.result.original_size, 120);
    assert_eq!(a.result.processed_size, 3);
    assert_eq!(a.result.file_type, "webp");
    let e = webp_artifact("/p/x.png", 1, "/out", "abcdef01", Err(ReencodeError::Decode("bad magic".to_string()))).unwrap_err();
    assert_eq!(e, "Failed to open image: bad magic");
    let e = webp_artifact("/p/x.png", 1, "/out", "abcdef01", Err(ReencodeError::Encode("too wide".to_string()))).unwrap_err();
    assert_eq!(e, "Failed to write WebP: too wide");
}

#[test]
fn extension_checks_on_lowered_text() {
    for e in ["jpg", "jpeg", "png", "gif", "bmp", "tiff", "tif"] {
        assert!(is_image_extension(e));
    }
    assert!(!is_image_extension("JPG"));
    assert!(!is_image_extension("webp"));
    assert!(is_webp_extension("webp"));
    assert!(!is_webp_extension("WEBP"));
    assert!(is_allowed_extension("swift"));
    assert!(!is_allowed_extension("exe"));
}

#[test]
fn count_is_checked_before_files() {
    assert_eq!(validate_count(0).unwrap_err().message, "No files provided");
    assert_eq!(validate_count(51).unwrap_err().message, "Too many files. Maximum is 50 files.");
    assert!(validate_count(1).is_ok());
    assert!(validate_count(50).is_ok());
}

#[test]
fn overlong_entry_name_is_an_error() {
    let long = format!("/d/{}.txt", "n".repeat(16400));
    let paths = vec![long, "/d/b.txt".to_string()];
    let contents = vec![b"1".to_vec(), b"2".to_vec()];
    let e = create_zip_with_id(&paths, &contents, "/out", "00000000").unwrap_err();
    assert!(e.starts_with("File name too long for an archive: "));
}
