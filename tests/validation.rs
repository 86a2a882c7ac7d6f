use zipdrop::processor::{is_image, is_webp, validate_files, FileEntry, FileStatus};

const MIB: u64 = 1024 * 1024;

fn file(path: &str, size: u64) -> FileEntry {
    FileEntry { path: path.to_string(), status: FileStatus::File(size) }
}

#[test]
fn empty_selection_is_refused() {
    let e = validate_files(&vec![]).unwrap_err();
    assert_eq!(e.message, "No files provided");
    assert_eq!(e.file, None);
}

#[test]
fn more_than_fifty_entries_is_a_count_error() {
    // None of these paths exists: the count is checked before any file.
    let entries: Vec<FileEntry> = (0..51)
        .map(|i| FileEntry { path: format!("/nowhere/{}.txt", i), status: FileStatus::Missing })
        .collect();
    let e = validate_files(&entries).unwrap_err();
    assert_eq!(e.message, "Too many files. Maximum is 50 files.");
    assert_eq!(e.file, None);
}

#[test]
fn fifty_entries_are_accepted() {
    let entries: Vec<FileEntry> = (0..50).map(|i| file(&format!("/d/{}.txt", i), 10)).collect();
    assert!(validate_files(&entries).is_ok());
}

#[test]
fn missing_file_is_reported_with_its_path() {
    let entries = vec![file("/d/a.txt", 1), FileEntry { path: "/d/gone.txt".to_string(), status: FileStatus::Missing }];
    let e = validate_files(&entries).unwrap_err();
    assert_eq!(e.message, "File not found: /d/gone.txt");
    assert_eq!(e.file, Some("/d/gone.txt".to_string()));
}

#[test]
fn directory_is_refused() {
    let entries = vec![FileEntry { path: "/d/folder".to_string(), status: FileStatus::Directory }];
    let e = validate_files(&entries).unwrap_err();
    assert_eq!(e.message, "Directories are not supported. Please zip the folder first.");
    assert_eq!(e.file, Some("/d/folder".to_string()));
}

#[test]
fn unreadable_metadata_is_reported() {
    let entries = vec![FileEntry { path: "/d/x.pdf".to_string(), status: FileStatus::Unreadable("permission denied".to_string()) }];
    let e = validate_files(&entries).unwrap_err();
    assert_eq!(e.message, "Cannot read file: permission denied");
}

#[test]
fn oversize_file_message_holds_name_and_size() {
    let e = validate_files(&vec![file("/videos/big.mov", 600 * MIB)]).unwrap_err();
    assert_eq!(e.message, "\"big.mov\" is too large (600.0 MB). Maximum file size is 500 MB.");
    assert_eq!(e.file, Some("/videos/big.mov".to_string()));
    assert_eq!(e.to_string(), e.message);
}

#[test]
fn oversize_size_is_rounded_to_one_decimal() {
    // 512.75 MiB and a little more round to 512.8.
    let e = validate_files(&vec![file("/v/clip.mp4", 512 * MIB + 3 * MIB / 4 + 100)]).unwrap_err();
    assert!(e.message.contains("\"clip.mp4\""));
    assert!(e.message.contains("(512.8 MB)"));
}

#[test]
fn exactly_the_single_limit_is_accepted() {
    assert!(validate_files(&vec![file("/v/a.mov", 500 * MIB)]).is_ok());
    assert!(validate_files(&vec![file("/v/a.mov", 500 * MIB + 1)]).is_err());
}

#[test]
fn unknown_extension_is_refused_by_name() {
    let e = validate_files(&vec![file("/d/setup.EXE", 10)]).unwrap_err();
    assert_eq!(e.message, "Unsupported file type: .exe (setup.EXE)");
}

#[test]
fn extension_check_ignores_case_and_missing_extensions_pass() {
    assert!(validate_files(&vec![file("/d/PHOTO.JPG", 10)]).is_ok());
    assert!(validate_files(&vec![file("/d/README", 10)]).is_ok());
    assert!(validate_files(&vec![file("/d/.bashrc", 10)]).is_ok());
}

#[test]
fn total_over_one_gib_is_refused() {
    let entries = vec![file("/d/a.mov", 400 * MIB), file("/d/b.mov", 400 * MIB), file("/d/c.mov", 400 * MIB)];
    let e = validate_files(&entries).unwrap_err();
    assert_eq!(e.message, "Total size (1200.0 MB) exceeds 1 GB limit.");
    assert_eq!(e.file, None);
}

#[test]
fn total_of_exactly_one_gib_is_accepted() {
    let entries = vec![file("/d/a.mov", 400 * MIB), file("/d/b.mov", 400 * MIB), file("/d/c.mov", 224 * MIB)];
    assert!(validate_files(&entries).is_ok());
    let entries = vec![file("/d/a.mov", 400 * MIB), file("/d/b.mov", 400 * MIB), file("/d/c.mov", 224 * MIB + 1)];
    assert!(validate_files(&entries).is_err());
}

#[test]
fn image_and_webp_detection_by_extension() {
    for p in ["a.jpg", "a.JPEG", "/x/b.png", "c.gif", "d.bmp", "e.tiff", "f.TIF"] {
        assert!(is_image(p), "{}", p);
    }
    for p in ["a.webp", "a.heic", "a.pdf", "noext", ".png"] {
        assert!(!is_image(p), "{}", p);
    }
    assert!(is_webp("/x/pic.WebP"));
    assert!(!is_webp("/x/pic.png"));
}
