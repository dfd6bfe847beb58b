use todo_backend::attachments::extension_is_allowed;
use todo_backend::attachments::get_mime_type;
use todo_backend::attachments::mime_of_lowercase;
use todo_backend::attachments::mime_for_extension;
use todo_backend::attachments::storage_file_name;
use todo_backend::attachments::validate_extension;
use todo_backend::attachments::validate_file_type;

#[test]
fn test_validate_file_type() {
    // Valid file types
    assert!(validate_file_type("test.png").is_ok());
    assert!(validate_file_type("test.jpg").is_ok());
    assert!(validate_file_type("test.jpeg").is_ok());
    assert!(validate_file_type("test.gif").is_ok());
    assert!(validate_file_type("test.webp").is_ok());
    assert!(validate_file_type("test.pdf").is_ok());
    assert!(validate_file_type("test.txt").is_ok());
    assert!(validate_file_type("test.md").is_ok());

    // Invalid file types
    assert!(validate_file_type("test.exe").is_err());
    assert!(validate_file_type("test.zip").is_err());
    assert!(validate_file_type("test").is_err());
}

#[test]
fn test_get_mime_type() {
    assert_eq!(get_mime_type("test.png"), Some("image/png".to_string()));
    assert_eq!(get_mime_type("test.jpg"), Some("image/jpeg".to_string()));
    assert_eq!(get_mime_type("test.jpeg"), Some("image/jpeg".to_string()));
    assert_eq!(get_mime_type("test.gif"), Some("image/gif".to_string()));
    assert_eq!(get_mime_type("test.webp"), Some("image/webp".to_string()));
    assert_eq!(get_mime_type("test.pdf"), Some("application/pdf".to_string()));
    assert_eq!(get_mime_type("test.txt"), Some("text/plain".to_string()));
    assert_eq!(get_mime_type("test.md"), Some("text/markdown".to_string()));
    assert_eq!(get_mime_type("test.unknown"), None);
    assert_eq!(get_mime_type("test"), None);
}

#[test]
fn every_allowed_extension_is_accepted_and_has_a_type() {
    let known = [
        ("png", "image/png"),
        ("jpg", "image/jpeg"),
        ("jpeg", "image/jpeg"),
        ("gif", "image/gif"),
        ("webp", "image/webp"),
        ("bmp", "image/bmp"),
        ("svg", "image/svg+xml"),
        ("ico", "image/x-icon"),
        ("pdf", "application/pdf"),
        ("txt", "text/plain"),
        ("md", "text/markdown"),
        ("mp4", "video/mp4"),
        ("webm", "video/webm"),
        ("mov", "video/quicktime"),
        ("mp3", "audio/mpeg"),
        ("wav", "audio/wav"),
        ("ogg", "audio/ogg"),
    ];
    for (extension, mime) in known {
        let path = format!("dir/file.{}", extension);
        assert!(validate_file_type(&path).is_ok(), "{}", path);
        assert_eq!(get_mime_type(&path), Some(mime.to_string()));
        assert!(validate_extension(&Some(extension.to_string())).is_ok());
        assert_eq!(mime_for_extension(&Some(extension.to_string())), Some(mime.to_string()));
    }
}

#[test]
fn extension_counts_in_lowercase() {
    assert!(validate_file_type("PHOTO.PNG").is_ok());
    assert!(validate_file_type("notes.Md").is_ok());
    assert_eq!(get_mime_type("PHOTO.JPG"), Some("image/jpeg".to_string()));
    assert_eq!(mime_for_extension(&Some("OGG".to_string())), Some("audio/ogg".to_string()));
    assert!(validate_extension(&Some("Pdf".to_string())).is_ok());
}

#[test]
fn rejected_file_gets_the_rejection_message() {
    let expected = "File type not allowed. Allowed types: images (png, jpg, jpeg, gif, webp, bmp, svg, ico), PDF, text (txt, md), video (mp4, webm, mov), audio (mp3, wav, ogg)";
    assert_eq!(validate_file_type("virus.exe"), Err(expected.to_string()));
    assert_eq!(validate_file_type("archive.tar.gz"), Err(expected.to_string()));
    assert_eq!(validate_file_type(".png"), Err(expected.to_string()));
    assert_eq!(validate_file_type(""), Err(expected.to_string()));
    assert_eq!(validate_extension(&None), Err(expected.to_string()));
    assert_eq!(validate_extension(&Some(String::new())), Err(expected.to_string()));
    assert_eq!(validate_extension(&Some("pngx".to_string())), Err(expected.to_string()));
}

#[test]
fn file_without_known_extension_has_no_type() {
    assert_eq!(get_mime_type("archive.zip"), None);
    assert_eq!(get_mime_type(".png"), None);
    assert_eq!(get_mime_type("png"), None);
    assert_eq!(mime_for_extension(&None), None);
    assert_eq!(mime_for_extension(&Some("exe".to_string())), None);
}

#[test]
fn only_the_last_extension_counts() {
    assert!(validate_file_type("report.exe.pdf").is_ok());
    assert_eq!(get_mime_type("report.exe.pdf"), Some("application/pdf".to_string()));
    assert!(validate_file_type("report.pdf.exe").is_err());
}

#[test]
fn stored_name_keeps_the_extension() {
    assert_eq!(storage_file_name("abc", "png"), "abc.png");
    assert_eq!(storage_file_name("abc", ""), "abc");
    assert_eq!(storage_file_name("1f0e", "tar"), "1f0e.tar");
}

#[test]
fn paths_without_a_dot_have_no_type() {
    for path in ["", "png", "dir/png", "a/b/c", "C:\\files\\pdf", "файл", "notes txt"] {
        assert!(validate_file_type(path).is_err(), "{}", path);
        assert_eq!(get_mime_type(path), None, "{}", path);
    }
}

#[test]
fn bare_names_have_the_type_of_what_follows_the_last_dot() {
    assert!(extension_is_allowed("png"));
    assert!(extension_is_allowed("ogg"));
    assert!(!extension_is_allowed("PNG"));
    assert!(!extension_is_allowed(""));
    assert!(!extension_is_allowed("exe"));
    assert_eq!(mime_of_lowercase("jpeg"), Some("image/jpeg".to_string()));
    assert_eq!(mime_of_lowercase("svg"), Some("image/svg+xml".to_string()));
    assert_eq!(mime_of_lowercase("JPEG"), None);
    assert_eq!(mime_of_lowercase(""), None);
    for (name, mime) in [
        ("a.png", Some("image/png")),
        ("archive.tar.MD", Some("text/markdown")),
        ("..png", Some("image/png")),
        ("...", None),
        ("a.", None),
        (".png", None),
        (".", None),
        ("", None),
        ("x.p n g", None),
        ("\u{fc}ber.PDF", Some("application/pdf")),
    ] {
        assert_eq!(get_mime_type(name), mime.map(|m| m.to_string()), "{}", name);
    }
    assert!(validate_file_type("notes.TXT").is_ok());
    assert!(validate_file_type("..mp3").is_ok());
    assert!(validate_file_type(".mp3").is_err());
    assert!(validate_file_type("mp3.").is_err());
    assert!(validate_file_type("a.mp3.exe").is_err());
}
