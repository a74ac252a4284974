use embed_doc_image::errors::EmbedError;
use embed_doc_image::mime::determine_mime_type;
use embed_doc_image::path::extension_of_path;

#[test]
fn mime_table_is_exact() {
    let table = [
        ("jpg", "image/jpeg"),
        ("jpeg", "image/jpeg"),
        ("png", "image/png"),
        ("bmp", "image/bmp"),
        ("svg", "image/svg+xml"),
        ("gif", "image/gif"),
        ("tif", "image/tiff"),
        ("tiff", "image/tiff"),
        ("webp", "image/webp"),
        ("ico", "image/vnd.microsoft.icon"),
    ];
    for (ext, mime) in table {
        assert_eq!(determine_mime_type(ext), Ok(mime.to_owned()), "extension {ext}");
    }
}

#[test]
fn mime_lookup_is_case_insensitive() {
    assert_eq!(determine_mime_type("PNG"), Ok("image/png".to_owned()));
    assert_eq!(determine_mime_type("Jpeg"), Ok("image/jpeg".to_owned()));
    assert_eq!(determine_mime_type("WeBp"), Ok("image/webp".to_owned()));
}

#[test]
fn mime_lookup_rejects_unknown_extensions() {
    for ext in ["", "txt", "pngx", "jp", "png "] {
        assert_eq!(determine_mime_type(ext), Err(EmbedError::UnsupportedExtension), "extension {ext}");
    }
}

#[test]
fn extension_is_taken_after_the_last_dot() {
    assert_eq!(extension_of_path("images/shot.png"), Some("png".to_owned()));
    assert_eq!(extension_of_path("archive.tar.gz"), Some("gz".to_owned()));
    assert_eq!(extension_of_path("a.b/c.d"), Some("d".to_owned()));
    assert_eq!(extension_of_path("shot."), Some("".to_owned()));
}

#[test]
fn paths_without_extension_have_none() {
    assert_eq!(extension_of_path("images/shot"), None);
    assert_eq!(extension_of_path("images/.png"), None);
    assert_eq!(extension_of_path(".png"), None);
    assert_eq!(extension_of_path("a.b/c"), None);
    assert_eq!(extension_of_path("images/"), None);
    assert_eq!(extension_of_path(""), None);
}

#[test]
fn error_messages_name_their_condition() {
    assert_eq!(
        EmbedError::ParseError.message(),
        "Expected two comma-separated string literals: a label and an image path"
    );
    assert_eq!(EmbedError::FileError.message(), "Failed to load image");
    assert_eq!(
        EmbedError::UnsupportedExtension.message(),
        "Unrecognized image extension, unable to infer correct MIME type"
    );
    assert_eq!(
        EmbedError::UnsupportedDeclaration.message(),
        "Unsupported item. Cannot apply attribute to the given item."
    );
}
