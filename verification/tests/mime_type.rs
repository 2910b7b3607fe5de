use mikupush::encoder::{self, check_image_mime_type, image_data_url, ImageEncodeError};
use mikupush::mime_type::{
    detect_mime_type, detect_mime_type_by_extension, is_svg_image, MimeTypeDetectError,
    MAX_FILE_SIZE,
};

#[test]
fn detect_mime_type_by_extension_should_fallback_to_file_extension() {
    let mime_type = detect_mime_type_by_extension("missing-file.pdf").unwrap();

    assert_eq!("application/pdf", mime_type);
}

#[test]
fn detect_mime_type_by_extension_should_return_error_when_extension_is_unknown() {
    let result = detect_mime_type_by_extension("missing-file");

    assert!(result.is_err());
}

#[test]
fn detect_mime_type_by_extension_error_names_the_path() {
    match detect_mime_type_by_extension("dir/missing-file") {
        Err(MimeTypeDetectError::DetectError(message)) => assert_eq!(
            "failed to detect mime type by contents or extension for path dir/missing-file",
            message
        ),
        other => panic!("unexpected result {:?}", other),
    }
}

#[test]
fn detect_mime_type_prefers_content_for_small_files() {
    assert_eq!(
        "image/png",
        detect_mime_type("photo.jpg", 10, Some(Ok("image/png".to_string())))
    );
    assert_eq!(
        "image/jpeg",
        detect_mime_type(
            "photo.jpg",
            10,
            Some(Err(MimeTypeDetectError::IOError("gone".to_string())))
        )
    );
    assert_eq!(
        "application/octet-stream",
        detect_mime_type(
            "photo",
            10,
            Some(Err(MimeTypeDetectError::DetectError("none".to_string())))
        )
    );
}

#[test]
fn detect_mime_type_uses_extension_for_large_files() {
    assert_eq!(
        "application/pdf",
        detect_mime_type("big.pdf", MAX_FILE_SIZE + 1, Some(Ok("text/plain".to_string())))
    );
    assert_eq!(
        "application/octet-stream",
        detect_mime_type("big", MAX_FILE_SIZE + 1, None)
    );
    assert_eq!(
        "text/plain",
        detect_mime_type("big.pdf", MAX_FILE_SIZE, Some(Ok("text/plain".to_string())))
    );
}

#[test]
fn detect_error_messages() {
    assert_eq!(
        "failed to detect mime type: x",
        MimeTypeDetectError::DetectError("x".to_string()).to_string()
    );
    assert_eq!(
        "path is not valid unicode: y",
        MimeTypeDetectError::PathError("y".to_string()).to_string()
    );
    assert_eq!(
        "failed to read file: z",
        MimeTypeDetectError::IOError("z".to_string()).to_string()
    );
}

#[test]
fn is_svg_image_checks_the_start_of_the_content() {
    assert!(is_svg_image(b"<svg xmlns=\"http://www.w3.org/2000/svg\"></svg>"));
    assert!(is_svg_image(b"<svg \xff\xfe"));
    assert!(!is_svg_image(b"<?xml version=\"1.0\"?><svg ></svg>"));
    assert!(!is_svg_image(b"<svg>"));
    assert!(!is_svg_image(b""));
}

#[test]
fn check_image_mime_type_accepts_images_only() {
    assert_eq!("image/png", check_image_mime_type(Ok("image/png".to_string())).unwrap());
    match check_image_mime_type(Ok("text/plain".to_string())) {
        Err(ImageEncodeError::NotImageError { message }) => {
            assert_eq!("expected image got: text/plain", message)
        }
        other => panic!("unexpected result {:?}", other),
    }
    match check_image_mime_type(Err(encoder::MimeTypeDetectError::IOError {
        message: "denied".to_string(),
    })) {
        Err(ImageEncodeError::DetectTypeError { message }) => {
            assert_eq!("failed to read file: denied", message)
        }
        other => panic!("unexpected result {:?}", other),
    }
}

#[test]
fn image_data_url_encodes_in_base64() {
    assert_eq!("data:image/png;base64,AQID", image_data_url("image/png", &[1, 2, 3]));
    assert_eq!("data:image/gif;base64,", image_data_url("image/gif", &[]));
    assert_eq!(
        "read error: gone",
        ImageEncodeError::ReadError { message: "gone".to_string() }.to_string()
    );
}
