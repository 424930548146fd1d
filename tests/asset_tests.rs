use base64::Engine;
use rsx_compiler::asset::{embed_font, embed_image, include_path, EmbedError, FileContents};
use rsx_compiler::data_uri::{to_font_data_uri, to_image_data_uri, ImageFormat};

const PNG_HEADER: [u8; 8] = [0x89, b'P', b'N', b'G', 0x0d, 0x0a, 0x1a, 0x0a];

fn payload(uri: &str) -> Vec<u8> {
    let start = uri.find(";base64,").unwrap() + ";base64,".len();
    base64::engine::general_purpose::STANDARD.decode(&uri[start..]).unwrap()
}

#[test]
fn image_data_uri_has_exact_text() {
    assert_eq!(to_image_data_uri(ImageFormat::Png, &[0, 1, 2]), "data:image/png;base64,AAEC");
    assert_eq!(to_image_data_uri(ImageFormat::Gif, b"hello"), "data:image/gif;base64,aGVsbG8=");
    assert_eq!(to_image_data_uri(ImageFormat::Jpeg, &[]), "data:image/jpeg;base64,");
}

#[test]
fn font_data_uri_has_exact_text() {
    assert_eq!(to_font_data_uri(b"ab"), "data:application/octet-stream;base64,YWI=");
}

#[test]
fn data_uri_payload_decodes_to_bytes() {
    let bytes: Vec<u8> = (0..=255u8).collect();
    let formats = [
        (ImageFormat::Png, "data:image/png;"),
        (ImageFormat::Jpeg, "data:image/jpeg;"),
        (ImageFormat::Gif, "data:image/gif;"),
        (ImageFormat::Webp, "data:image/webp;"),
        (ImageFormat::Bmp, "data:image/bmp;"),
        (ImageFormat::Ico, "data:image/x-icon;"),
        (ImageFormat::Tiff, "data:image/tiff;"),
    ];
    for (format, prefix) in formats {
        let uri = to_image_data_uri(format, &bytes);
        assert!(uri.starts_with(prefix));
        assert_eq!(payload(&uri), bytes);
    }
}

#[test]
fn include_path_goes_up_one_directory() {
    assert_eq!(include_path("img/logo.png"), "../img/logo.png");
}

#[test]
fn missing_file_fails_naming_resolved_path() {
    let r = embed_image("img/none.png", "/build/img/none.png", FileContents::CannotOpen, None, None);
    match r {
        Err(e) => {
            assert!(matches!(e, EmbedError::Open(_)));
            assert_eq!(e.path(), "/build/img/none.png");
            assert_eq!(e.message(), "Couldn't open file /build/img/none.png");
        }
        Ok(_) => panic!("a descriptor for a missing file"),
    }
    let f = embed_font("f.ttf", "/build/f.ttf", FileContents::CannotOpen);
    assert!(matches!(f, Err(EmbedError::Open(p)) if p == "/build/f.ttf"));
}

#[test]
fn unreadable_file_fails() {
    let r = embed_font("f.ttf", "/build/f.ttf", FileContents::CannotRead);
    match r {
        Err(e) => assert_eq!(e.message(), "Couldn't read file /build/f.ttf"),
        Ok(_) => panic!("a descriptor for an unreadable file"),
    }
}

#[test]
fn unknown_format_fails() {
    let r = embed_image("a.png", "/b/a.png", FileContents::Bytes(vec![1, 2, 3]), None, None);
    assert!(matches!(r, Err(EmbedError::UnknownFormat(p)) if p == "/b/a.png"));
}

#[test]
fn bad_dimensions_fail() {
    let r = embed_image(
        "a.png",
        "/b/a.png",
        FileContents::Bytes(PNG_HEADER.to_vec()),
        Some(ImageFormat::Png),
        None,
    );
    match r {
        Err(e) => {
            assert!(matches!(e, EmbedError::BadDimensions(_)));
            assert_eq!(e.message(), "Couldn't read image dimensions of file /b/a.png");
        }
        Ok(_) => panic!("a descriptor without dimensions"),
    }
}

#[test]
fn image_descriptor_carries_bytes_uri_and_size() {
    let d = embed_image(
        "img/a.png",
        "/b/img/a.png",
        FileContents::Bytes(PNG_HEADER.to_vec()),
        Some(ImageFormat::Png),
        Some((16, 9)),
    )
    .unwrap();
    assert_eq!(d.include_path, "../img/a.png");
    assert_eq!(d.bytes, PNG_HEADER.to_vec());
    assert_eq!(d.data_uri, "data:image/png;base64,iVBORw0KGgo=");
    assert_eq!(d.format, Some(ImageFormat::Png));
    assert_eq!(d.size, Some((16, 9)));
}

#[test]
fn font_descriptor_has_no_size() {
    let d = embed_font("f.ttf", "/b/f.ttf", FileContents::Bytes(b"font".to_vec())).unwrap();
    assert_eq!(d.include_path, "../f.ttf");
    assert_eq!(d.data_uri, "data:application/octet-stream;base64,Zm9udA==");
    assert_eq!(d.format, None);
    assert_eq!(d.size, None);
    assert_eq!(payload(&d.data_uri), b"font".to_vec());
}

#[test]
fn embedding_twice_gives_same_descriptor() {
    let once = || {
        embed_image(
            "a.gif",
            "/b/a.gif",
            FileContents::Bytes(b"GIF89a-data".to_vec()),
            Some(ImageFormat::Gif),
            Some((1, 2)),
        )
        .unwrap()
    };
    let (a, b) = (once(), once());
    assert_eq!(a.data_uri, b.data_uri);
    assert_eq!(a.size, b.size);
    assert_eq!(a.bytes, b.bytes);
}
