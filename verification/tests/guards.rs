use content_core::guards::{FileType, Guard, GuardError, GuardsBuilder, SniffedKind};
use content_core::prefixes::Prefix;

#[test]
fn test_guard_happy_path() {
    let buf: Vec<u8> = vec![0xFF, 0xD8, 0xFF, 0xAA];
    const FILE_NAME: &str = "index.jpg";
    const CONTENT_TYPE: &str = "image/jpeg";

    let guards = GuardsBuilder::new()
        .add(Prefix::ServerBanner, Guard::new(vec![FileType::ImageJPEG]))
        .build();

    let file = guards.check(Prefix::ServerBanner.as_str(), FILE_NAME, buf, CONTENT_TYPE);
    let file = file.expect("a JPEG sent as a JPEG passes");
    assert_eq!(file.data, vec![0xFF, 0xD8, 0xFF, 0xAA]);
    assert_eq!(file.content_type, "image/jpeg");
}

#[test]
fn test_guard_any_files() {
    let buf: Vec<u8> = "test file".as_bytes().to_vec();
    const FILE_NAME: &str = "index.html";
    const CONTENT_TYPE: &str = "text/html";

    let guards = GuardsBuilder::new()
        .add(Prefix::ServerBanner, Guard::new(vec![FileType::Any]))
        .build();

    let file = guards.check(Prefix::ServerBanner.as_str(), FILE_NAME, buf, CONTENT_TYPE);
    let file = file.expect("a guard that allows anything takes anything");
    assert_eq!(file.data, "test file".as_bytes().to_vec());
    assert_eq!(file.content_type, "text/html");
}

#[test]
fn test_guard_file_confusion() {
    let buf: Vec<u8> = "<svg id='x' xmlns='http://www.w3.org/2000/svg' xmlns:xlink='http://www.w3.org/1999/xlink' width='1337' height='1337'><image href='1' onerror='alert(window.origin)' /></svg>".as_bytes().to_vec();
    const FILE_NAME: &str = "index.svg";
    const CONTENT_TYPE: &str = "application/octet-stream";

    let guards = GuardsBuilder::new()
        .add(Prefix::ServerBanner, Guard::new(vec![FileType::ImagePNG]))
        .build();

    let file = guards.check("test", FILE_NAME, buf, CONTENT_TYPE);
    assert_eq!(file.err(), Some(GuardError::UnknownPrefix));
}

const SVG: &str = "<svg id='x' xmlns='http://www.w3.org/2000/svg' xmlns:xlink='http://www.w3.org/1999/xlink' width='1337' height='1337'><image href='1' onerror='alert(window.origin)' /></svg>";

const JPEG: [u8; 4] = [0xFF, 0xD8, 0xFF, 0xAA];

const PNG: [u8; 8] = [0x89, 0x50, 0x4E, 0x47, 0x0D, 0x0A, 0x1A, 0x0A];

fn kind(mime: &str, extension: &str) -> Option<SniffedKind> {
    Some(SniffedKind { mime: mime.to_string(), extension: extension.to_string() })
}

#[test]
fn script_in_svg_never_passes_for_an_image() {
    let guards = GuardsBuilder::new()
        .add(Prefix::ServerBanner, Guard::new(vec![FileType::ImagePNG]))
        .build();
    let file = guards.check(
        "server_banner",
        "index.svg",
        SVG.as_bytes().to_vec(),
        "application/octet-stream",
    );
    assert_eq!(file.err(), Some(GuardError::UnknownFileType));
    let file = guards.check("server_banner", "index.png", SVG.as_bytes().to_vec(), "image/png");
    assert_eq!(file.err(), Some(GuardError::UnknownFileType));
}

#[test]
fn sniffed_svg_is_not_allowed_where_only_png_is() {
    let guard = Guard::new(vec![FileType::ImagePNG]).with_extension_check(true);
    let file = guard.judge(
        kind("image/svg+xml", "svg"),
        SVG.as_bytes().to_vec(),
        "application/octet-stream",
        "index",
    );
    assert_eq!(file.err(), Some(GuardError::FileTypeNotAllowed));
}

#[test]
fn jpeg_against_png_guard_is_not_allowed() {
    let guards = GuardsBuilder::new()
        .add(Prefix::ServerPicture, Guard::new(vec![FileType::ImagePNG]))
        .build();
    let file = guards.check("server_picture", "index.jpg", JPEG.to_vec(), "image/jpeg");
    assert_eq!(file.err(), Some(GuardError::FileTypeNotAllowed));
}

#[test]
fn jpeg_declared_as_png_has_the_wrong_content_type() {
    let guards = GuardsBuilder::new()
        .add(Prefix::ServerPicture, Guard::new(vec![FileType::ImageJPEG]))
        .build();
    let file = guards.check("server_picture", "index.jpg", JPEG.to_vec(), "image/png");
    assert_eq!(file.err(), Some(GuardError::WrongContentType));
}

#[test]
fn png_declared_as_html_has_the_wrong_content_type() {
    let guards = GuardsBuilder::new()
        .add(Prefix::ProfilePicture, Guard::new(vec![FileType::ImagePNG, FileType::ImageJPEG]))
        .build();
    let file = guards.check("profile_picture", "index.png", PNG.to_vec(), "text/html");
    assert_eq!(file.err(), Some(GuardError::WrongContentType));
    let file = guards.check("profile_picture", "index.png", PNG.to_vec(), "image/png");
    assert_eq!(file.expect("a PNG sent as a PNG passes").data, PNG.to_vec());
}

#[test]
fn unknown_prefix_whatever_the_registry_holds() {
    let empty = GuardsBuilder::new().build();
    let file = empty.check("not-a-real-prefix", "index.jpg", JPEG.to_vec(), "image/jpeg");
    assert_eq!(file.err(), Some(GuardError::UnknownPrefix));
    let full = GuardsBuilder::new()
        .add(Prefix::ServerPicture, Guard::new(vec![FileType::Any]))
        .add(Prefix::ServerBanner, Guard::new(vec![FileType::Any]))
        .add(Prefix::ProfilePicture, Guard::new(vec![FileType::Any]))
        .add(Prefix::MessageAttachment, Guard::new(vec![FileType::Any]))
        .add(Prefix::Unknown, Guard::new(vec![FileType::Any]))
        .build();
    let file = full.check("not-a-real-prefix", "index.jpg", JPEG.to_vec(), "image/jpeg");
    assert_eq!(file.err(), Some(GuardError::UnknownPrefix));
    let file = full.check("unknown", "index.jpg", JPEG.to_vec(), "image/jpeg");
    assert_eq!(file.err(), Some(GuardError::UnknownPrefix));
    let file = full.check("", "index.jpg", JPEG.to_vec(), "image/jpeg");
    assert_eq!(file.err(), Some(GuardError::UnknownPrefix));
}

#[test]
fn known_prefix_without_a_guard() {
    let guards = GuardsBuilder::new()
        .add(Prefix::ServerPicture, Guard::new(vec![FileType::ImageJPEG]))
        .build();
    let file = guards.check("server_banner", "index.jpg", JPEG.to_vec(), "image/jpeg");
    assert_eq!(file.err(), Some(GuardError::NoGuardFound));
}

#[test]
fn any_takes_arbitrary_bytes_unmodified() {
    let guard = Guard::new(vec![FileType::ImagePNG, FileType::Any]);
    let bytes: Vec<u8> = vec![0, 255, 1, 254, 2, 253];
    let file = guard.check(bytes.clone(), "application/x-whatever", "no extension");
    let file = file.expect("a guard that allows anything takes anything");
    assert_eq!(file.data, bytes);
    assert_eq!(file.content_type, "application/x-whatever");
    let file = guard.check(Vec::new(), "", "").expect("even nothing at all");
    assert_eq!(file.data, Vec::<u8>::new());
    assert_eq!(file.content_type, "");
}

#[test]
fn bytes_without_a_mark_are_of_unknown_type() {
    let guard = Guard::new(vec![FileType::ImagePNG]);
    let file = guard.check(vec![1, 2, 3], "image/png", "index.png");
    assert_eq!(file.err(), Some(GuardError::UnknownFileType));
    let file = guard.check(Vec::new(), "image/png", "index.png");
    assert_eq!(file.err(), Some(GuardError::UnknownFileType));
}

#[test]
fn a_later_guard_replaces_an_earlier_one() {
    let guards = GuardsBuilder::new()
        .add(Prefix::ServerPicture, Guard::new(vec![FileType::ImagePNG]))
        .add(Prefix::ServerPicture, Guard::new(vec![FileType::ImageJPEG]))
        .build();
    let file = guards.check("server_picture", "index.jpg", JPEG.to_vec(), "image/jpeg");
    assert!(file.is_ok());
    let file = guards.check("server_picture", "index.png", PNG.to_vec(), "image/png");
    assert_eq!(file.err(), Some(GuardError::FileTypeNotAllowed));
}

#[test]
fn extension_check_is_off_unless_asked_for() {
    let guard = Guard::new(vec![FileType::ImageJPEG]);
    assert!(guard.check(JPEG.to_vec(), "image/jpeg", "index.png").is_ok());
    assert!(guard.check(JPEG.to_vec(), "image/jpeg", "index").is_ok());
}

#[test]
fn extension_check_holds_names_to_the_sniffed_kind() {
    let guard = Guard::new(vec![FileType::ImageJPEG]).with_extension_check(true);
    assert!(guard.check(JPEG.to_vec(), "image/jpeg", "index.jpg").is_ok());
    assert!(guard.check(JPEG.to_vec(), "image/jpeg", "archive.tar.jpg").is_ok());
    let file = guard.check(JPEG.to_vec(), "image/jpeg", "index.png");
    assert_eq!(file.err(), Some(GuardError::WrongFileExtension));
    let file = guard.check(JPEG.to_vec(), "image/jpeg", "index.jpg.png");
    assert_eq!(file.err(), Some(GuardError::WrongFileExtension));
    let file = guard.check(JPEG.to_vec(), "image/jpeg", "index.");
    assert_eq!(file.err(), Some(GuardError::WrongFileExtension));
    let file = guard.check(JPEG.to_vec(), "image/jpeg", "index");
    assert_eq!(file.err(), Some(GuardError::MissingFileExtension));
    let file = guard.check(JPEG.to_vec(), "image/jpeg", "");
    assert_eq!(file.err(), Some(GuardError::MissingFileExtension));
    let file = guard.check(JPEG.to_vec(), "image/png", "index");
    assert_eq!(file.err(), Some(GuardError::WrongContentType));
    let off = guard.with_extension_check(false);
    assert!(off.check(JPEG.to_vec(), "image/jpeg", "index").is_ok());
}

#[test]
fn judge_goes_by_the_kind_it_is_given() {
    let guard = Guard::new(vec![FileType::AudioMP3]);
    let file = guard.judge(kind("audio/mpeg", "mp3"), vec![1], "audio/mpeg", "a.mp3");
    assert_eq!(file.expect("an MP3 sent as an MP3 passes").data, vec![1]);
    let file = guard.judge(kind("audio/mpeg", "mp3"), vec![1], "audio/mp3", "a.mp3");
    assert_eq!(file.err(), Some(GuardError::WrongContentType));
    let file = guard.judge(kind("audio/ogg", "ogg"), vec![1], "audio/ogg", "a.ogg");
    assert_eq!(file.err(), Some(GuardError::FileTypeNotAllowed));
    let file = guard.judge(None, vec![1], "audio/mpeg", "a.mp3");
    assert_eq!(file.err(), Some(GuardError::UnknownFileType));
    let file = guard.judge(kind("application/zip", "zip"), vec![1], "application/zip", "a.zip");
    assert_eq!(file.err(), Some(GuardError::FileTypeNotAllowed));
}

#[test]
fn media_types_and_kinds_name_each_other() {
    let kinds = [
        (FileType::ImageJPEG, "image/jpeg"),
        (FileType::ImagePNG, "image/png"),
        (FileType::ImageGIF, "image/gif"),
        (FileType::ImageWebP, "image/webp"),
        (FileType::VideoMP4, "video/mp4"),
        (FileType::VideoWebM, "video/webm"),
        (FileType::AudioMP3, "audio/mpeg"),
        (FileType::AudioWebM, "audio/webm"),
        (FileType::AudioOGG, "audio/ogg"),
        (FileType::AudioWAV, "audio/wav"),
        (FileType::DocumentPDF, "application/pdf"),
        (FileType::Any, "application/octet-stream"),
    ];
    for (kind, mime) in kinds {
        let named: &str = kind.into();
        assert_eq!(named, mime);
        assert_eq!(FileType::from(mime), kind);
    }
    assert_eq!(FileType::from("text/html"), FileType::Any);
    assert_eq!(FileType::from("audio/mp3"), FileType::Any);
    assert_eq!(FileType::from("IMAGE/PNG"), FileType::Any);
    assert_eq!(FileType::from(""), FileType::Any);
}

#[test]
fn prefixes_and_tokens_name_each_other() {
    let prefixes = [
        (Prefix::ServerPicture, "server_picture"),
        (Prefix::ServerBanner, "server_banner"),
        (Prefix::ProfilePicture, "profile_picture"),
        (Prefix::MessageAttachment, "message_attachment"),
        (Prefix::Unknown, "unknown"),
    ];
    for (prefix, token) in prefixes {
        assert_eq!(prefix.as_str(), token);
        assert_eq!(Prefix::from(token), prefix);
    }
    assert_eq!(Prefix::from("server-picture"), Prefix::Unknown);
    assert_eq!(Prefix::from("Server_Picture"), Prefix::Unknown);
    assert_eq!(Prefix::from("server_picture "), Prefix::Unknown);
    assert_eq!(Prefix::from(""), Prefix::Unknown);
}

#[test]
fn destinations_have_codes_of_their_own() {
    let prefixes = [
        Prefix::ServerPicture,
        Prefix::ServerBanner,
        Prefix::ProfilePicture,
        Prefix::MessageAttachment,
        Prefix::Unknown,
    ];
    for (i, one) in prefixes.iter().enumerate() {
        assert_eq!(one.index() as usize, i);
    }
}

#[test]
fn each_destination_keeps_its_own_guard() {
    let guards = GuardsBuilder::new()
        .add(Prefix::ServerPicture, Guard::new(vec![FileType::ImageJPEG]))
        .add(Prefix::ServerBanner, Guard::new(vec![FileType::ImagePNG]))
        .add(Prefix::ProfilePicture, Guard::new(vec![FileType::ImageGIF]))
        .add(Prefix::MessageAttachment, Guard::new(vec![FileType::Any]))
        .build();
    assert!(guards.check("server_picture", "a.jpg", JPEG.to_vec(), "image/jpeg").is_ok());
    assert!(guards.check("server_banner", "a.png", PNG.to_vec(), "image/png").is_ok());
    assert!(guards.check("profile_picture", "a.gif", b"GIF89a".to_vec(), "image/gif").is_ok());
    assert!(guards.check("message_attachment", "a", vec![1], "x/y").is_ok());
    let refused = guards.check("server_banner", "a.jpg", JPEG.to_vec(), "image/jpeg");
    assert_eq!(refused.err(), Some(GuardError::FileTypeNotAllowed));
    let refused = guards.check("profile_picture", "a.png", PNG.to_vec(), "image/png");
    assert_eq!(refused.err(), Some(GuardError::FileTypeNotAllowed));
}
