use desktop_todo::appearance::base64::{base64, base64_decode};
use desktop_todo::appearance::{
    data_url, decode_image_data_url, image_signature, is_managed_asset_id, supported_image, AssetKind, AVATAR_EDGE_PX,
    ERROR_IMAGE_TOO_LARGE, ERROR_IMAGE_UNREADABLE, ERROR_IMAGE_UNSUPPORTED,
};

#[test]
fn image_signatures_reject_corruption_and_accept_fixtures() {
    assert!(supported_image("fixture.png", b"broken", false).is_err());
    assert_eq!(
        supported_image("fixture.png", &[0x89, b'P', b'N', b'G', 0x0d, 0x0a, 0x1a, 0x0a], false),
        Ok(("png", "image/png"))
    );
    assert_eq!(base64(b"Alan"), "QWxhbg==");
}

#[test]
fn avatar_source_cap_covers_photos_the_stored_artifact_must_not() {
    assert!(
        AssetKind::Avatar.max_source_bytes() > AssetKind::Avatar.max_bytes(),
        "the picker must be able to read a photo it will not keep"
    );
    assert_eq!(AssetKind::Avatar.max_source_bytes(), 24 * 1024 * 1024);
    assert_eq!(AssetKind::Avatar.max_bytes(), 8 * 1024 * 1024);
    assert_eq!(AssetKind::Background.max_source_bytes(), AssetKind::Background.max_bytes());
    assert_eq!(AVATAR_EDGE_PX, 256);
}

#[test]
fn base64_decoding_round_trips_and_rejects_malformed_input() {
    for payload in [
        &b""[..],
        &b"a"[..],
        &b"ab"[..],
        &b"abc"[..],
        &b"Alan Floyd"[..],
        &[0x89, b'P', b'N', b'G', 0xff, 0x00, 0x7f][..],
    ] {
        let encoded = base64(payload);
        assert_eq!(base64_decode(&encoded).as_deref(), Some(payload), "round trip failed for {encoded}");
    }
    assert_eq!(base64_decode("QWxh\nbg==").as_deref(), Some(&b"Alan"[..]));
    assert_eq!(base64_decode("QWxh bg=="), None);
    assert_eq!(base64_decode("****"), None);
    assert_eq!(base64_decode("QQ="), None, "a short final group is malformed");
    assert_eq!(base64_decode("Q==="), None);
    assert_eq!(base64_decode("="), None);
    assert_eq!(base64_decode("QQ==QQ=="), None, "padding must come last");
}

#[test]
fn data_url_decoding_is_strict_about_type_and_content() {
    let png = [0x89, b'P', b'N', b'G', 0x0d, 0x0a, 0x1a, 0x0a, 1, 2, 3];
    let encoded = base64(&png);
    let (bytes, mime) = decode_image_data_url(&format!("data:image/png;base64,{encoded}")).expect("png");
    assert_eq!(bytes, png);
    assert_eq!(mime, "image/png");

    for header in ["data:image/jpeg;base64", "data:image/webp;base64"] {
        assert_eq!(
            decode_image_data_url(&format!("{header},{encoded}")).expect("accepted").1,
            header.trim_start_matches("data:").trim_end_matches(";base64"),
            "{header} must be accepted"
        );
    }
    for rejected in [
        "",
        "data:image/gif;base64,R0lGOD",
        "data:image/png,R0lGOD",
        "data:text/plain;base64,QQ==",
        "data:image/png;base64,****",
        "data:image/png;base64,",
    ] {
        assert!(decode_image_data_url(rejected).is_err(), "{rejected} must be rejected");
    }

    let gif = b"GIF89a....";
    assert_eq!(image_signature(gif, false).unwrap_err(), ERROR_IMAGE_UNSUPPORTED);
}

#[test]
fn rejection_messages_stay_renderable_by_the_frontend() {
    assert_eq!(ERROR_IMAGE_TOO_LARGE, "selected image is too large");
    assert_eq!(ERROR_IMAGE_UNSUPPORTED, "unsupported image");
    assert_eq!(ERROR_IMAGE_UNREADABLE, "selected image could not be read");
    for (constant, message, phrase) in [
        ("ERROR_IMAGE_TOO_LARGE", ERROR_IMAGE_TOO_LARGE, "too large"),
        ("ERROR_IMAGE_UNSUPPORTED", ERROR_IMAGE_UNSUPPORTED, "unsupported"),
        ("ERROR_IMAGE_UNREADABLE", ERROR_IMAGE_UNREADABLE, "could not be read"),
    ] {
        assert!(message.contains(phrase), "{constant} must contain the phrase the UI matches on");
    }
}

#[test]
fn managed_asset_ids_cannot_escape_app_data() {
    assert!(is_managed_asset_id("avatar-00000000-0000-0000-0000-000000000000.png", AssetKind::Avatar));
    assert!(!is_managed_asset_id("../avatar-private.png", AssetKind::Avatar));
    assert!(!is_managed_asset_id("background-safe.svg", AssetKind::Background));
}

#[test]
fn written_data_urls_decode_to_the_same_image() {
    let webp = [b'R', b'I', b'F', b'F', 9, 9, 9, 9, b'W', b'E', b'B', b'P', 1, 2];
    let url = data_url("image/webp", &webp);
    assert!(url.starts_with("data:image/webp;base64,"));
    assert_eq!(decode_image_data_url(&url), Ok((webp.to_vec(), "image/webp")));
    let jpeg = [0xff, 0xd8, 0xff, 0xe0, 0, 0x10];
    assert_eq!(decode_image_data_url(&data_url("image/jpeg", &jpeg)), Ok((jpeg.to_vec(), "image/jpeg")));
}

#[test]
fn picked_file_extension_must_agree_with_its_signature() {
    let jpeg = [0xff, 0xd8, 0xff, 0xe0];
    assert_eq!(
        supported_image("photo.png", &jpeg, false),
        Err("unsupported image extension".to_string())
    );
    assert_eq!(supported_image("C:\\pics\\Photo.JPEG", &jpeg, false), Ok(("jpg", "image/jpeg")));
    assert_eq!(supported_image("photo.jpg", &jpeg, false), Ok(("jpg", "image/jpeg")));
    assert_eq!(supported_image("scan.bmp", b"BM0000", true), Ok(("bmp", "image/bmp")));
    assert_eq!(supported_image("scan.bmp", b"BM0000", false), Err("unsupported image".to_string()));
    assert_eq!(
        supported_image("photo", &jpeg, false),
        Err("unsupported image extension".to_string())
    );
}
