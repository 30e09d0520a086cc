use desktop_todo::appearance::base64::base64;
use desktop_todo::appearance::{
    avatar_available, background_available, BackgroundType,
    discard_check, is_managed_asset_id, new_asset_id, normalize_avatar_asset_id, normalized_color, prepare_managed_asset, removable_asset_kind,
    replaced_assets, AssetKind,
};

const AVATAR: &str = "avatar-00000000-0000-0000-0000-000000000001.png";
const BACKGROUND: &str = "background-00000000-0000-0000-0000-000000000002.jpg";

fn strings(values: &[&str]) -> Vec<String> {
    values.iter().map(|v| v.to_string()).collect()
}

#[test]
fn colours_normalize_to_lower_case_hex_or_fall_back() {
    assert_eq!(normalized_color("  #A1B2C3 ", "#000000"), "#a1b2c3");
    assert_eq!(normalized_color("#12345", "#000000"), "#000000");
    assert_eq!(normalized_color("#12345g", "#ffffff"), "#ffffff");
    assert_eq!(normalized_color("red", "#ffffff"), "#ffffff");
}

#[test]
fn new_assets_are_named_after_a_fresh_identifier() {
    let first = new_asset_id(AssetKind::Avatar, "png");
    let second = new_asset_id(AssetKind::Avatar, "png");
    assert!(first.starts_with("avatar-") && first.ends_with(".png"));
    assert!(is_managed_asset_id(&first, AssetKind::Avatar));
    let id = &first["avatar-".len()..first.len() - ".png".len()];
    assert_eq!(id.len(), 36);
    assert!(desktop_todo::maintenance::receipt::validate_uuid(id).is_ok());
    assert_ne!(first, second);
    assert!(new_asset_id(AssetKind::Background, "webp").starts_with("background-"));
}

#[test]
fn stored_images_must_match_their_declared_type_and_cap() {
    let png = [0x89, b'P', b'N', b'G', 0x0d, 0x0a, 0x1a, 0x0a, 1, 2, 3];
    let (bytes, extension, mime) =
        prepare_managed_asset(AssetKind::Background, &format!("data:image/png;base64,{}", base64(&png))).unwrap();
    assert_eq!((bytes, extension, mime), (png.to_vec(), "png", "image/png"));
    assert_eq!(
        prepare_managed_asset(AssetKind::Background, &format!("data:image/jpeg;base64,{}", base64(&png))),
        Err("unsupported image: payload declares image/jpeg but contains image/png".to_string())
    );
    let mut large = vec![0x89, b'P', b'N', b'G', 0x0d, 0x0a, 0x1a, 0x0a];
    large.resize(8 * 1024 * 1024 + 1, 0);
    assert_eq!(
        prepare_managed_asset(AssetKind::Avatar, &format!("data:image/png;base64,{}", base64(&large))),
        Err("selected image is too large".to_string())
    );
}

#[test]
fn only_unreferenced_managed_files_are_discarded() {
    assert_eq!(removable_asset_kind(AVATAR), Ok(AssetKind::Avatar));
    assert_eq!(removable_asset_kind(BACKGROUND), Ok(AssetKind::Background));
    assert_eq!(removable_asset_kind("../avatar-x.png"), Err("invalid managed asset id".to_string()));
    assert_eq!(removable_asset_kind("avatar-x.gif"), Err("invalid managed asset id".to_string()));
    assert!(discard_check(&strings(&[BACKGROUND]), AVATAR).is_ok());
    assert_eq!(discard_check(&strings(&[BACKGROUND, AVATAR]), AVATAR), Err("managed asset is still in use".to_string()));
}

#[test]
fn an_edit_releases_the_files_it_no_longer_references() {
    let before = strings(&[BACKGROUND, AVATAR]);
    assert_eq!(replaced_assets(&before, &strings(&[AVATAR])), strings(&[BACKGROUND]));
    assert_eq!(replaced_assets(&before, &before), Vec::<String>::new());
}

#[test]
fn avatar_references_must_name_a_managed_avatar() {
    let mut kept = Some(AVATAR.to_string());
    normalize_avatar_asset_id(&mut kept);
    assert_eq!(kept.as_deref(), Some(AVATAR));
    let mut foreign = Some(BACKGROUND.to_string());
    normalize_avatar_asset_id(&mut foreign);
    assert_eq!(foreign, None);
    let mut none: Option<String> = None;
    normalize_avatar_asset_id(&mut none);
    assert_eq!(none, None);
    assert_eq!(AssetKind::Avatar.pick_cap(true), 8 * 1024 * 1024);
    assert_eq!(AssetKind::Avatar.pick_cap(false), 24 * 1024 * 1024);
}

#[test]
fn backgrounds_and_avatars_need_their_managed_files() {
    assert!(background_available(BackgroundType::Glass, None, false, false));
    assert!(background_available(BackgroundType::Gradient, None, false, false));
    assert!(background_available(BackgroundType::Image, Some(BACKGROUND), true, false));
    assert!(!background_available(BackgroundType::Image, Some(BACKGROUND), false, true));
    assert!(!background_available(BackgroundType::Image, Some(AVATAR), true, true));
    assert!(!background_available(BackgroundType::Image, None, true, true));
    assert!(background_available(BackgroundType::Wallpaper, None, false, true));
    assert!(!background_available(BackgroundType::Wallpaper, Some(BACKGROUND), true, false));
    assert!(avatar_available(Some(AVATAR), true));
    assert!(!avatar_available(Some(AVATAR), false));
    assert!(!avatar_available(Some("../avatar.png"), true));
    assert!(!avatar_available(None, true));
}

#[test]
fn managed_ids_are_bounded_in_bytes() {
    let wide = format!("avatar-{}.png", "é".repeat(45));
    assert!(wide.chars().count() < 96 && wide.len() >= 96);
    assert!(!is_managed_asset_id(&wide, AssetKind::Avatar));
}
