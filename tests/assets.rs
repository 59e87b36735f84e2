use anihistory::asset::{get_ext, kind_prefix, naive_mime, plan_asset, storage_key, AssetConfig, AssetOutcome,
    AssetPlan, ImageTypes};
use anihistory::models::{Anime, User};
use anihistory::sync::{settle_avatar, settle_cover};
use anihistory::text::decimal_string;

fn config() -> AssetConfig {
    AssetConfig {
        key_prefix: String::from("assets/images/"),
        public_base: String::from("https://s3.amazonaws.com/anihistory-images/"),
    }
}

#[test]
fn jpeg_cover_is_image_jpeg() {
    let ext = get_ext(&String::from("https://img.example/media/cover/bx21-abc.jpeg")).unwrap();
    assert_eq!(ext, "jpeg");
    assert_eq!(naive_mime(&ext), "image/jpeg");
}

#[test]
fn png_cover_is_image_png() {
    let ext = get_ext(&String::from("https://img.example/media/cover/bx21-abc.png")).unwrap();
    assert_eq!(ext, "png");
    assert_eq!(naive_mime(&ext), "image/png");
}

#[test]
fn mime_of_other_extensions() {
    assert_eq!(naive_mime(&String::from("jpg")), "image/jpeg");
    assert_eq!(naive_mime(&String::from("gif")), "image/gif");
    assert_eq!(naive_mime(&String::from("jp2")), "image/jp2");
}

#[test]
fn extension_from_last_segment() {
    assert_eq!(get_ext(&String::from("https://a.b.example/x/cover.large.jpg")), Some(String::from("large")));
    assert_eq!(get_ext(&String::from("https://a.example/x.y/cover")), None);
    assert_eq!(get_ext(&String::from("cover.webp")), Some(String::from("webp")));
    assert_eq!(get_ext(&String::from("https://a.example/x/cover.")), Some(String::new()));
}

#[test]
fn decimal_text() {
    assert_eq!(decimal_string(0), "0");
    assert_eq!(decimal_string(21), "21");
    assert_eq!(decimal_string(-305), "-305");
    assert_eq!(decimal_string(i32::MIN), "-2147483648");
    assert_eq!(decimal_string(i32::MAX), "2147483647");
}

#[test]
fn storage_key_format() {
    assert_eq!(kind_prefix(ImageTypes::User), "user");
    assert_eq!(storage_key(&config(), ImageTypes::Anime, 21, &String::from("jpg")), "assets/images/anime_21.jpg");
    assert_eq!(storage_key(&config(), ImageTypes::User, 7, &String::from("png")), "assets/images/user_7.png");
}

#[test]
fn changed_source_is_uploaded() {
    let plan = plan_asset(&config(), ImageTypes::Anime, 21, &String::from("https://img.example/old.png"),
        &String::from("https://img.example/c/new.jpeg"));
    match plan {
        AssetPlan::Upload(u) => {
            assert_eq!(u.key, "assets/images/anime_21.jpeg");
            assert_eq!(u.content_type, "image/jpeg");
            assert_eq!(u.storage_ref, "https://s3.amazonaws.com/anihistory-images/assets/images/anime_21.jpeg");
        },
        _ => panic!("expected an upload"),
    }
}

#[test]
fn address_without_extension_cannot_be_stored() {
    let plan = plan_asset(&config(), ImageTypes::User, 3, &String::new(), &String::from("https://img.example/avatar"));
    assert!(matches!(plan, AssetPlan::NoExtension));
}

#[test]
fn unchanged_source_is_skipped_second_time() {
    let url = String::from("https://img.example/c/new.jpeg");
    let mut anime = Anime {
        anime_id: 21,
        description: String::new(),
        cover_s3: String::new(),
        cover_anilist: String::new(),
        average: None,
        native: None,
        romaji: None,
        english: None,
    };
    let first = plan_asset(&config(), ImageTypes::Anime, 21, &anime.cover_anilist, &url);
    let storage_ref = match first {
        AssetPlan::Upload(u) => u.storage_ref,
        _ => panic!("expected an upload"),
    };
    settle_cover(&mut anime, &url, &AssetOutcome::Uploaded(storage_ref.clone()));
    assert_eq!(anime.cover_s3, storage_ref);
    assert_eq!(anime.cover_anilist, url);
    let second = plan_asset(&config(), ImageTypes::Anime, 21, &anime.cover_anilist, &url);
    assert!(matches!(second, AssetPlan::Skip));
}

#[test]
fn failed_upload_keeps_previous_reference() {
    let mut user = User {
        user_id: 3,
        name: String::from("reader"),
        avatar_s3: String::from("https://cache.example/user_3.png"),
        avatar_anilist: String::from("https://img.example/a.png"),
    };
    let url = String::from("https://img.example/b.png");
    settle_avatar(&mut user, &url, &AssetOutcome::Failed);
    assert_eq!(user.avatar_s3, "https://cache.example/user_3.png");
    assert_eq!(user.avatar_anilist, "https://img.example/a.png");
    let again = plan_asset(&config(), ImageTypes::User, 3, &user.avatar_anilist, &url);
    assert!(matches!(again, AssetPlan::Upload(_)));
    settle_avatar(&mut user, &url, &AssetOutcome::Skipped);
    assert_eq!(user.avatar_anilist, "https://img.example/a.png");
}
