use teeskins_rs::api::{fmt_i32, TeeskinsApi};
use teeskins_rs::data::AssetType;
use teeskins_rs::json::{decode_asset, decode_for_discord};

#[test]
fn asset_url_is_exact() {
    let api = TeeskinsApi::new("".to_string(), "https://api.skins.tw".to_string());
    assert_eq!(api.asset_url(39), "https://api.skins.tw/api/asset/39");
    assert_eq!(api.asset_url(0), "https://api.skins.tw/api/asset/0");
    assert_eq!(api.asset_url(-7), "https://api.skins.tw/api/asset/-7");
}

#[test]
fn assets_url_is_exact() {
    let api = TeeskinsApi::new("".to_string(), "https://api.skins.tw".to_string());
    assert_eq!(
        api.assets_url(AssetType::SKIN, 5),
        "https://api.skins.tw/api/assets/skin/5"
    );
    assert_eq!(
        api.assets_url(AssetType::GRIDTEMPLATE, 12),
        "https://api.skins.tw/api/assets/gridtemplate/12"
    );
}

#[test]
fn discord_and_profile_urls_are_exact() {
    let api = TeeskinsApi::new("".to_string(), "https://api.skins.tw".to_string());
    assert_eq!(
        api.discord_url("SECRET-REDACTED"),
        "https://api.skins.tw/api/discord/SECRET-REDACTED"
    );
    assert_eq!(api.profile_url("nagi01"), "https://api.skins.tw/api/profile/nagi01");
}

#[test]
fn wire_names_are_lowercase() {
    assert_eq!(AssetType::SKIN.wire_name(), "skin");
    assert_eq!(AssetType::MAPRES.wire_name(), "mapres");
    assert_eq!(AssetType::GAMESKIN.wire_name(), "gameskin");
    assert_eq!(AssetType::EMOTICON.wire_name(), "emoticon");
    assert_eq!(AssetType::ENTITY.wire_name(), "entity");
    assert_eq!(AssetType::CURSOR.wire_name(), "cursor");
    assert_eq!(AssetType::PARTICLE.wire_name(), "particle");
    assert_eq!(AssetType::FONT.wire_name(), "font");
    assert_eq!(AssetType::GRIDTEMPLATE.wire_name(), "gridtemplate");
}

#[test]
fn fmt_i32_renders_decimals() {
    assert_eq!(fmt_i32(0), "0");
    assert_eq!(fmt_i32(7), "7");
    assert_eq!(fmt_i32(-1), "-1");
    assert_eq!(fmt_i32(2147483647), "2147483647");
    assert_eq!(fmt_i32(-2147483648), "-2147483648");
}

#[test]
fn decoder_handles_whitespace_and_escapes() {
    let body = " {\n\t\"name\" : \"a\\\"b\\\\c\\n\" , \"count_uploads\" : 3 }\r\n";
    let d = decode_for_discord(body).unwrap();
    assert_eq!(d.name, "a\"b\\c\n");
    assert_eq!(d.count_uploads, 3);
}

#[test]
fn decoder_handles_unicode_escapes() {
    let body = "{\"name\":\"a\\u0041\\u00e9\",\"count_uploads\":3}";
    assert_eq!(decode_for_discord(body).unwrap().name, "aA\u{e9}");
    // a surrogate pair decodes to one supplementary character
    let body = "{\"name\":\"\\ud83d\\ude00\",\"count_uploads\":3}";
    assert_eq!(decode_for_discord(body).unwrap().name, "\u{1F600}");
    // an unpaired surrogate is malformed
    let body = "{\"name\":\"\\ud83d\",\"count_uploads\":3}";
    assert!(decode_for_discord(body).is_none());
}

#[test]
fn decoder_rejects_trailing_garbage() {
    let body = "{\"name\":\"n\",\"count_uploads\":3}tail";
    assert!(decode_for_discord(body).is_none());
}

#[test]
fn decoder_rejects_negative_counts() {
    // counts are non-negative; a negative one is malformed data
    let body = "{\"name\":\"n\",\"count_uploads\":-2}";
    assert!(decode_for_discord(body).is_none());
}

#[test]
fn decoder_accepts_any_member_order() {
    let body = "{\"count_uploads\":3,\"name\":\"n\"}";
    let d = decode_for_discord(body).unwrap();
    assert_eq!(d.name, "n");
    assert_eq!(d.count_uploads, 3);
}

#[test]
fn decoder_ignores_unknown_members() {
    let body = "{\"extra\":{\"deep\":[1,2.5,true,null,\"x\"]},\"name\":\"n\",\"wat\":-1.5e3,\"count_uploads\":3}";
    let d = decode_for_discord(body).unwrap();
    assert_eq!(d.name, "n");
    assert_eq!(d.count_uploads, 3);
}

#[test]
fn decoder_rejects_duplicate_members() {
    let body = "{\"name\":\"a\",\"name\":\"b\",\"count_uploads\":3}";
    assert!(decode_for_discord(body).is_none());
}

#[test]
fn decoder_rejects_non_json_numbers_and_strings() {
    // a leading zero is not JSON
    let body = "{\"name\":\"n\",\"count_uploads\":01}";
    assert!(decode_for_discord(body).is_none());
    // a raw control character inside a string is not JSON
    let body = "{\"name\":\"a\u{1}b\",\"count_uploads\":3}";
    assert!(decode_for_discord(body).is_none());
    // a fraction cannot fill an integer field
    let body = "{\"name\":\"n\",\"count_uploads\":3.5}";
    assert!(decode_for_discord(body).is_none());
}

#[test]
fn decode_asset_requires_every_member() {
    // the id member missing altogether
    let body = "{\"name\":\"n\",\"path\":\"p\",\"thumbnail_path\":\"t\",\"mime_type\":\"m\",\
                \"author\":\"a\",\"type\":\"skin\",\"md5_checksum\":\"c\",\"isPublic\":1,\
                \"created_at\":\"x\",\"updated_at\":\"y\"}";
    assert!(decode_asset(body).is_none());
}

#[test]
fn decode_profile_accepts_snake_keys_too() {
    let body = "{\"user\":{\"name\":\"n\",\"profile_photo_url\":\"u\",\"member_since\":\"m\"},\
                \"upload_data\":{\"rank\":1,\"total_count\":2,\
                \"assets_count\":{\"skins\":0,\"mapres\":0,\"gameskins\":0,\"emoticons\":0,\
                \"cursors\":0,\"particles\":0,\"entities\":0,\"fonts\":0,\"grid_template\":0}},\
                \"download_data\":{\"rank\":3,\"total_count\":4,\
                \"assets_count\":{\"skins\":0,\"mapres\":0,\"gameskins\":0,\"emoticons\":0,\
                \"cursors\":0,\"particles\":0,\"entities\":0,\"fonts\":0,\"grid_template\":0}}}";
    let p = teeskins_rs::json::decode_profile(body).unwrap();
    assert_eq!(p.upload_data.total_count, 2);
    assert_eq!(p.download_data.rank, 3);
}
