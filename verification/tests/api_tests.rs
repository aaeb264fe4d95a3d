use teeskins_rs::api::TeeskinsApi;
use teeskins_rs::data::{AssetType, HttpReply};

fn asset_body(id: i32) -> String {
    format!(
        "{}\"id\":{},{}{}",
        "{",
        id,
        "\"name\":\"greyfox\",\"path\":\"/storage/assets/greyfox.png\",\
         \"thumbnail_path\":\"/storage/thumb/greyfox.png\",\
         \"mime_type\":\"image/png\",\"author\":\"nagi01\",\
         \"type\":\"skin\",\"md5_checksum\":\"d41d8cd98f00b204e9800998ecf8427e\",\
         \"isPublic\":1,\"created_at\":\"2021-01-01 00:00:00\",\
         \"updated_at\":\"2021-01-02 00:00:00\"",
        "}",
    )
}

fn ok_reply(body: String) -> Option<HttpReply> {
    Some(HttpReply { status: 200, body })
}

const ASSET_ID: i32 = 39;

#[test]
fn asset_by_id_test() {
    let api = TeeskinsApi::new("".to_string(), "https://api.skins.tw".to_string());

    let asset = api.get_asset_by_id(ASSET_ID, ok_reply(asset_body(ASSET_ID)));

    let ret = match asset {
        Some(asset) => asset.id,
        None => -1,
    };

    assert_eq!(ret, ASSET_ID);
}

#[test]
fn asset_by_id_fixture_nine() {
    let api = TeeskinsApi::new("".to_string(), "https://api.skins.tw".to_string());
    let asset = api.get_asset_by_id(9, ok_reply(asset_body(9)));
    assert_eq!(asset.unwrap().id, 9);
}

#[test]
fn asset_by_id_nonexistent_returns_absence() {
    let api = TeeskinsApi::new("".to_string(), "https://api.skins.tw".to_string());
    let reply = Some(HttpReply { status: 404, body: "{\"error\":\"not found\"}".to_string() });
    assert!(api.get_asset_by_id(123456, reply).is_none());
}

#[test]
fn asset_decodes_wire_aliases() {
    // wire key `type` populates `asset_type`, `isPublic` populates `is_public`
    let api = TeeskinsApi::new("".to_string(), "https://api.skins.tw".to_string());
    let asset = api.get_asset_by_id(7, ok_reply(asset_body(7))).unwrap();
    assert_eq!(asset.asset_type, "skin");
    assert_eq!(asset.is_public, 1);
    assert_eq!(asset.name, "greyfox");
    assert_eq!(asset.author, "nagi01");
    assert_eq!(asset.md5_checksum, "d41d8cd98f00b204e9800998ecf8427e");
}

#[test]
fn asset_decodes_reordered_members() {
    // wire key `type` first, the rest shuffled: order does not matter
    let api = TeeskinsApi::new("".to_string(), "https://api.skins.tw".to_string());
    let body = "{\"type\":\"skin\",\"updated_at\":\"y\",\"id\":7,\"name\":\"n\",\"path\":\"p\",\
                \"thumbnail_path\":\"t\",\"mime_type\":\"m\",\"author\":\"a\",\
                \"md5_checksum\":\"c\",\"isPublic\":1,\"created_at\":\"x\"}";
    let asset = api.get_asset_by_id(7, ok_reply(body.to_string())).unwrap();
    assert_eq!(asset.id, 7);
    assert_eq!(asset.asset_type, "skin");
    assert_eq!(asset.is_public, 1);
    assert_eq!(asset.updated_at, "y");
}

#[test]
fn profile_decodes_reordered_members() {
    // uploadData before user, totalCount after assetsCount
    let api = TeeskinsApi::new("".to_string(), "https://api.skins.tw".to_string());
    let body = "{\"uploadData\":{\"assetsCount\":{\"skins\":5,\"mapres\":1,\"gameskins\":2,\"emoticons\":0,\
                \"cursors\":0,\"particles\":1,\"entities\":2,\"fonts\":0,\"gridTemplates\":1},\
                \"rank\":3,\"totalCount\":12},\
                \"user\":{\"name\":\"nagi01\",\"profile_photo_url\":\"u\",\"member_since\":\"m\"},\
                \"downloadData\":{\"rank\":7,\"totalCount\":40,\
                \"assetsCount\":{\"skins\":10,\"mapres\":5,\"gameskins\":5,\"emoticons\":5,\
                \"cursors\":5,\"particles\":5,\"entities\":3,\"fonts\":1,\"gridTemplates\":1}}}";
    let p = api.get_profile("nagi01".to_string(), ok_reply(body.to_string())).unwrap();
    assert_eq!(p.user.name, "nagi01");
    assert_eq!(p.upload_data.total_count, 12);
    assert_eq!(p.upload_data.assets_count.skins, 5);
    assert_eq!(p.download_data.rank, 7);
}

#[test]
fn asset_decodes_snake_keys_too() {
    let api = TeeskinsApi::new("".to_string(), "https://api.skins.tw".to_string());
    let body = "{\"id\":5,\"name\":\"n\",\"path\":\"p\",\"thumbnail_path\":\"t\",\
                \"mime_type\":\"m\",\"author\":\"a\",\"asset_type\":\"font\",\
                \"md5_checksum\":\"c\",\"is_public\":0,\"created_at\":\"x\",\
                \"updated_at\":\"y\"}";
    let asset = api.get_asset_by_id(5, ok_reply(body.to_string())).unwrap();
    assert_eq!(asset.asset_type, "font");
    assert_eq!(asset.is_public, 0);
}

#[test]
fn assets_by_type_skin_limit_five() {
    let api = TeeskinsApi::new("".to_string(), "https://api.skins.tw".to_string());
    let body = format!("[{},{},{}]", asset_body(1), asset_body(2), asset_body(3));
    let assets = api
        .get_assets_by_type(AssetType::SKIN, 5, ok_reply(body))
        .unwrap();
    assert!(assets.len() <= 5);
    assert_eq!(assets.len(), 3);
    for a in &assets {
        assert_eq!(a.asset_type, "skin");
    }
    assert_eq!(assets[0].id, 1);
    assert_eq!(assets[1].id, 2);
    assert_eq!(assets[2].id, 3);
}

#[test]
fn assets_by_type_empty_listing() {
    let api = TeeskinsApi::new("".to_string(), "https://api.skins.tw".to_string());
    let assets = api
        .get_assets_by_type(AssetType::FONT, 5, ok_reply("[]".to_string()))
        .unwrap();
    assert_eq!(assets.len(), 0);
}

#[test]
fn uploads_count_from_token_test() {
    let api = TeeskinsApi::new("tok".to_string(), "https://api.skins.tw".to_string());
    let body = "{\"name\":\"nagi01\",\"count_uploads\":12}".to_string();
    let d = api
        .get_uploads_count_from_token("tok".to_string(), ok_reply(body))
        .unwrap();
    assert_eq!(d.name, "nagi01");
    assert_eq!(d.count_uploads, 12);
}

#[test]
fn profile_decodes_wire_aliases() {
    // wire keys uploadData / downloadData / totalCount / assetsCount /
    // gridTemplates populate the snake-cased fields
    let api = TeeskinsApi::new("".to_string(), "https://api.skins.tw".to_string());
    let body = "{\"user\":{\"name\":\"nagi01\",\"profile_photo_url\":\"https://cdn/av.png\",\
                \"member_since\":\"2020-05-01\"},\
                \"uploadData\":{\"rank\":3,\"totalCount\":12,\
                \"assetsCount\":{\"skins\":5,\"mapres\":1,\"gameskins\":2,\"emoticons\":0,\
                \"cursors\":0,\"particles\":1,\"entities\":2,\"fonts\":0,\"gridTemplates\":1}},\
                \"downloadData\":{\"rank\":7,\"totalCount\":40,\
                \"assetsCount\":{\"skins\":10,\"mapres\":5,\"gameskins\":5,\"emoticons\":5,\
                \"cursors\":5,\"particles\":5,\"entities\":3,\"fonts\":1,\"gridTemplates\":1}}}";
    let p = api.get_profile("nagi01".to_string(), ok_reply(body.to_string())).unwrap();
    assert_eq!(p.user.name, "nagi01");
    assert_eq!(p.user.member_since, "2020-05-01");
    assert_eq!(p.upload_data.rank, 3);
    assert_eq!(p.upload_data.total_count, 12);
    assert_eq!(p.upload_data.assets_count.skins, 5);
    assert_eq!(p.upload_data.assets_count.grid_template, 1);
    assert_eq!(p.download_data.rank, 7);
    assert_eq!(p.download_data.total_count, 40);
    assert_eq!(p.download_data.assets_count.fonts, 1);
}

#[test]
fn non_success_status_gives_absence_everywhere() {
    let api = TeeskinsApi::new("".to_string(), "https://api.skins.tw".to_string());
    let err = |body: &str| Some(HttpReply { status: 500, body: body.to_string() });
    assert!(api.get_asset_by_id(1, err(&asset_body(1))).is_none());
    assert!(api
        .get_assets_by_type(AssetType::SKIN, 5, err(&format!("[{}]", asset_body(1))))
        .is_none());
    assert!(api
        .get_uploads_count_from_token("t".to_string(), err("{\"name\":\"n\",\"count_uploads\":1}"))
        .is_none());
    assert!(api.get_profile("n".to_string(), err("{}")).is_none());
}

#[test]
fn malformed_body_gives_absence_everywhere() {
    let api = TeeskinsApi::new("".to_string(), "https://api.skins.tw".to_string());
    let cases = vec![
        "",
        "{",
        "{\"id\":",
        "not json at all",
        "[{\"id\":1}",
        "{\"id\":1}",
        "{\"unknown\":true}",
    ];
    for c in cases {
        assert!(api.get_asset_by_id(1, ok_reply(c.to_string())).is_none());
        assert!(api.get_assets_by_type(AssetType::SKIN, 5, ok_reply(c.to_string())).is_none());
        assert!(api
            .get_uploads_count_from_token("t".to_string(), ok_reply(c.to_string()))
            .is_none());
        assert!(api.get_profile("n".to_string(), ok_reply(c.to_string())).is_none());
    }
}

#[test]
fn transport_failure_gives_absence() {
    let api = TeeskinsApi::new("".to_string(), "https://api.skins.tw".to_string());
    assert!(api.get_asset_by_id(1, None).is_none());
    assert!(api.get_assets_by_type(AssetType::SKIN, 5, None).is_none());
    assert!(api.get_uploads_count_from_token("t".to_string(), None).is_none());
    assert!(api.get_profile("n".to_string(), None).is_none());
}

#[test]
fn out_of_range_counts_are_malformed() {
    let api = TeeskinsApi::new("".to_string(), "https://api.skins.tw".to_string());
    // fits the grammar but not a 32-bit field
    let body = asset_body(0).replace("\"id\":0", "\"id\":3000000000");
    assert!(api.get_asset_by_id(0, ok_reply(body)).is_none());
    // a run of nineteen digits is outside the grammar altogether
    let body = asset_body(0).replace("\"id\":0", "\"id\":1234567890123456789");
    assert!(api.get_asset_by_id(0, ok_reply(body)).is_none());
}

#[test]
fn default_is_localhost_placeholder() {
    let api = TeeskinsApi::default();
    assert_eq!(api, TeeskinsApi::new("".to_string(), "http://localhost".to_string()));
    assert_eq!(api.asset_url(1), "http://localhost/api/asset/1");
}
