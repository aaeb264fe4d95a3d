//! The record shapes returned by the service's endpoints, together with
//! their mathematical views, and the closed set of asset categories.

use vstd::prelude::*;

verus! {

/// One uploaded content item, as returned by the asset endpoints.
///
/// The category tag (`asset_type`) is a free-form string in responses; the
/// closed enumeration [`AssetType`] is used only to build request URLs.
#[derive(Debug, Clone, PartialEq)]
pub struct Asset {
    pub id: i32,
    pub name: String,
    pub path: String,
    pub thumbnail_path: String,
    pub mime_type: String,
    pub author: String,
    pub asset_type: String,
    pub md5_checksum: String,
    /// Public-visibility flag; the wire encodes it as an integer (0/1),
    /// and it is kept as one so that it round-trips losslessly.
    pub is_public: i32,
    pub created_at: String,
    pub updated_at: String,
}

/// Mathematical view of an [`Asset`].
pub struct AssetV {
    pub id: int,
    pub name: Seq<char>,
    pub path: Seq<char>,
    pub thumbnail_path: Seq<char>,
    pub mime_type: Seq<char>,
    pub author: Seq<char>,
    pub asset_type: Seq<char>,
    pub md5_checksum: Seq<char>,
    pub is_public: int,
    pub created_at: Seq<char>,
    pub updated_at: Seq<char>,
}

impl View for Asset {
    type V = AssetV;

    open spec fn view(&self) -> AssetV {
        AssetV {
            id: self.id as int,
            name: self.name@,
            path: self.path@,
            thumbnail_path: self.thumbnail_path@,
            mime_type: self.mime_type@,
            author: self.author@,
            asset_type: self.asset_type@,
            md5_checksum: self.md5_checksum@,
            is_public: self.is_public as int,
            created_at: self.created_at@,
            updated_at: self.updated_at@,
        }
    }
}

/// The fixed set of content categories the service recognizes; used only
/// to build request URLs, serialized to its lowercase wire name.
#[derive(Debug, Clone, Copy, PartialEq, Eq)]
pub enum AssetType {
    SKIN,
    MAPRES,
    GAMESKIN,
    EMOTICON,
    ENTITY,
    CURSOR,
    PARTICLE,
    FONT,
    GRIDTEMPLATE,
}

/// The lowercase wire name of each category, as it appears in request URLs.
pub open spec fn spec_wire_name(t: AssetType) -> Seq<char> {
    match t {
        AssetType::SKIN => "skin"@,
        AssetType::MAPRES => "mapres"@,
        AssetType::GAMESKIN => "gameskin"@,
        AssetType::EMOTICON => "emoticon"@,
        AssetType::ENTITY => "entity"@,
        AssetType::CURSOR => "cursor"@,
        AssetType::PARTICLE => "particle"@,
        AssetType::FONT => "font"@,
        AssetType::GRIDTEMPLATE => "gridtemplate"@,
    }
}

impl AssetType {
    /// The lowercase name under which the service knows this category.
    pub fn wire_name(&self) -> (r: &'static str)
        ensures
            r@ == spec_wire_name(*self),
    {
        match self {
            AssetType::SKIN => "skin",
            AssetType::MAPRES => "mapres",
            AssetType::GAMESKIN => "gameskin",
            AssetType::EMOTICON => "emoticon",
            AssetType::ENTITY => "entity",
            AssetType::CURSOR => "cursor",
            AssetType::PARTICLE => "particle",
            AssetType::FONT => "font",
            AssetType::GRIDTEMPLATE => "gridtemplate",
        }
    }
}

/// Metadata about a content contributor.  No accessor currently returns it
/// standalone; the shape is kept for forward compatibility.
#[derive(Debug, Clone, PartialEq)]
pub struct Uploader {
    pub id: i32,
    pub name: String,
    pub profile_photo_path: Option<String>,
    pub is_admin: bool,
    pub created_at: String,
    pub updated_at: String,
    pub profile_photo_url: Option<String>,
}

/// The identity portion of a profile.
#[derive(Debug, Clone, PartialEq)]
pub struct User {
    pub name: String,
    pub profile_photo_url: String,
    pub member_since: String,
}

/// Mathematical view of a [`User`].
pub struct UserV {
    pub name: Seq<char>,
    pub profile_photo_url: Seq<char>,
    pub member_since: Seq<char>,
}

impl View for User {
    type V = UserV;

    open spec fn view(&self) -> UserV {
        UserV {
            name: self.name@,
            profile_photo_url: self.profile_photo_url@,
            member_since: self.member_since@,
        }
    }
}

/// Per-category tallies.  The last field is carried on the wire under the
/// key `gridTemplates`, mapped to `grid_template` in memory.
#[derive(Debug, Clone, PartialEq)]
pub struct AssetsCount {
    pub skins: i32,
    pub mapres: i32,
    pub gameskins: i32,
    pub emoticons: i32,
    pub cursors: i32,
    pub particles: i32,
    pub entities: i32,
    pub fonts: i32,
    pub grid_template: i32,
}

/// Mathematical view of an [`AssetsCount`].
pub struct AssetsCountV {
    pub skins: int,
    pub mapres: int,
    pub gameskins: int,
    pub emoticons: int,
    pub cursors: int,
    pub particles: int,
    pub entities: int,
    pub fonts: int,
    pub grid_template: int,
}

impl View for AssetsCount {
    type V = AssetsCountV;

    open spec fn view(&self) -> AssetsCountV {
        AssetsCountV {
            skins: self.skins as int,
            mapres: self.mapres as int,
            gameskins: self.gameskins as int,
            emoticons: self.emoticons as int,
            cursors: self.cursors as int,
            particles: self.particles as int,
            entities: self.entities as int,
            fonts: self.fonts as int,
            grid_template: self.grid_template as int,
        }
    }
}

/// Aggregate stats for uploads or downloads.  The wire keys `totalCount`
/// and `assetsCount` map to `total_count` and `assets_count`.
#[derive(Debug, Clone, PartialEq)]
pub struct UserData {
    pub rank: i32,
    pub total_count: i32,
    pub assets_count: AssetsCount,
}

/// Mathematical view of a [`UserData`].
pub struct UserDataV {
    pub rank: int,
    pub total_count: int,
    pub assets_count: AssetsCountV,
}

impl View for UserData {
    type V = UserDataV;

    open spec fn view(&self) -> UserDataV {
        UserDataV {
            rank: self.rank as int,
            total_count: self.total_count as int,
            assets_count: self.assets_count@,
        }
    }
}

/// A full profile response.  The wire keys `uploadData` and `downloadData`
/// map to `upload_data` and `download_data`.
#[derive(Debug, Clone, PartialEq)]
pub struct Profile {
    pub user: User,
    pub upload_data: UserData,
    pub download_data: UserData,
}

/// Mathematical view of a [`Profile`].
pub struct ProfileV {
    pub user: UserV,
    pub upload_data: UserDataV,
    pub download_data: UserDataV,
}

impl View for Profile {
    type V = ProfileV;

    open spec fn view(&self) -> ProfileV {
        ProfileV {
            user: self.user@,
            upload_data: self.upload_data@,
            download_data: self.download_data@,
        }
    }
}

/// Response to the token-based upload-count query.
#[derive(Debug, Clone, PartialEq)]
pub struct ForDiscord {
    pub name: String,
    pub count_uploads: i32,
}

/// Mathematical view of a [`ForDiscord`].
pub struct ForDiscordV {
    pub name: Seq<char>,
    pub count_uploads: int,
}

impl View for ForDiscord {
    type V = ForDiscordV;

    open spec fn view(&self) -> ForDiscordV {
        ForDiscordV { name: self.name@, count_uploads: self.count_uploads as int }
    }
}

/// One completed HTTP exchange: the status the server answered with and the
/// response body.  A transport failure (no response at all) is represented
/// by the caller passing no reply.
#[derive(Debug, Clone, PartialEq)]
pub struct HttpReply {
    pub status: u16,
    pub body: String,
}

/// Mathematical view of an [`HttpReply`].
pub struct HttpReplyV {
    pub status: int,
    pub body: Seq<char>,
}

impl View for HttpReply {
    type V = HttpReplyV;

    open spec fn view(&self) -> HttpReplyV {
        HttpReplyV { status: self.status as int, body: self.body@ }
    }
}

} // verus!
