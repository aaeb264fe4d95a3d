//! The catalog client: immutable configuration, request-URL builders, and
//! the accessors that turn a raw HTTP reply into a typed record.
//!
//! The client never performs network traffic itself.  A caller asks it for
//! the URL of an operation, performs one GET against that URL however it
//! likes, and hands the reply — or `None`, when the transport failed
//! outright — to the matching accessor, which checks the status and
//! decodes the body.  Every failure collapses to `None`.

use vstd::prelude::*;

use crate::data::{Asset, AssetType, ForDiscord, HttpReply, HttpReplyV, Profile, spec_wire_name};
use crate::data::{AssetV, ForDiscordV, ProfileV};
use crate::json;

verus! {

/// Decimal digit character for `d`.
pub open spec fn spec_digit_char(d: int) -> char {
    ((48 + d) as u8) as char
}

/// Decimal rendering of a non-negative integer, most significant digit
/// first.
pub open spec fn spec_render_nat(v: int) -> Seq<char>
    decreases v,
{
    if v < 10 {
        seq![spec_digit_char(v)]
    } else {
        spec_render_nat(v / 10) + seq![spec_digit_char(v % 10)]
    }
}

/// Decimal rendering of an integer, minus sign included for negatives.
pub open spec fn spec_render_int(v: int) -> Seq<char> {
    if v < 0 {
        seq!['-'] + spec_render_nat(-v)
    } else {
        spec_render_nat(v)
    }
}

fn push_digits(n: u64, out: &mut Vec<char>)
    ensures
        final(out)@ == old(out)@ + spec_render_nat(n as int),
    decreases n,
{
    if n < 10 {
        out.push((48 + n as u8) as char);
        proof {
            assert(out@ =~= old(out)@ + spec_render_nat(n as int));
        }
    } else {
        push_digits(n / 10, out);
        out.push((48 + (n % 10) as u8) as char);
        proof {
            assert(out@ =~= old(out)@ + spec_render_nat(n as int));
        }
    }
}

/// The decimal text of `v`, exactly as [`spec_render_int`] gives it.
pub fn fmt_i32(v: i32) -> (r: String)
    ensures
        r@ == spec_render_int(v as int),
{
    let mut out: Vec<char> = Vec::new();
    if v < 0 {
        out.push('-');
        let m = -(v as i64);
        push_digits(m as u64, &mut out);
        proof {
            assert(out@ =~= seq!['-'] + spec_render_nat(-(v as int)));
        }
    } else {
        push_digits(v as u64, &mut out);
    }
    json::chars_to_string(&out)
}

/// Whether an HTTP status counts as success.
pub open spec fn spec_status_ok(status: int) -> bool {
    200 <= status < 300
}

/// The view of an optional reply.
pub open spec fn spec_reply_view(r: Option<HttpReply>) -> Option<HttpReplyV> {
    match r {
        None => None,
        Some(h) => Some(h@),
    }
}

/// What a reply to the asset endpoint decodes to: nothing without a
/// successful exchange, else the decoded body.
pub open spec fn spec_get_asset(reply: Option<HttpReplyV>) -> Option<AssetV> {
    match reply {
        None => None,
        Some(h) => if spec_status_ok(h.status) {
            json::spec_decode_asset(h.body)
        } else {
            None
        },
    }
}

/// What a reply to the asset-listing endpoint decodes to.
pub open spec fn spec_get_assets(reply: Option<HttpReplyV>) -> Option<Seq<AssetV>> {
    match reply {
        None => None,
        Some(h) => if spec_status_ok(h.status) {
            json::spec_decode_assets(h.body)
        } else {
            None
        },
    }
}

/// What a reply to the upload-count endpoint decodes to.
pub open spec fn spec_get_for_discord(reply: Option<HttpReplyV>) -> Option<ForDiscordV> {
    match reply {
        None => None,
        Some(h) => if spec_status_ok(h.status) {
            json::spec_decode_for_discord(h.body)
        } else {
            None
        },
    }
}

/// What a reply to the profile endpoint decodes to.
pub open spec fn spec_get_profile(reply: Option<HttpReplyV>) -> Option<ProfileV> {
    match reply {
        None => None,
        Some(h) => if spec_status_ok(h.status) {
            json::spec_decode_profile(h.body)
        } else {
            None
        },
    }
}

/// Client for the asset service: an opaque access token and the base host
/// URL, both fixed at construction.
#[derive(Debug, Clone, PartialEq)]
pub struct TeeskinsApi {
    token: String,
    host: String,
}

/// Mathematical view of a [`TeeskinsApi`].
pub struct TeeskinsApiV {
    pub token: Seq<char>,
    pub host: Seq<char>,
}

impl View for TeeskinsApi {
    type V = TeeskinsApiV;

    closed spec fn view(&self) -> TeeskinsApiV {
        TeeskinsApiV { token: self.token@, host: self.host@ }
    }
}

impl Default for TeeskinsApi {
    /// A placeholder instance: empty token, `http://localhost` as host.
    fn default() -> (r: TeeskinsApi)
        ensures
            r@.token == Seq::<char>::empty(),
            r@.host == "http://localhost"@,
    {
        TeeskinsApi { token: String::new(), host: "http://localhost".to_owned() }
    }
}

impl TeeskinsApi {
    /// A client for the service at `host`, holding `token` as its opaque
    /// access token.
    pub fn new(token: String, host: String) -> (r: TeeskinsApi)
        ensures
            r@.token == token@,
            r@.host == host@,
    {
        TeeskinsApi { token, host }
    }

    /// The URL of the asset-by-id endpoint for `id`.
    pub fn asset_url(&self, id: i32) -> (r: String)
        ensures
            r@ == self@.host + "/api/asset/"@ + spec_render_int(id as int),
    {
        let mut u = self.host.clone();
        u.append("/api/asset/");
        let d = fmt_i32(id);
        u.append(d.as_str());
        proof {
            assert(u@ =~= self@.host + "/api/asset/"@ + spec_render_int(id as int));
        }
        u
    }

    /// The URL of the listing endpoint for `asset_type` and `limit`.
    pub fn assets_url(&self, asset_type: AssetType, limit: i32) -> (r: String)
        ensures
            r@ == self@.host + "/api/assets/"@ + spec_wire_name(asset_type) + "/"@
                + spec_render_int(limit as int),
    {
        let mut u = self.host.clone();
        u.append("/api/assets/");
        u.append(asset_type.wire_name());
        u.append("/");
        let d = fmt_i32(limit);
        u.append(d.as_str());
        proof {
            assert(u@ =~= self@.host + "/api/assets/"@ + spec_wire_name(asset_type) + "/"@
                + spec_render_int(limit as int));
        }
        u
    }

    /// The URL of the upload-count endpoint for `token`.
    pub fn discord_url(&self, token: &str) -> (r: String)
        ensures
            r@ == self@.host + "/api/discord/"@ + token@,
    {
        let mut u = self.host.clone();
        u.append("/api/discord/");
        u.append(token);
        proof {
            assert(u@ =~= self@.host + "/api/discord/"@ + token@);
        }
        u
    }

    /// The URL of the profile endpoint for `name`.
    pub fn profile_url(&self, name: &str) -> (r: String)
        ensures
            r@ == self@.host + "/api/profile/"@ + name@,
    {
        let mut u = self.host.clone();
        u.append("/api/profile/");
        u.append(name);
        proof {
            assert(u@ =~= self@.host + "/api/profile/"@ + name@);
        }
        u
    }

    /// The asset with the given id, out of the reply the caller got for
    /// [`Self::asset_url`] with that id.  `None` on a missing reply, a
    /// non-success status, or a malformed body — the id plays no further
    /// part in decoding.
    pub fn get_asset_by_id(&self, id: i32, reply: Option<HttpReply>) -> (r: Option<Asset>)
        ensures
            (match (r, spec_get_asset(spec_reply_view(reply))) {
                (Some(a), Some(g)) => a@ == g,
                (None, None) => true,
                _ => false,
            }),
            reply is None ==> r is None,
            (reply matches Some(h) && !spec_status_ok(h@.status)) ==> r is None,
            (reply matches Some(h) && spec_status_ok(h@.status)
                && json::spec_decode_asset(h@.body) is None) ==> r is None,
    {
        match reply {
            None => None,
            Some(h) => if 200 <= h.status && h.status < 300 {
                json::decode_asset(h.body.as_str())
            } else {
                None
            },
        }
    }

    /// The assets of a category, out of the reply the caller got for
    /// [`Self::assets_url`] with that category and limit.  The length of
    /// the sequence is whatever the server chose; `limit` is advisory.
    pub fn get_assets_by_type(
        &self,
        asset_type: AssetType,
        limit: i32,
        reply: Option<HttpReply>,
    ) -> (r: Option<Vec<Asset>>)
        ensures
            (match (r, spec_get_assets(spec_reply_view(reply))) {
                (Some(v), Some(g)) => json::seq_view(v@) == g,
                (None, None) => true,
                _ => false,
            }),
            reply is None ==> r is None,
            (reply matches Some(h) && !spec_status_ok(h@.status)) ==> r is None,
            (reply matches Some(h) && spec_status_ok(h@.status)
                && json::spec_decode_assets(h@.body) is None) ==> r is None,
    {
        match reply {
            None => None,
            Some(h) => if 200 <= h.status && h.status < 300 {
                json::decode_assets(h.body.as_str())
            } else {
                None
            },
        }
    }

    /// The upload count bound to a token, out of the reply the caller got
    /// for [`Self::discord_url`] with that token.
    pub fn get_uploads_count_from_token(&self, token: String, reply: Option<HttpReply>) -> (r:
        Option<ForDiscord>)
        ensures
            (match (r, spec_get_for_discord(spec_reply_view(reply))) {
                (Some(d), Some(g)) => d@ == g,
                (None, None) => true,
                _ => false,
            }),
            reply is None ==> r is None,
            (reply matches Some(h) && !spec_status_ok(h@.status)) ==> r is None,
            (reply matches Some(h) && spec_status_ok(h@.status)
                && json::spec_decode_for_discord(h@.body) is None) ==> r is None,
            (r matches Some(d) ==> d.count_uploads >= 0),
    {
        let _ = token;
        match reply {
            None => None,
            Some(h) => if 200 <= h.status && h.status < 300 {
                json::decode_for_discord(h.body.as_str())
            } else {
                None
            },
        }
    }

    /// A user's profile, out of the reply the caller got for
    /// [`Self::profile_url`] with that name.
    pub fn get_profile(&self, name: String, reply: Option<HttpReply>) -> (r: Option<Profile>)
        ensures
            (match (r, spec_get_profile(spec_reply_view(reply))) {
                (Some(p), Some(g)) => p@ == g,
                (None, None) => true,
                _ => false,
            }),
            reply is None ==> r is None,
            (reply matches Some(h) && !spec_status_ok(h@.status)) ==> r is None,
            (reply matches Some(h) && spec_status_ok(h@.status)
                && json::spec_decode_profile(h@.body) is None) ==> r is None,
            (r matches Some(p) ==> json::ud_counts_ok(p.upload_data) && json::ud_counts_ok(
                p.download_data,
            )),
    {
        let _ = name;
        match reply {
            None => None,
            Some(h) => if 200 <= h.status && h.status < 300 {
                json::decode_profile(h.body.as_str())
            } else {
                None
            },
        }
    }
}

} // verus!
