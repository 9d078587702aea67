//! Decoding a parsed JSON tree against the instance-metadata schema.
//!
//! The spec functions `spec_decode_*` say exactly which trees decode and to
//! which record: an object decodes when each required field is present with
//! the required type (members may come in any order, and unknown members are
//! ignored, as structural deserialization does); otherwise the tree is a
//! schema mismatch. The executable decoders return precisely what the spec
//! functions say, and `lemma_decode_encode_instance` proves that decoding is
//! faithful: a document that encodes a record decodes back to it.

use vstd::prelude::*;

verus! {

use crate::json::Json;
use crate::json::JsonG;
use crate::json::jview;
use crate::json::entries_view;
use crate::json::items_view;
use crate::json::chars_of;
use crate::json::copy_chars;
use crate::schema::opt_str_view;
use crate::schema::seq_view;
use crate::schema::strs_view;
use crate::schema::InstanceRule;
use crate::schema::InstanceRuleG;
use crate::schema::InstanceUrls;
use crate::schema::InstanceUrlsG;
use crate::schema::InstanceStats;
use crate::schema::InstanceStatsG;
use crate::schema::InstanceStatus;
use crate::schema::InstanceStatusG;
use crate::schema::MediaAttachmentConfig;
use crate::schema::MediaAttachmentConfigG;
use crate::schema::PollConfig;
use crate::schema::PollConfigG;
use crate::schema::InstanceConfiguration;
use crate::schema::InstanceConfigurationG;
use crate::schema::AccountEmoji;
use crate::schema::AccountEmojiG;
use crate::schema::ContactField;
use crate::schema::ContactFieldG;
use crate::schema::ContactAccountInfo;
use crate::schema::ContactAccountInfoG;
use crate::schema::InstanceResponse;
use crate::schema::InstanceResponseG;

/// The value under `key` in an object's members: the first member with that
/// key, as JSON takes duplicate keys.
pub open spec fn g_lookup(es: Seq<(Seq<char>, JsonG)>, key: Seq<char>) -> Option<JsonG>
    decreases es.len(),
{
    if es.len() == 0 {
        None
    } else if es[0].0 == key {
        Some(es[0].1)
    } else {
        g_lookup(es.drop_first(), key)
    }
}

/// Looking a key up finds the first member carrying it.
pub proof fn lemma_lookup_at(es: Seq<(Seq<char>, JsonG)>, key: Seq<char>, i: int)
    requires
        0 <= i < es.len(),
        es[i].0 == key,
        forall|k: int| 0 <= k < i ==> (#[trigger] es[k]).0 != key,
    ensures
        g_lookup(es, key) == Some(es[i].1),
    decreases i,
{
    if i > 0 {
        lemma_lookup_at(es.drop_first(), key, i - 1);
    }
}

/// Looking up a key that no member carries finds nothing.
pub proof fn lemma_lookup_none(es: Seq<(Seq<char>, JsonG)>, key: Seq<char>)
    requires
        forall|k: int| 0 <= k < es.len() ==> (#[trigger] es[k]).0 != key,
    ensures
        g_lookup(es, key) is None,
    decreases es.len(),
{
    if es.len() > 0 {
        lemma_lookup_none(es.drop_first(), key);
    }
}

/// The string under `key`, if the member is there and is a string.
pub open spec fn g_str(es: Seq<(Seq<char>, JsonG)>, key: Seq<char>) -> Option<Seq<char>> {
    match g_lookup(es, key) {
        Some(JsonG::Str(s)) => Some(s),
        _ => None,
    }
}

/// The integer under `key`, if the member is there and is an integer.
pub open spec fn g_int(es: Seq<(Seq<char>, JsonG)>, key: Seq<char>) -> Option<i64> {
    match g_lookup(es, key) {
        Some(JsonG::Int(n)) => Some(n),
        _ => None,
    }
}

/// The boolean under `key`, if the member is there and is a boolean.
pub open spec fn g_bool(es: Seq<(Seq<char>, JsonG)>, key: Seq<char>) -> Option<bool> {
    match g_lookup(es, key) {
        Some(JsonG::Bool(b)) => Some(b),
        _ => None,
    }
}

/// The array under `key`, if the member is there and is an array.
pub open spec fn g_arr(es: Seq<(Seq<char>, JsonG)>, key: Seq<char>) -> Option<Seq<JsonG>> {
    match g_lookup(es, key) {
        Some(JsonG::Arr(items)) => Some(items),
        _ => None,
    }
}

/// The object under `key`, if the member is there and is an object.
pub open spec fn g_obj(es: Seq<(Seq<char>, JsonG)>, key: Seq<char>) -> Option<
    Seq<(Seq<char>, JsonG)>,
> {
    match g_lookup(es, key) {
        Some(JsonG::Obj(inner)) => Some(inner),
        _ => None,
    }
}

/// An optional string under `key`: an absent member and a JSON `null` both
/// decode to "absent"; a string decodes to itself; any other value is a
/// mismatch.
pub open spec fn g_opt_str(es: Seq<(Seq<char>, JsonG)>, key: Seq<char>) -> Option<
    Option<Seq<char>>,
> {
    match g_lookup(es, key) {
        None => Some(None),
        Some(JsonG::Null) => Some(None),
        Some(JsonG::Str(s)) => Some(Some(s)),
        Some(_) => None,
    }
}

/// Two character vectors hold the same characters.
fn chars_eq(a: &Vec<char>, b: &Vec<char>) -> (r: bool)
    ensures
        r == (a@ == b@),
{
    if a.len() != b.len() {
        return false;
    }
    let mut i: usize = 0;
    while i < a.len()
        invariant
            i <= a.len() == b.len(),
            forall|k: int| 0 <= k < i ==> a@[k] == b@[k],
        decreases a.len() - i,
    {
        if a[i] != b[i] {
            return false;
        }
        i += 1;
    }
    proof {
        assert(a@ =~= b@);
    }
    true
}

/// The member of `es` under `key`, by linear search from the front.
fn obj_get<'a>(es: &'a Vec<(Vec<char>, Json)>, key: &str) -> (r: Option<&'a Json>)
    ensures
        match r {
            Some(v) => g_lookup(entries_view(*es), key@) == Some(jview(*v)),
            None => g_lookup(entries_view(*es), key@) is None,
        },
{
    let k = chars_of(key);
    let ghost ev = entries_view(*es);
    let mut i: usize = 0;
    while i < es.len()
        invariant
            i <= es.len(),
            k@ == key@,
            ev == entries_view(*es),
            ev.len() == es@.len(),
            forall|m: int| 0 <= m < i ==> (#[trigger] ev[m]).0 != key@,
        decreases es.len() - i,
    {
        if chars_eq(&es[i].0, &k) {
            proof {
                assert(ev[i as int] == (es@[i as int].0@, jview(es@[i as int].1)));
                lemma_lookup_at(ev, key@, i as int);
            }
            return Some(&es[i].1);
        }
        proof {
            assert(ev[i as int] == (es@[i as int].0@, jview(es@[i as int].1)));
        }
        i += 1;
    }
    proof {
        lemma_lookup_none(ev, key@);
    }
    None
}

/// The string member under `key`, copied out.
fn get_str(es: &Vec<(Vec<char>, Json)>, key: &str) -> (r: Option<Vec<char>>)
    ensures
        match r {
            Some(s) => g_str(entries_view(*es), key@) == Some(s@),
            None => g_str(entries_view(*es), key@) is None,
        },
{
    match obj_get(es, key) {
        Some(Json::Str(s)) => Some(copy_chars(s.as_slice())),
        _ => None,
    }
}

/// The integer member under `key`.
fn get_int(es: &Vec<(Vec<char>, Json)>, key: &str) -> (r: Option<i64>)
    ensures
        r == g_int(entries_view(*es), key@),
{
    match obj_get(es, key) {
        Some(Json::Int(n)) => Some(*n),
        _ => None,
    }
}

/// The boolean member under `key`.
fn get_bool(es: &Vec<(Vec<char>, Json)>, key: &str) -> (r: Option<bool>)
    ensures
        r == g_bool(entries_view(*es), key@),
{
    match obj_get(es, key) {
        Some(Json::Bool(b)) => Some(*b),
        _ => None,
    }
}

/// The array member under `key`, borrowed.
fn get_arr<'a>(es: &'a Vec<(Vec<char>, Json)>, key: &str) -> (r: Option<&'a Vec<Json>>)
    ensures
        match r {
            Some(items) => g_arr(entries_view(*es), key@) == Some(items_view(*items)),
            None => g_arr(entries_view(*es), key@) is None,
        },
{
    match obj_get(es, key) {
        Some(Json::Arr(items)) => Some(items),
        _ => None,
    }
}

/// The object member under `key`, borrowed.
fn get_obj<'a>(es: &'a Vec<(Vec<char>, Json)>, key: &str) -> (r: Option<
    &'a Vec<(Vec<char>, Json)>,
>)
    ensures
        match r {
            Some(inner) => g_obj(entries_view(*es), key@) == Some(entries_view(*inner)),
            None => g_obj(entries_view(*es), key@) is None,
        },
{
    match obj_get(es, key) {
        Some(Json::Obj(inner)) => Some(inner),
        _ => None,
    }
}

/// The optional string member under `key` (absent or `null` both mean
/// "absent").
fn get_opt_str(es: &Vec<(Vec<char>, Json)>, key: &str) -> (r: Option<Option<Vec<char>>>)
    ensures
        match r {
            Some(v) => g_opt_str(entries_view(*es), key@) == Some(opt_str_view(v)),
            None => g_opt_str(entries_view(*es), key@) is None,
        },
{
    match obj_get(es, key) {
        None => Some(None),
        Some(Json::Null) => Some(None),
        Some(Json::Str(s)) => Some(Some(copy_chars(s.as_slice()))),
        Some(_) => None,
    }
}

/// Decode of a rule.
pub open spec fn spec_decode_rule(v: JsonG) -> Option<InstanceRuleG> {
    match v {
        JsonG::Obj(es) => match (g_str(es, "id"@), g_str(es, "text"@)) {
            (Some(id), Some(text)) => Some(InstanceRuleG { id: id, text: text }),
            _ => None,
        },
        _ => None,
    }
}

/// Exec twin of `spec_decode_rule`.
pub fn decode_rule(v: &Json) -> (r: Option<InstanceRule>)
    ensures
        match r {
            Some(x) => spec_decode_rule(jview(*v)) == Some(x@),
            None => spec_decode_rule(jview(*v)) is None,
        },
{
    match v {
        Json::Obj(es) => {
            let id = match get_str(es, "id") {
                Some(x) => x,
                None => {
                    return None;
                },
            };
            let text = match get_str(es, "text") {
                Some(x) => x,
                None => {
                    return None;
                },
            };
            Some(InstanceRule { id, text })
        },
        _ => None,
    }
}

/// Decode of the endpoint addresses.
pub open spec fn spec_decode_urls(v: JsonG) -> Option<InstanceUrlsG> {
    match v {
        JsonG::Obj(es) => match g_str(es, "streaming_api"@) {
            Some(streaming_api) => Some(InstanceUrlsG { streaming_api: streaming_api }),
            _ => None,
        },
        _ => None,
    }
}

/// Exec twin of `spec_decode_urls`.
pub fn decode_urls(v: &Json) -> (r: Option<InstanceUrls>)
    ensures
        match r {
            Some(x) => spec_decode_urls(jview(*v)) == Some(x@),
            None => spec_decode_urls(jview(*v)) is None,
        },
{
    match v {
        Json::Obj(es) => {
            let streaming_api = match get_str(es, "streaming_api") {
                Some(x) => x,
                None => {
                    return None;
                },
            };
            Some(InstanceUrls { streaming_api })
        },
        _ => None,
    }
}

/// Decode of the counters.
pub open spec fn spec_decode_stats(v: JsonG) -> Option<InstanceStatsG> {
    match v {
        JsonG::Obj(es) => match (
            g_int(es, "user_count"@),
            g_int(es, "status_count"@),
            g_int(es, "domain_count"@),
        ) {
            (Some(user_count), Some(status_count), Some(domain_count)) => Some(
                InstanceStatsG {
                    user_count: user_count,
                    status_count: status_count,
                    domain_count: domain_count,
                },
            ),
            _ => None,
        },
        _ => None,
    }
}

/// Exec twin of `spec_decode_stats`.
pub fn decode_stats(v: &Json) -> (r: Option<InstanceStats>)
    ensures
        match r {
            Some(x) => spec_decode_stats(jview(*v)) == Some(x@),
            None => spec_decode_stats(jview(*v)) is None,
        },
{
    match v {
        Json::Obj(es) => {
            let user_count = match get_int(es, "user_count") {
                Some(x) => x,
                None => {
                    return None;
                },
            };
            let status_count = match get_int(es, "status_count") {
                Some(x) => x,
                None => {
                    return None;
                },
            };
            let domain_count = match get_int(es, "domain_count") {
                Some(x) => x,
                None => {
                    return None;
                },
            };
            Some(InstanceStats { user_count, status_count, domain_count })
        },
        _ => None,
    }
}

/// Decode of an array of strings.
pub open spec fn spec_decode_strings(items: Seq<JsonG>) -> Option<Seq<Seq<char>>> {
    if forall|i: int| 0 <= i < items.len() ==> (#[trigger] items[i]) matches JsonG::Str(_) {
        Some(Seq::new(items.len(), |i: int| items[i]->Str_0))
    } else {
        None
    }
}

/// Exec twin of `spec_decode_strings`.
pub fn decode_strings(items: &Vec<Json>) -> (r: Option<Vec<Vec<char>>>)
    ensures
        match r {
            Some(ss) => spec_decode_strings(items_view(*items)) == Some(strs_view(ss)),
            None => spec_decode_strings(items_view(*items)) is None,
        },
{
    let mut out: Vec<Vec<char>> = Vec::new();
    let mut i: usize = 0;
    while i < items.len()
        invariant
            i <= items.len(),
            out@.len() == i as int,
            forall|k: int|
                0 <= k < i ==> ((#[trigger] items_view(*items)[k]) matches JsonG::Str(_)
                    && out@[k]@ == items_view(*items)[k]->Str_0),
        decreases items.len() - i,
    {
        proof {
            assert(items_view(*items)[i as int] == jview(items@[i as int]));
        }
        match &items[i] {
            Json::Str(s) => {
                out.push(copy_chars(s.as_slice()));
            },
            _ => {
                return None;
            },
        }
        i += 1;
    }
    proof {
        assert(Seq::new(items_view(*items).len(), |k: int| items_view(*items)[k]->Str_0)
            =~= strs_view(out));
    }
    Some(out)
}

/// Decode of the post limits.
pub open spec fn spec_decode_status(v: JsonG) -> Option<InstanceStatusG> {
    match v {
        JsonG::Obj(es) => match (
            g_int(es, "max_characters"@),
            g_int(es, "max_media_attachments"@),
            g_int(es, "characters_reserved_per_url"@),
        ) {
            (Some(max_characters), Some(max_media_attachments), Some(characters_reserved_per_url)) => Some(
                InstanceStatusG {
                    max_characters: max_characters,
                    max_media_attachments: max_media_attachments,
                    characters_reserved_per_url: characters_reserved_per_url,
                },
            ),
            _ => None,
        },
        _ => None,
    }
}

/// Exec twin of `spec_decode_status`.
pub fn decode_status(v: &Json) -> (r: Option<InstanceStatus>)
    ensures
        match r {
            Some(x) => spec_decode_status(jview(*v)) == Some(x@),
            None => spec_decode_status(jview(*v)) is None,
        },
{
    match v {
        Json::Obj(es) => {
            let max_characters = match get_int(es, "max_characters") {
                Some(x) => x,
                None => {
                    return None;
                },
            };
            let max_media_attachments = match get_int(es, "max_media_attachments") {
                Some(x) => x,
                None => {
                    return None;
                },
            };
            let characters_reserved_per_url = match get_int(es, "characters_reserved_per_url") {
                Some(x) => x,
                None => {
                    return None;
                },
            };
            Some(InstanceStatus { max_characters, max_media_attachments, characters_reserved_per_url })
        },
        _ => None,
    }
}

/// Decode of the poll limits.
pub open spec fn spec_decode_poll(v: JsonG) -> Option<PollConfigG> {
    match v {
        JsonG::Obj(es) => match (
            g_int(es, "max_options"@),
            g_int(es, "max_characters_per_option"@),
            g_int(es, "min_expiration"@),
            g_int(es, "max_expiration"@),
        ) {
            (Some(max_options), Some(max_characters_per_option), Some(min_expiration), Some(
                max_expiration,
            )) => Some(
                PollConfigG {
                    max_options: max_options,
                    max_characters_per_option: max_characters_per_option,
                    min_expiration: min_expiration,
                    max_expiration: max_expiration,
                },
            ),
            _ => None,
        },
        _ => None,
    }
}

/// Exec twin of `spec_decode_poll`.
pub fn decode_poll(v: &Json) -> (r: Option<PollConfig>)
    ensures
        match r {
            Some(x) => spec_decode_poll(jview(*v)) == Some(x@),
            None => spec_decode_poll(jview(*v)) is None,
        },
{
    match v {
        Json::Obj(es) => {
            let max_options = match get_int(es, "max_options") {
                Some(x) => x,
                None => {
                    return None;
                },
            };
            let max_characters_per_option = match get_int(es, "max_characters_per_option") {
                Some(x) => x,
                None => {
                    return None;
                },
            };
            let min_expiration = match get_int(es, "min_expiration") {
                Some(x) => x,
                None => {
                    return None;
                },
            };
            let max_expiration = match get_int(es, "max_expiration") {
                Some(x) => x,
                None => {
                    return None;
                },
            };
            Some(PollConfig { max_options, max_characters_per_option, min_expiration, max_expiration })
        },
        _ => None,
    }
}

/// Decode of the media constraints.
pub open spec fn spec_decode_media(v: JsonG) -> Option<MediaAttachmentConfigG> {
    match v {
        JsonG::Obj(es) => match (
            g_arr(es, "supported_mime_types"@),
            g_int(es, "image_size_limit"@),
            g_int(es, "image_matrix_limit"@),
            g_int(es, "video_size_limit"@),
            g_int(es, "video_frame_rate_limit"@),
            g_int(es, "video_matrix_limit"@),
        ) {
            (Some(mt), Some(image_size_limit), Some(image_matrix_limit), Some(video_size_limit),
                Some(video_frame_rate_limit), Some(video_matrix_limit)) => match spec_decode_strings(mt) {
                Some(supported_mime_types) => Some(
                    MediaAttachmentConfigG {
                        supported_mime_types: supported_mime_types,
                        image_size_limit: image_size_limit,
                        image_matrix_limit: image_matrix_limit,
                        video_size_limit: video_size_limit,
                        video_frame_rate_limit: video_frame_rate_limit,
                        video_matrix_limit: video_matrix_limit,
                    },
                ),
                None => None,
            },
            _ => None,
        },
        _ => None,
    }
}

/// Exec twin of `spec_decode_media`.
pub fn decode_media(v: &Json) -> (r: Option<MediaAttachmentConfig>)
    ensures
        match r {
            Some(x) => spec_decode_media(jview(*v)) == Some(x@),
            None => spec_decode_media(jview(*v)) is None,
        },
{
    match v {
        Json::Obj(es) => {
            let mt = match get_arr(es, "supported_mime_types") {
                Some(x) => x,
                None => {
                    return None;
                },
            };
            let image_size_limit = match get_int(es, "image_size_limit") {
                Some(x) => x,
                None => {
                    return None;
                },
            };
            let image_matrix_limit = match get_int(es, "image_matrix_limit") {
                Some(x) => x,
                None => {
                    return None;
                },
            };
            let video_size_limit = match get_int(es, "video_size_limit") {
                Some(x) => x,
                None => {
                    return None;
                },
            };
            let video_frame_rate_limit = match get_int(es, "video_frame_rate_limit") {
                Some(x) => x,
                None => {
                    return None;
                },
            };
            let video_matrix_limit = match get_int(es, "video_matrix_limit") {
                Some(x) => x,
                None => {
                    return None;
                },
            };
            let supported_mime_types = match decode_strings(mt) {
                Some(x) => x,
                None => {
                    return None;
                },
            };
            Some(
                MediaAttachmentConfig {
                    supported_mime_types,
                    image_size_limit,
                    image_matrix_limit,
                    video_size_limit,
                    video_frame_rate_limit,
                    video_matrix_limit,
                },
            )
        },
        _ => None,
    }
}

/// Decode of the configuration group.
pub open spec fn spec_decode_config(v: JsonG) -> Option<InstanceConfigurationG> {
    match v {
        JsonG::Obj(es) => match (
            g_lookup(es, "statuses"@),
            g_lookup(es, "media_attachments"@),
            g_lookup(es, "polls"@),
        ) {
            (Some(st), Some(ma), Some(po)) => match (
                spec_decode_status(st),
                spec_decode_media(ma),
                spec_decode_poll(po),
            ) {
                (Some(statuses), Some(media_attachments), Some(polls)) => Some(
                    InstanceConfigurationG {
                        statuses: statuses,
                        media_attachments: media_attachments,
                        polls: polls,
                    },
                ),
                _ => None,
            },
            _ => None,
        },
        _ => None,
    }
}

/// Exec twin of `spec_decode_config`.
pub fn decode_config(v: &Json) -> (r: Option<InstanceConfiguration>)
    ensures
        match r {
            Some(x) => spec_decode_config(jview(*v)) == Some(x@),
            None => spec_decode_config(jview(*v)) is None,
        },
{
    match v {
        Json::Obj(es) => {
            let st = match obj_get(es, "statuses") {
                Some(x) => x,
                None => {
                    return None;
                },
            };
            let ma = match obj_get(es, "media_attachments") {
                Some(x) => x,
                None => {
                    return None;
                },
            };
            let po = match obj_get(es, "polls") {
                Some(x) => x,
                None => {
                    return None;
                },
            };
            let statuses = match decode_status(st) {
                Some(x) => x,
                None => {
                    return None;
                },
            };
            let media_attachments = match decode_media(ma) {
                Some(x) => x,
                None => {
                    return None;
                },
            };
            let polls = match decode_poll(po) {
                Some(x) => x,
                None => {
                    return None;
                },
            };
            Some(InstanceConfiguration { statuses, media_attachments, polls })
        },
        _ => None,
    }
}

/// Decode of a custom emoji.
pub open spec fn spec_decode_emoji(v: JsonG) -> Option<AccountEmojiG> {
    match v {
        JsonG::Obj(es) => match (
            g_str(es, "shortcode"@),
            g_str(es, "url"@),
            g_str(es, "static_url"@),
            g_bool(es, "visible_in_picker"@),
        ) {
            (Some(shortcode), Some(url), Some(static_url), Some(visible_in_picker)) => Some(
                AccountEmojiG {
                    shortcode: shortcode,
                    url: url,
                    static_url: static_url,
                    visible_in_picker: visible_in_picker,
                },
            ),
            _ => None,
        },
        _ => None,
    }
}

/// Exec twin of `spec_decode_emoji`.
pub fn decode_emoji(v: &Json) -> (r: Option<AccountEmoji>)
    ensures
        match r {
            Some(x) => spec_decode_emoji(jview(*v)) == Some(x@),
            None => spec_decode_emoji(jview(*v)) is None,
        },
{
    match v {
        Json::Obj(es) => {
            let shortcode = match get_str(es, "shortcode") {
                Some(x) => x,
                None => {
                    return None;
                },
            };
            let url = match get_str(es, "url") {
                Some(x) => x,
                None => {
                    return None;
                },
            };
            let static_url = match get_str(es, "static_url") {
                Some(x) => x,
                None => {
                    return None;
                },
            };
            let visible_in_picker = match get_bool(es, "visible_in_picker") {
                Some(x) => x,
                None => {
                    return None;
                },
            };
            Some(AccountEmoji { shortcode, url, static_url, visible_in_picker })
        },
        _ => None,
    }
}

/// Decode of a profile field. The `verified_at` member decodes to "absent"
/// when it is omitted (or `null`), and to the literal string when present.
pub open spec fn spec_decode_field(v: JsonG) -> Option<ContactFieldG> {
    match v {
        JsonG::Obj(es) => match (
            g_str(es, "name"@),
            g_str(es, "value"@),
            g_opt_str(es, "verified_at"@),
        ) {
            (Some(name), Some(value), Some(verified_at)) => Some(
                ContactFieldG { name: name, value: value, verified_at: verified_at },
            ),
            _ => None,
        },
        _ => None,
    }
}

/// Exec twin of `spec_decode_field`.
pub fn decode_field(v: &Json) -> (r: Option<ContactField>)
    ensures
        match r {
            Some(x) => spec_decode_field(jview(*v)) == Some(x@),
            None => spec_decode_field(jview(*v)) is None,
        },
{
    match v {
        Json::Obj(es) => {
            let name = match get_str(es, "name") {
                Some(x) => x,
                None => {
                    return None;
                },
            };
            let value = match get_str(es, "value") {
                Some(x) => x,
                None => {
                    return None;
                },
            };
            let verified_at = match get_opt_str(es, "verified_at") {
                Some(x) => x,
                None => {
                    return None;
                },
            };
            Some(ContactField { name, value, verified_at })
        },
        _ => None,
    }
}

/// Decode of an array of emojis.
pub open spec fn spec_decode_emojis(items: Seq<JsonG>) -> Option<Seq<AccountEmojiG>> {
    if forall|i: int| 0 <= i < items.len() ==> spec_decode_emoji(#[trigger] items[i]) is Some {
        Some(Seq::new(items.len(), |i: int| spec_decode_emoji(items[i])->0))
    } else {
        None
    }
}

/// Exec twin of `spec_decode_emojis`.
pub fn decode_emojis(items: &Vec<Json>) -> (r: Option<Vec<AccountEmoji>>)
    ensures
        match r {
            Some(xs) => spec_decode_emojis(items_view(*items)) == Some(seq_view(xs)),
            None => spec_decode_emojis(items_view(*items)) is None,
        },
{
    let mut out: Vec<AccountEmoji> = Vec::new();
    let mut i: usize = 0;
    while i < items.len()
        invariant
            i <= items.len(),
            out@.len() == i as int,
            forall|k: int|
                0 <= k < i ==> spec_decode_emoji(#[trigger] items_view(*items)[k]) == Some(
                    out@[k]@,
                ),
        decreases items.len() - i,
    {
        proof {
            assert(items_view(*items)[i as int] == jview(items@[i as int]));
        }
        match decode_emoji(&items[i]) {
            Some(x) => out.push(x),
            None => {
                return None;
            },
        }
        i += 1;
    }
    proof {
        assert(Seq::new(items_view(*items).len(), |k: int| spec_decode_emoji(items_view(*items)[k])->0)
            =~= seq_view(out));
    }
    Some(out)
}

/// Decode of an array of profile fields.
pub open spec fn spec_decode_fields(items: Seq<JsonG>) -> Option<Seq<ContactFieldG>> {
    if forall|i: int| 0 <= i < items.len() ==> spec_decode_field(#[trigger] items[i]) is Some {
        Some(Seq::new(items.len(), |i: int| spec_decode_field(items[i])->0))
    } else {
        None
    }
}

/// Exec twin of `spec_decode_fields`.
pub fn decode_fields(items: &Vec<Json>) -> (r: Option<Vec<ContactField>>)
    ensures
        match r {
            Some(xs) => spec_decode_fields(items_view(*items)) == Some(seq_view(xs)),
            None => spec_decode_fields(items_view(*items)) is None,
        },
{
    let mut out: Vec<ContactField> = Vec::new();
    let mut i: usize = 0;
    while i < items.len()
        invariant
            i <= items.len(),
            out@.len() == i as int,
            forall|k: int|
                0 <= k < i ==> spec_decode_field(#[trigger] items_view(*items)[k]) == Some(
                    out@[k]@,
                ),
        decreases items.len() - i,
    {
        proof {
            assert(items_view(*items)[i as int] == jview(items@[i as int]));
        }
        match decode_field(&items[i]) {
            Some(x) => out.push(x),
            None => {
                return None;
            },
        }
        i += 1;
    }
    proof {
        assert(Seq::new(items_view(*items).len(), |k: int| spec_decode_field(items_view(*items)[k])->0)
            =~= seq_view(out));
    }
    Some(out)
}

/// Decode of an array of rules.
pub open spec fn spec_decode_rules(items: Seq<JsonG>) -> Option<Seq<InstanceRuleG>> {
    if forall|i: int| 0 <= i < items.len() ==> spec_decode_rule(#[trigger] items[i]) is Some {
        Some(Seq::new(items.len(), |i: int| spec_decode_rule(items[i])->0))
    } else {
        None
    }
}

/// Exec twin of `spec_decode_rules`.
pub fn decode_rules(items: &Vec<Json>) -> (r: Option<Vec<InstanceRule>>)
    ensures
        match r {
            Some(xs) => spec_decode_rules(items_view(*items)) == Some(seq_view(xs)),
            None => spec_decode_rules(items_view(*items)) is None,
        },
{
    let mut out: Vec<InstanceRule> = Vec::new();
    let mut i: usize = 0;
    while i < items.len()
        invariant
            i <= items.len(),
            out@.len() == i as int,
            forall|k: int|
                0 <= k < i ==> spec_decode_rule(#[trigger] items_view(*items)[k]) == Some(
                    out@[k]@,
                ),
        decreases items.len() - i,
    {
        proof {
            assert(items_view(*items)[i as int] == jview(items@[i as int]));
        }
        match decode_rule(&items[i]) {
            Some(x) => out.push(x),
            None => {
                return None;
            },
        }
        i += 1;
    }
    proof {
        assert(Seq::new(items_view(*items).len(), |k: int| spec_decode_rule(items_view(*items)[k])->0)
            =~= seq_view(out));
    }
    Some(out)
}

/// Decode of the contact account profile.
pub open spec fn spec_decode_account(v: JsonG) -> Option<ContactAccountInfoG> {
    match v {
        JsonG::Obj(es) => match (
            g_str(es, "id"@),
            g_str(es, "username"@),
            g_str(es, "acct"@),
            g_str(es, "display_name"@),
            g_bool(es, "locked"@),
            g_bool(es, "bot"@),
            g_bool(es, "discoverable"@),
            g_bool(es, "group"@),
            g_str(es, "created_at"@),
            g_str(es, "note"@),
            g_str(es, "url"@),
            g_str(es, "avatar"@),
            g_str(es, "avatar_static"@),
            g_str(es, "header"@),
            g_str(es, "header_static"@),
            g_int(es, "followers_count"@),
            g_int(es, "following_count"@),
            g_int(es, "statuses_count"@),
            g_str(es, "last_status_at"@),
            g_arr(es, "emojis"@),
            g_arr(es, "fields"@),
        ) {
            (Some(id), Some(username), Some(acct), Some(display_name), Some(locked), Some(bot),
                Some(discoverable), Some(group), Some(created_at), Some(note), Some(url), Some(
                avatar,
            ), Some(avatar_static), Some(header), Some(header_static), Some(followers_count), Some(
                following_count,
            ), Some(statuses_count), Some(last_status_at), Some(emojis_j), Some(fields_j)) => match (
                spec_decode_emojis(emojis_j),
                spec_decode_fields(fields_j),
            ) {
                (Some(emojis), Some(fields)) => Some(
                    ContactAccountInfoG {
                        id: id,
                        username: username,
                        acct: acct,
                        display_name: display_name,
                        locked: locked,
                        bot: bot,
                        discoverable: discoverable,
                        group: group,
                        created_at: created_at,
                        note: note,
                        url: url,
                        avatar: avatar,
                        avatar_static: avatar_static,
                        header: header,
                        header_static: header_static,
                        followers_count: followers_count,
                        following_count: following_count,
                        statuses_count: statuses_count,
                        last_status_at: last_status_at,
                        emojis: emojis,
                        fields: fields,
                    },
                ),
                _ => None,
            },
            _ => None,
        },
        _ => None,
    }
}

/// Exec twin of `spec_decode_account`.
pub fn decode_account(v: &Json) -> (r: Option<ContactAccountInfo>)
    ensures
        match r {
            Some(x) => spec_decode_account(jview(*v)) == Some(x@),
            None => spec_decode_account(jview(*v)) is None,
        },
{
    match v {
        Json::Obj(es) => {
            let id = match get_str(es, "id") {
                Some(x) => x,
                None => {
                    return None;
                },
            };
            let username = match get_str(es, "username") {
                Some(x) => x,
                None => {
                    return None;
                },
            };
            let acct = match get_str(es, "acct") {
                Some(x) => x,
                None => {
                    return None;
                },
            };
            let display_name = match get_str(es, "display_name") {
                Some(x) => x,
                None => {
                    return None;
                },
            };
            let locked = match get_bool(es, "locked") {
                Some(x) => x,
                None => {
                    return None;
                },
            };
            let bot = match get_bool(es, "bot") {
                Some(x) => x,
                None => {
                    return None;
                },
            };
            let discoverable = match get_bool(es, "discoverable") {
                Some(x) => x,
                None => {
                    return None;
                },
            };
            let group = match get_bool(es, "group") {
                Some(x) => x,
                None => {
                    return None;
                },
            };
            let created_at = match get_str(es, "created_at") {
                Some(x) => x,
                None => {
                    return None;
                },
            };
            let note = match get_str(es, "note") {
                Some(x) => x,
                None => {
                    return None;
                },
            };
            let url = match get_str(es, "url") {
                Some(x) => x,
                None => {
                    return None;
                },
            };
            let avatar = match get_str(es, "avatar") {
                Some(x) => x,
                None => {
                    return None;
                },
            };
            let avatar_static = match get_str(es, "avatar_static") {
                Some(x) => x,
                None => {
                    return None;
                },
            };
            let header = match get_str(es, "header") {
                Some(x) => x,
                None => {
                    return None;
                },
            };
            let header_static = match get_str(es, "header_static") {
                Some(x) => x,
                None => {
                    return None;
                },
            };
            let followers_count = match get_int(es, "followers_count") {
                Some(x) => x,
                None => {
                    return None;
                },
            };
            let following_count = match get_int(es, "following_count") {
                Some(x) => x,
                None => {
                    return None;
                },
            };
            let statuses_count = match get_int(es, "statuses_count") {
                Some(x) => x,
                None => {
                    return None;
                },
            };
            let last_status_at = match get_str(es, "last_status_at") {
                Some(x) => x,
                None => {
                    return None;
                },
            };
            let emojis_j = match get_arr(es, "emojis") {
                Some(x) => x,
                None => {
                    return None;
                },
            };
            let fields_j = match get_arr(es, "fields") {
                Some(x) => x,
                None => {
                    return None;
                },
            };
            let emojis = match decode_emojis(emojis_j) {
                Some(x) => x,
                None => {
                    return None;
                },
            };
            let fields = match decode_fields(fields_j) {
                Some(x) => x,
                None => {
                    return None;
                },
            };
            Some(
                ContactAccountInfo {
                    id,
                    username,
                    acct,
                    display_name,
                    locked,
                    bot,
                    discoverable,
                    group,
                    created_at,
                    note,
                    url,
                    avatar,
                    avatar_static,
                    header,
                    header_static,
                    followers_count,
                    following_count,
                    statuses_count,
                    last_status_at,
                    emojis,
                    fields,
                },
            )
        },
        _ => None,
    }
}

/// Decode of the whole metadata document.
pub open spec fn spec_decode_instance(v: JsonG) -> Option<InstanceResponseG> {
    match v {
        JsonG::Obj(es) => match (
            g_str(es, "uri"@),
            g_str(es, "title"@),
            g_str(es, "short_description"@),
            g_str(es, "description"@),
            g_str(es, "email"@),
            g_str(es, "version"@),
            g_str(es, "thumbnail"@),
            g_arr(es, "languages"@),
            g_bool(es, "registrations"@),
            g_bool(es, "approval_required"@),
            g_bool(es, "invites_enabled"@),
            g_lookup(es, "urls"@),
            g_lookup(es, "stats"@),
            g_lookup(es, "configuration"@),
            g_lookup(es, "contact_account"@),
            g_arr(es, "rules"@),
        ) {
            (Some(uri), Some(title), Some(short_description), Some(description), Some(email), Some(
                version,
            ), Some(thumbnail), Some(langs_j), Some(registrations), Some(approval_required), Some(
                invites_enabled,
            ), Some(urls_j), Some(stats_j), Some(config_j), Some(account_j), Some(rules_j)) => match (
                spec_decode_strings(langs_j),
                spec_decode_urls(urls_j),
                spec_decode_stats(stats_j),
                spec_decode_config(config_j),
                spec_decode_account(account_j),
                spec_decode_rules(rules_j),
            ) {
                (Some(languages), Some(urls), Some(stats), Some(configuration), Some(
                    contact_account,
                ), Some(rules)) => Some(
                    InstanceResponseG {
                        uri: uri,
                        title: title,
                        short_description: short_description,
                        description: description,
                        email: email,
                        version: version,
                        urls: urls,
                        stats: stats,
                        thumbnail: thumbnail,
                        languages: languages,
                        registrations: registrations,
                        approval_required: approval_required,
                        invites_enabled: invites_enabled,
                        configuration: configuration,
                        contact_account: contact_account,
                        rules: rules,
                    },
                ),
                _ => None,
            },
            _ => None,
        },
        _ => None,
    }
}

/// Exec twin of `spec_decode_instance`.
pub fn decode_instance(v: &Json) -> (r: Option<InstanceResponse>)
    ensures
        match r {
            Some(x) => spec_decode_instance(jview(*v)) == Some(x@),
            None => spec_decode_instance(jview(*v)) is None,
        },
{
    match v {
        Json::Obj(es) => {
            let uri = match get_str(es, "uri") {
                Some(x) => x,
                None => {
                    return None;
                },
            };
            let title = match get_str(es, "title") {
                Some(x) => x,
                None => {
                    return None;
                },
            };
            let short_description = match get_str(es, "short_description") {
                Some(x) => x,
                None => {
                    return None;
                },
            };
            let description = match get_str(es, "description") {
                Some(x) => x,
                None => {
                    return None;
                },
            };
            let email = match get_str(es, "email") {
                Some(x) => x,
                None => {
                    return None;
                },
            };
            let version = match get_str(es, "version") {
                Some(x) => x,
                None => {
                    return None;
                },
            };
            let thumbnail = match get_str(es, "thumbnail") {
                Some(x) => x,
                None => {
                    return None;
                },
            };
            let langs_j = match get_arr(es, "languages") {
                Some(x) => x,
                None => {
                    return None;
                },
            };
            let registrations = match get_bool(es, "registrations") {
                Some(x) => x,
                None => {
                    return None;
                },
            };
            let approval_required = match get_bool(es, "approval_required") {
                Some(x) => x,
                None => {
                    return None;
                },
            };
            let invites_enabled = match get_bool(es, "invites_enabled") {
                Some(x) => x,
                None => {
                    return None;
                },
            };
            let urls_j = match obj_get(es, "urls") {
                Some(x) => x,
                None => {
                    return None;
                },
            };
            let stats_j = match obj_get(es, "stats") {
                Some(x) => x,
                None => {
                    return None;
                },
            };
            let config_j = match obj_get(es, "configuration") {
                Some(x) => x,
                None => {
                    return None;
                },
            };
            let account_j = match obj_get(es, "contact_account") {
                Some(x) => x,
                None => {
                    return None;
                },
            };
            let rules_j = match get_arr(es, "rules") {
                Some(x) => x,
                None => {
                    return None;
                },
            };
            let languages = match decode_strings(langs_j) {
                Some(x) => x,
                None => {
                    return None;
                },
            };
            let urls = match decode_urls(urls_j) {
                Some(x) => x,
                None => {
                    return None;
                },
            };
            let stats = match decode_stats(stats_j) {
                Some(x) => x,
                None => {
                    return None;
                },
            };
            let configuration = match decode_config(config_j) {
                Some(x) => x,
                None => {
                    return None;
                },
            };
            let contact_account = match decode_account(account_j) {
                Some(x) => x,
                None => {
                    return None;
                },
            };
            let rules = match decode_rules(rules_j) {
                Some(x) => x,
                None => {
                    return None;
                },
            };
            Some(
                InstanceResponse {
                    uri,
                    title,
                    short_description,
                    description,
                    email,
                    version,
                    urls,
                    stats,
                    thumbnail,
                    languages,
                    registrations,
                    approval_required,
                    invites_enabled,
                    configuration,
                    contact_account,
                    rules,
                },
            )
        },
        _ => None,
    }
}

/// Why a response body was rejected: not JSON at all, or JSON that does
/// not match the schema. Every failure of `decode_instance_text` is one of
/// the two; nothing finer is kept.
#[derive(Debug, Clone, Copy, PartialEq, Eq)]
pub enum FetchError {
    MalformedJson,
    SchemaMismatch,
}

/// Decode a response body against the schema: parse the characters as JSON,
/// then decode the tree. Succeeds exactly on bodies that are well-formed
/// JSON matching the schema, and then returns exactly the record the body
/// describes.
pub fn decode_instance_text(body: &[char]) -> (r: Result<InstanceResponse, FetchError>)
    ensures
        match r {
            Ok(x) => (crate::json::spec_json_text(body@) matches Some(v) && spec_decode_instance(v)
                == Some(x@)),
            Err(FetchError::MalformedJson) => crate::json::spec_json_text(body@) is None,
            Err(FetchError::SchemaMismatch) => (crate::json::spec_json_text(body@) matches Some(v)
                && spec_decode_instance(v) is None),
        },
{
    match crate::json::parse_json(body) {
        None => Err(FetchError::MalformedJson),
        Some(v) => match decode_instance(&v) {
            None => Err(FetchError::SchemaMismatch),
            Some(x) => Ok(x),
        },
    }
}

/// The canonical document of an array of strings.
pub open spec fn spec_encode_strings(ss: Seq<Seq<char>>) -> Seq<JsonG> {
    Seq::new(ss.len(), |i: int| JsonG::Str(ss[i]))
}

/// The canonical document of a rule.
pub open spec fn spec_encode_rule(x: InstanceRuleG) -> JsonG {
    JsonG::Obj(seq![("id"@, JsonG::Str(x.id)), ("text"@, JsonG::Str(x.text))])
}

/// The canonical document of the endpoint addresses.
pub open spec fn spec_encode_urls(x: InstanceUrlsG) -> JsonG {
    JsonG::Obj(seq![("streaming_api"@, JsonG::Str(x.streaming_api))])
}

/// The canonical document of the counters.
pub open spec fn spec_encode_stats(x: InstanceStatsG) -> JsonG {
    JsonG::Obj(
        seq![
            ("user_count"@, JsonG::Int(x.user_count)),
            ("status_count"@, JsonG::Int(x.status_count)),
            ("domain_count"@, JsonG::Int(x.domain_count)),
        ],
    )
}

/// The canonical document of the post limits.
pub open spec fn spec_encode_status(x: InstanceStatusG) -> JsonG {
    JsonG::Obj(
        seq![
            ("max_characters"@, JsonG::Int(x.max_characters)),
            ("max_media_attachments"@, JsonG::Int(x.max_media_attachments)),
            ("characters_reserved_per_url"@, JsonG::Int(x.characters_reserved_per_url)),
        ],
    )
}

/// The canonical document of the poll limits.
pub open spec fn spec_encode_poll(x: PollConfigG) -> JsonG {
    JsonG::Obj(
        seq![
            ("max_options"@, JsonG::Int(x.max_options)),
            ("max_characters_per_option"@, JsonG::Int(x.max_characters_per_option)),
            ("min_expiration"@, JsonG::Int(x.min_expiration)),
            ("max_expiration"@, JsonG::Int(x.max_expiration)),
        ],
    )
}

/// The canonical document of the media constraints.
pub open spec fn spec_encode_media(x: MediaAttachmentConfigG) -> JsonG {
    JsonG::Obj(
        seq![
            ("supported_mime_types"@, JsonG::Arr(spec_encode_strings(x.supported_mime_types))),
            ("image_size_limit"@, JsonG::Int(x.image_size_limit)),
            ("image_matrix_limit"@, JsonG::Int(x.image_matrix_limit)),
            ("video_size_limit"@, JsonG::Int(x.video_size_limit)),
            ("video_frame_rate_limit"@, JsonG::Int(x.video_frame_rate_limit)),
            ("video_matrix_limit"@, JsonG::Int(x.video_matrix_limit)),
        ],
    )
}

/// The canonical document of the configuration group.
pub open spec fn spec_encode_config(x: InstanceConfigurationG) -> JsonG {
    JsonG::Obj(
        seq![
            ("statuses"@, spec_encode_status(x.statuses)),
            ("media_attachments"@, spec_encode_media(x.media_attachments)),
            ("polls"@, spec_encode_poll(x.polls)),
        ],
    )
}

/// The canonical document of a custom emoji.
pub open spec fn spec_encode_emoji(x: AccountEmojiG) -> JsonG {
    JsonG::Obj(
        seq![
            ("shortcode"@, JsonG::Str(x.shortcode)),
            ("url"@, JsonG::Str(x.url)),
            ("static_url"@, JsonG::Str(x.static_url)),
            ("visible_in_picker"@, JsonG::Bool(x.visible_in_picker)),
        ],
    )
}

/// The canonical document of a profile field: an absent `verified_at` is
/// written as `null`.
pub open spec fn spec_encode_field(x: ContactFieldG) -> JsonG {
    JsonG::Obj(
        seq![
            ("name"@, JsonG::Str(x.name)),
            ("value"@, JsonG::Str(x.value)),
            (
                "verified_at"@,
                match x.verified_at {
                    None => JsonG::Null,
                    Some(t) => JsonG::Str(t),
                },
            ),
        ],
    )
}

/// The canonical document of the contact account profile.
pub open spec fn spec_encode_account(x: ContactAccountInfoG) -> JsonG {
    JsonG::Obj(
        seq![
            ("id"@, JsonG::Str(x.id)),
            ("username"@, JsonG::Str(x.username)),
            ("acct"@, JsonG::Str(x.acct)),
            ("display_name"@, JsonG::Str(x.display_name)),
            ("locked"@, JsonG::Bool(x.locked)),
            ("bot"@, JsonG::Bool(x.bot)),
            ("discoverable"@, JsonG::Bool(x.discoverable)),
            ("group"@, JsonG::Bool(x.group)),
            ("created_at"@, JsonG::Str(x.created_at)),
            ("note"@, JsonG::Str(x.note)),
            ("url"@, JsonG::Str(x.url)),
            ("avatar"@, JsonG::Str(x.avatar)),
            ("avatar_static"@, JsonG::Str(x.avatar_static)),
            ("header"@, JsonG::Str(x.header)),
            ("header_static"@, JsonG::Str(x.header_static)),
            ("followers_count"@, JsonG::Int(x.followers_count)),
            ("following_count"@, JsonG::Int(x.following_count)),
            ("statuses_count"@, JsonG::Int(x.statuses_count)),
            ("last_status_at"@, JsonG::Str(x.last_status_at)),
            ("emojis"@, JsonG::Arr(Seq::new(x.emojis.len(), |i: int| spec_encode_emoji(x.emojis[i])))),
            ("fields"@, JsonG::Arr(Seq::new(x.fields.len(), |i: int| spec_encode_field(x.fields[i])))),
        ],
    )
}

/// The canonical document of the whole record.
pub open spec fn spec_encode_instance(x: InstanceResponseG) -> JsonG {
    JsonG::Obj(
        seq![
            ("uri"@, JsonG::Str(x.uri)),
            ("title"@, JsonG::Str(x.title)),
            ("short_description"@, JsonG::Str(x.short_description)),
            ("description"@, JsonG::Str(x.description)),
            ("email"@, JsonG::Str(x.email)),
            ("version"@, JsonG::Str(x.version)),
            ("urls"@, spec_encode_urls(x.urls)),
            ("stats"@, spec_encode_stats(x.stats)),
            ("thumbnail"@, JsonG::Str(x.thumbnail)),
            ("languages"@, JsonG::Arr(spec_encode_strings(x.languages))),
            ("registrations"@, JsonG::Bool(x.registrations)),
            ("approval_required"@, JsonG::Bool(x.approval_required)),
            ("invites_enabled"@, JsonG::Bool(x.invites_enabled)),
            ("configuration"@, spec_encode_config(x.configuration)),
            ("contact_account"@, spec_encode_account(x.contact_account)),
            ("rules"@, JsonG::Arr(Seq::new(x.rules.len(), |i: int| spec_encode_rule(x.rules[i])))),
        ],
    )
}

/// Decoding an encoded array of strings gives the strings back.
pub proof fn lemma_strings_roundtrip(ss: Seq<Seq<char>>)
    ensures
        spec_decode_strings(spec_encode_strings(ss)) == Some(ss),
{
    let enc = spec_encode_strings(ss);
    assert(forall|i: int| 0 <= i < enc.len() ==> (#[trigger] enc[i]) matches JsonG::Str(_));
    assert(Seq::new(enc.len(), |i: int| enc[i]->Str_0) =~= ss);
}

/// Decoding an encoded rule gives the rule back: the decoder keeps every
/// declared field value exactly.
pub proof fn lemma_rule_roundtrip(x: InstanceRuleG)
    ensures
        spec_decode_rule(spec_encode_rule(x)) == Some(x),
{
    reveal_strlit("id");
    reveal_strlit("text");
    let es = spec_encode_rule(x)->Obj_0;
    assert(es.len() == 2);
    assert(es[0].0 == "id"@);
    assert(es[1].0 == "text"@);
    lemma_lookup_at(es, "id"@, 0);
    lemma_lookup_at(es, "text"@, 1);
}

/// Decoding the encoded endpoint addresses gives them back.
pub proof fn lemma_urls_roundtrip(x: InstanceUrlsG)
    ensures
        spec_decode_urls(spec_encode_urls(x)) == Some(x),
{
    let es = spec_encode_urls(x)->Obj_0;
    assert(es.len() == 1);
    assert(es[0].0 == "streaming_api"@);
    lemma_lookup_at(es, "streaming_api"@, 0);
}

/// Decoding the encoded counters gives them back.
pub proof fn lemma_stats_roundtrip(x: InstanceStatsG)
    ensures
        spec_decode_stats(spec_encode_stats(x)) == Some(x),
{
    reveal_strlit("user_count");
    reveal_strlit("status_count");
    reveal_strlit("domain_count");
    let es = spec_encode_stats(x)->Obj_0;
    assert("user_count"@.len() == 10);
    assert("status_count"@.len() == 12);
    assert("domain_count"@.len() == 12);
    assert("status_count"@[0] == 's');
    assert("domain_count"@[0] == 'd');
    assert(es.len() == 3);
    assert(es[0].0 == "user_count"@);
    assert(es[1].0 == "status_count"@);
    assert(es[2].0 == "domain_count"@);
    lemma_lookup_at(es, "user_count"@, 0);
    lemma_lookup_at(es, "status_count"@, 1);
    lemma_lookup_at(es, "domain_count"@, 2);
}

/// Decoding the encoded post limits gives them back.
pub proof fn lemma_status_roundtrip(x: InstanceStatusG)
    ensures
        spec_decode_status(spec_encode_status(x)) == Some(x),
{
    reveal_strlit("max_characters");
    reveal_strlit("max_media_attachments");
    reveal_strlit("characters_reserved_per_url");
    let es = spec_encode_status(x)->Obj_0;
    assert(es.len() == 3);
    assert(es[0].0 == "max_characters"@);
    assert(es[1].0 == "max_media_attachments"@);
    assert(es[2].0 == "characters_reserved_per_url"@);
    lemma_lookup_at(es, "max_characters"@, 0);
    lemma_lookup_at(es, "max_media_attachments"@, 1);
    lemma_lookup_at(es, "characters_reserved_per_url"@, 2);
}

/// Decoding the encoded poll limits gives them back.
pub proof fn lemma_poll_roundtrip(x: PollConfigG)
    ensures
        spec_decode_poll(spec_encode_poll(x)) == Some(x),
{
    reveal_strlit("max_options");
    reveal_strlit("max_characters_per_option");
    reveal_strlit("min_expiration");
    reveal_strlit("max_expiration");
    let es = spec_encode_poll(x)->Obj_0;
    assert("max_options"@.len() == 11);
    assert("max_characters_per_option"@.len() == 25);
    assert("min_expiration"@.len() == 14);
    assert("max_expiration"@.len() == 14);
    assert("min_expiration"@[1] == 'i');
    assert("max_expiration"@[1] == 'a');
    assert(es.len() == 4);
    assert(es[0].0 == "max_options"@);
    assert(es[1].0 == "max_characters_per_option"@);
    assert(es[2].0 == "min_expiration"@);
    assert(es[3].0 == "max_expiration"@);
    lemma_lookup_at(es, "max_options"@, 0);
    lemma_lookup_at(es, "max_characters_per_option"@, 1);
    lemma_lookup_at(es, "min_expiration"@, 2);
    lemma_lookup_at(es, "max_expiration"@, 3);
}

/// Decoding the encoded media constraints gives them back.
pub proof fn lemma_media_roundtrip(x: MediaAttachmentConfigG)
    ensures
        spec_decode_media(spec_encode_media(x)) == Some(x),
{
    reveal_strlit("supported_mime_types");
    reveal_strlit("image_size_limit");
    reveal_strlit("image_matrix_limit");
    reveal_strlit("video_size_limit");
    reveal_strlit("video_frame_rate_limit");
    reveal_strlit("video_matrix_limit");
    let es = spec_encode_media(x)->Obj_0;
    assert("supported_mime_types"@.len() == 20);
    assert("image_size_limit"@.len() == 16);
    assert("image_matrix_limit"@.len() == 18);
    assert("video_size_limit"@.len() == 16);
    assert("video_frame_rate_limit"@.len() == 22);
    assert("video_matrix_limit"@.len() == 18);
    assert("image_size_limit"@[0] == 'i');
    assert("video_size_limit"@[0] == 'v');
    assert("image_matrix_limit"@[0] == 'i');
    assert("video_matrix_limit"@[0] == 'v');
    assert(es.len() == 6);
    assert(es[0].0 == "supported_mime_types"@);
    assert(es[1].0 == "image_size_limit"@);
    assert(es[2].0 == "image_matrix_limit"@);
    assert(es[3].0 == "video_size_limit"@);
    assert(es[4].0 == "video_frame_rate_limit"@);
    assert(es[5].0 == "video_matrix_limit"@);
    lemma_lookup_at(es, "supported_mime_types"@, 0);
    lemma_lookup_at(es, "image_size_limit"@, 1);
    lemma_lookup_at(es, "image_matrix_limit"@, 2);
    lemma_lookup_at(es, "video_size_limit"@, 3);
    lemma_lookup_at(es, "video_frame_rate_limit"@, 4);
    lemma_lookup_at(es, "video_matrix_limit"@, 5);
    lemma_strings_roundtrip(x.supported_mime_types);
}

/// Decoding the encoded configuration group gives it back.
pub proof fn lemma_config_roundtrip(x: InstanceConfigurationG)
    ensures
        spec_decode_config(spec_encode_config(x)) == Some(x),
{
    reveal_strlit("statuses");
    reveal_strlit("media_attachments");
    reveal_strlit("polls");
    let es = spec_encode_config(x)->Obj_0;
    assert(es.len() == 3);
    assert(es[0].0 == "statuses"@);
    assert(es[1].0 == "media_attachments"@);
    assert(es[2].0 == "polls"@);
    lemma_lookup_at(es, "statuses"@, 0);
    lemma_lookup_at(es, "media_attachments"@, 1);
    lemma_lookup_at(es, "polls"@, 2);
    lemma_status_roundtrip(x.statuses);
    lemma_media_roundtrip(x.media_attachments);
    lemma_poll_roundtrip(x.polls);
}

/// Decoding an encoded emoji gives it back.
pub proof fn lemma_emoji_roundtrip(x: AccountEmojiG)
    ensures
        spec_decode_emoji(spec_encode_emoji(x)) == Some(x),
{
    reveal_strlit("shortcode");
    reveal_strlit("url");
    reveal_strlit("static_url");
    reveal_strlit("visible_in_picker");
    let es = spec_encode_emoji(x)->Obj_0;
    assert(es.len() == 4);
    assert(es[0].0 == "shortcode"@);
    assert(es[1].0 == "url"@);
    assert(es[2].0 == "static_url"@);
    assert(es[3].0 == "visible_in_picker"@);
    lemma_lookup_at(es, "shortcode"@, 0);
    lemma_lookup_at(es, "url"@, 1);
    lemma_lookup_at(es, "static_url"@, 2);
    lemma_lookup_at(es, "visible_in_picker"@, 3);
}

/// The verification timestamp of a profile field is optional: a member that
/// is omitted (or `null`) decodes to "absent", and a string member decodes
/// to exactly its text.
pub proof fn lemma_verified_at_optional(es: Seq<(Seq<char>, JsonG)>)
    ensures
        g_lookup(es, "verified_at"@) is None ==> g_opt_str(es, "verified_at"@) == Some(
            None::<Seq<char>>,
        ),
        g_lookup(es, "verified_at"@) == Some(JsonG::Null) ==> g_opt_str(es, "verified_at"@)
            == Some(None::<Seq<char>>),
        forall|t: Seq<char>|
            g_lookup(es, "verified_at"@) == Some(JsonG::Str(t)) ==> g_opt_str(es, "verified_at"@)
                == Some(Some(t)),
{
}

/// Decoding an encoded profile field gives it back: in particular an absent
/// verification timestamp stays absent, and a present one keeps its text.
pub proof fn lemma_field_roundtrip(x: ContactFieldG)
    ensures
        spec_decode_field(spec_encode_field(x)) == Some(x),
{
    reveal_strlit("name");
    reveal_strlit("value");
    reveal_strlit("verified_at");
    let es = spec_encode_field(x)->Obj_0;
    assert(es.len() == 3);
    assert(es[0].0 == "name"@);
    assert(es[1].0 == "value"@);
    assert(es[2].0 == "verified_at"@);
    lemma_lookup_at(es, "name"@, 0);
    lemma_lookup_at(es, "value"@, 1);
    lemma_lookup_at(es, "verified_at"@, 2);
}

/// Decoding the encoded contact account gives it back.
pub proof fn lemma_account_roundtrip(x: ContactAccountInfoG)
    ensures
        spec_decode_account(spec_encode_account(x)) == Some(x),
{
    reveal_strlit("id");
    reveal_strlit("username");
    reveal_strlit("acct");
    reveal_strlit("display_name");
    reveal_strlit("locked");
    reveal_strlit("bot");
    reveal_strlit("discoverable");
    reveal_strlit("group");
    reveal_strlit("created_at");
    reveal_strlit("note");
    reveal_strlit("url");
    reveal_strlit("avatar");
    reveal_strlit("avatar_static");
    reveal_strlit("header");
    reveal_strlit("header_static");
    reveal_strlit("followers_count");
    reveal_strlit("following_count");
    reveal_strlit("statuses_count");
    reveal_strlit("last_status_at");
    reveal_strlit("emojis");
    reveal_strlit("fields");
    let es = spec_encode_account(x)->Obj_0;
    assert("id"@.len() == 2);
    assert("username"@.len() == 8);
    assert("acct"@.len() == 4);
    assert("display_name"@.len() == 12);
    assert("locked"@.len() == 6);
    assert("bot"@.len() == 3);
    assert("discoverable"@.len() == 12);
    assert("group"@.len() == 5);
    assert("created_at"@.len() == 10);
    assert("note"@.len() == 4);
    assert("url"@.len() == 3);
    assert("avatar"@.len() == 6);
    assert("avatar_static"@.len() == 13);
    assert("header"@.len() == 6);
    assert("header_static"@.len() == 13);
    assert("followers_count"@.len() == 15);
    assert("following_count"@.len() == 15);
    assert("statuses_count"@.len() == 14);
    assert("last_status_at"@.len() == 14);
    assert("emojis"@.len() == 6);
    assert("fields"@.len() == 6);
    assert("acct"@[0] == 'a');
    assert("note"@[0] == 'n');
    assert("bot"@[0] == 'b');
    assert("url"@[0] == 'u');
    assert("display_name"@[3] == 'p');
    assert("discoverable"@[3] == 'c');
    assert("locked"@[0] == 'l');
    assert("avatar"@[0] == 'a');
    assert("header"@[0] == 'h');
    assert("emojis"@[0] == 'e');
    assert("fields"@[0] == 'f');
    assert("avatar_static"@[0] == 'a');
    assert("header_static"@[0] == 'h');
    assert("followers_count"@[6] == 'e');
    assert("following_count"@[6] == 'i');
    assert("statuses_count"@[0] == 's');
    assert("last_status_at"@[0] == 'l');
    assert(es.len() == 21);
    assert(es[0].0 == "id"@);
    assert(es[1].0 == "username"@);
    assert(es[2].0 == "acct"@);
    assert(es[3].0 == "display_name"@);
    assert(es[4].0 == "locked"@);
    assert(es[5].0 == "bot"@);
    assert(es[6].0 == "discoverable"@);
    assert(es[7].0 == "group"@);
    assert(es[8].0 == "created_at"@);
    assert(es[9].0 == "note"@);
    assert(es[10].0 == "url"@);
    assert(es[11].0 == "avatar"@);
    assert(es[12].0 == "avatar_static"@);
    assert(es[13].0 == "header"@);
    assert(es[14].0 == "header_static"@);
    assert(es[15].0 == "followers_count"@);
    assert(es[16].0 == "following_count"@);
    assert(es[17].0 == "statuses_count"@);
    assert(es[18].0 == "last_status_at"@);
    assert(es[19].0 == "emojis"@);
    assert(es[20].0 == "fields"@);
    lemma_lookup_at(es, "id"@, 0);
    lemma_lookup_at(es, "username"@, 1);
    lemma_lookup_at(es, "acct"@, 2);
    lemma_lookup_at(es, "display_name"@, 3);
    lemma_lookup_at(es, "locked"@, 4);
    lemma_lookup_at(es, "bot"@, 5);
    lemma_lookup_at(es, "discoverable"@, 6);
    lemma_lookup_at(es, "group"@, 7);
    lemma_lookup_at(es, "created_at"@, 8);
    lemma_lookup_at(es, "note"@, 9);
    lemma_lookup_at(es, "url"@, 10);
    lemma_lookup_at(es, "avatar"@, 11);
    lemma_lookup_at(es, "avatar_static"@, 12);
    lemma_lookup_at(es, "header"@, 13);
    lemma_lookup_at(es, "header_static"@, 14);
    lemma_lookup_at(es, "followers_count"@, 15);
    lemma_lookup_at(es, "following_count"@, 16);
    lemma_lookup_at(es, "statuses_count"@, 17);
    lemma_lookup_at(es, "last_status_at"@, 18);
    lemma_lookup_at(es, "emojis"@, 19);
    lemma_lookup_at(es, "fields"@, 20);
    let enc_emojis = Seq::new(x.emojis.len(), |i: int| spec_encode_emoji(x.emojis[i]));
    assert forall|i: int| 0 <= i < enc_emojis.len() implies spec_decode_emoji(
        #[trigger] enc_emojis[i],
    ) is Some by {
        lemma_emoji_roundtrip(x.emojis[i]);
    }
    assert(Seq::new(enc_emojis.len(), |i: int| spec_decode_emoji(enc_emojis[i])->0) =~= x.emojis)
        by {
        assert forall|i: int| 0 <= i < enc_emojis.len() implies spec_decode_emoji(
            enc_emojis[i],
        )->0 == x.emojis[i] by {
            lemma_emoji_roundtrip(x.emojis[i]);
        }
    }
    let enc_fields = Seq::new(x.fields.len(), |i: int| spec_encode_field(x.fields[i]));
    assert forall|i: int| 0 <= i < enc_fields.len() implies spec_decode_field(
        #[trigger] enc_fields[i],
    ) is Some by {
        lemma_field_roundtrip(x.fields[i]);
    }
    assert(Seq::new(enc_fields.len(), |i: int| spec_decode_field(enc_fields[i])->0) =~= x.fields)
        by {
        assert forall|i: int| 0 <= i < enc_fields.len() implies spec_decode_field(
            enc_fields[i],
        )->0 == x.fields[i] by {
            lemma_field_roundtrip(x.fields[i]);
        }
    }
}

/// Round-trip fidelity: a document that encodes a record decodes back to
/// exactly that record, field for field. Together with the decoders'
/// contracts this pins the decoder on every document in the schema's image.
pub proof fn lemma_decode_encode_instance(x: InstanceResponseG)
    ensures
        spec_decode_instance(spec_encode_instance(x)) == Some(x),
{
    reveal_strlit("uri");
    reveal_strlit("title");
    reveal_strlit("short_description");
    reveal_strlit("description");
    reveal_strlit("email");
    reveal_strlit("version");
    reveal_strlit("urls");
    reveal_strlit("stats");
    reveal_strlit("thumbnail");
    reveal_strlit("languages");
    reveal_strlit("registrations");
    reveal_strlit("approval_required");
    reveal_strlit("invites_enabled");
    reveal_strlit("configuration");
    reveal_strlit("contact_account");
    reveal_strlit("rules");
    let es = spec_encode_instance(x)->Obj_0;
    assert("uri"@.len() == 3);
    assert("title"@.len() == 5);
    assert("short_description"@.len() == 17);
    assert("description"@.len() == 11);
    assert("email"@.len() == 5);
    assert("version"@.len() == 7);
    assert("urls"@.len() == 4);
    assert("stats"@.len() == 5);
    assert("thumbnail"@.len() == 9);
    assert("languages"@.len() == 9);
    assert("registrations"@.len() == 13);
    assert("approval_required"@.len() == 17);
    assert("invites_enabled"@.len() == 15);
    assert("configuration"@.len() == 13);
    assert("contact_account"@.len() == 15);
    assert("rules"@.len() == 5);
    assert("title"@[0] == 't');
    assert("email"@[0] == 'e');
    assert("stats"@[0] == 's');
    assert("rules"@[0] == 'r');
    assert("short_description"@[0] == 's');
    assert("approval_required"@[0] == 'a');
    assert("thumbnail"@[0] == 't');
    assert("languages"@[0] == 'l');
    assert("registrations"@[0] == 'r');
    assert("configuration"@[0] == 'c');
    assert("invites_enabled"@[0] == 'i');
    assert("contact_account"@[0] == 'c');
    assert(es.len() == 16);
    assert(es[0].0 == "uri"@);
    assert(es[1].0 == "title"@);
    assert(es[2].0 == "short_description"@);
    assert(es[3].0 == "description"@);
    assert(es[4].0 == "email"@);
    assert(es[5].0 == "version"@);
    assert(es[6].0 == "urls"@);
    assert(es[7].0 == "stats"@);
    assert(es[8].0 == "thumbnail"@);
    assert(es[9].0 == "languages"@);
    assert(es[10].0 == "registrations"@);
    assert(es[11].0 == "approval_required"@);
    assert(es[12].0 == "invites_enabled"@);
    assert(es[13].0 == "configuration"@);
    assert(es[14].0 == "contact_account"@);
    assert(es[15].0 == "rules"@);
    lemma_lookup_at(es, "uri"@, 0);
    lemma_lookup_at(es, "title"@, 1);
    lemma_lookup_at(es, "short_description"@, 2);
    lemma_lookup_at(es, "description"@, 3);
    lemma_lookup_at(es, "email"@, 4);
    lemma_lookup_at(es, "version"@, 5);
    lemma_lookup_at(es, "urls"@, 6);
    lemma_lookup_at(es, "stats"@, 7);
    lemma_lookup_at(es, "thumbnail"@, 8);
    lemma_lookup_at(es, "languages"@, 9);
    lemma_lookup_at(es, "registrations"@, 10);
    lemma_lookup_at(es, "approval_required"@, 11);
    lemma_lookup_at(es, "invites_enabled"@, 12);
    lemma_lookup_at(es, "configuration"@, 13);
    lemma_lookup_at(es, "contact_account"@, 14);
    lemma_lookup_at(es, "rules"@, 15);
    lemma_strings_roundtrip(x.languages);
    lemma_urls_roundtrip(x.urls);
    lemma_stats_roundtrip(x.stats);
    lemma_config_roundtrip(x.configuration);
    lemma_account_roundtrip(x.contact_account);
    let enc_rules = Seq::new(x.rules.len(), |i: int| spec_encode_rule(x.rules[i]));
    assert forall|i: int| 0 <= i < enc_rules.len() implies spec_decode_rule(
        #[trigger] enc_rules[i],
    ) is Some by {
        lemma_rule_roundtrip(x.rules[i]);
    }
    assert(Seq::new(enc_rules.len(), |i: int| spec_decode_rule(enc_rules[i])->0) =~= x.rules) by {
        assert forall|i: int| 0 <= i < enc_rules.len() implies spec_decode_rule(
            enc_rules[i],
        )->0 == x.rules[i] by {
            lemma_rule_roundtrip(x.rules[i]);
        }
    }
}

} // verus!
