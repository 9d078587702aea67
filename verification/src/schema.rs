//! The instance-metadata schema: the fixed shape of the JSON document that a
//! server publishes about itself.
//!
//! Each record has an executable form (with `Vec<char>` text) and a
//! mathematical model (the `...G` form, with `Seq<char>` text) related by
//! `View`. Contracts and laws speak of the models.

use vstd::prelude::*;

verus! {

/// Model of a vector of viewable values, one view per element.
pub open spec fn seq_view<T: View>(v: Vec<T>) -> Seq<T::V> {
    Seq::new(v@.len(), |i: int| v@[i]@)
}

/// Model of a vector of character vectors.
pub open spec fn strs_view(v: Vec<Vec<char>>) -> Seq<Seq<char>> {
    Seq::new(v@.len(), |i: int| v@[i]@)
}

/// Model of an optional character vector.
pub open spec fn opt_str_view(v: Option<Vec<char>>) -> Option<Seq<char>> {
    match v {
        None => None,
        Some(s) => Some(s@),
    }
}

/// A server rule: an identifier and its text.
#[derive(Debug, Clone, PartialEq, Eq)]
pub struct InstanceRule {
    pub id: Vec<char>,
    pub text: Vec<char>,
}

/// Model of `InstanceRule`.
pub struct InstanceRuleG {
    pub id: Seq<char>,
    pub text: Seq<char>,
}

impl View for InstanceRule {
    type V = InstanceRuleG;

    open spec fn view(&self) -> InstanceRuleG {
        InstanceRuleG { id: self.id@, text: self.text@ }
    }
}

/// The instance's endpoint addresses.
#[derive(Debug, Clone, PartialEq, Eq)]
pub struct InstanceUrls {
    pub streaming_api: Vec<char>,
}

/// Model of `InstanceUrls`.
pub struct InstanceUrlsG {
    pub streaming_api: Seq<char>,
}

impl View for InstanceUrls {
    type V = InstanceUrlsG;

    open spec fn view(&self) -> InstanceUrlsG {
        InstanceUrlsG { streaming_api: self.streaming_api@ }
    }
}

/// The instance's counters.
#[derive(Debug, Clone, PartialEq, Eq)]
pub struct InstanceStats {
    pub user_count: i64,
    pub status_count: i64,
    pub domain_count: i64,
}

/// Model of `InstanceStats`.
pub struct InstanceStatsG {
    pub user_count: i64,
    pub status_count: i64,
    pub domain_count: i64,
}

impl View for InstanceStats {
    type V = InstanceStatsG;

    open spec fn view(&self) -> InstanceStatsG {
        InstanceStatsG {
            user_count: self.user_count,
            status_count: self.status_count,
            domain_count: self.domain_count,
        }
    }
}

/// Numeric limits on posts.
#[derive(Debug, Clone, PartialEq, Eq)]
pub struct InstanceStatus {
    pub max_characters: i64,
    pub max_media_attachments: i64,
    pub characters_reserved_per_url: i64,
}

/// Model of `InstanceStatus`.
pub struct InstanceStatusG {
    pub max_characters: i64,
    pub max_media_attachments: i64,
    pub characters_reserved_per_url: i64,
}

impl View for InstanceStatus {
    type V = InstanceStatusG;

    open spec fn view(&self) -> InstanceStatusG {
        InstanceStatusG {
            max_characters: self.max_characters,
            max_media_attachments: self.max_media_attachments,
            characters_reserved_per_url: self.characters_reserved_per_url,
        }
    }
}

/// Media constraints: supported types and numeric ceilings.
#[derive(Debug, Clone, PartialEq, Eq)]
pub struct MediaAttachmentConfig {
    pub supported_mime_types: Vec<Vec<char>>,
    pub image_size_limit: i64,
    pub image_matrix_limit: i64,
    pub video_size_limit: i64,
    pub video_frame_rate_limit: i64,
    pub video_matrix_limit: i64,
}

/// Model of `MediaAttachmentConfig`.
pub struct MediaAttachmentConfigG {
    pub supported_mime_types: Seq<Seq<char>>,
    pub image_size_limit: i64,
    pub image_matrix_limit: i64,
    pub video_size_limit: i64,
    pub video_frame_rate_limit: i64,
    pub video_matrix_limit: i64,
}

impl View for MediaAttachmentConfig {
    type V = MediaAttachmentConfigG;

    open spec fn view(&self) -> MediaAttachmentConfigG {
        MediaAttachmentConfigG {
            supported_mime_types: strs_view(self.supported_mime_types),
            image_size_limit: self.image_size_limit,
            image_matrix_limit: self.image_matrix_limit,
            video_size_limit: self.video_size_limit,
            video_frame_rate_limit: self.video_frame_rate_limit,
            video_matrix_limit: self.video_matrix_limit,
        }
    }
}

/// Poll constraints.
#[derive(Debug, Clone, PartialEq, Eq)]
pub struct PollConfig {
    pub max_options: i64,
    pub max_characters_per_option: i64,
    pub min_expiration: i64,
    pub max_expiration: i64,
}

/// Model of `PollConfig`.
pub struct PollConfigG {
    pub max_options: i64,
    pub max_characters_per_option: i64,
    pub min_expiration: i64,
    pub max_expiration: i64,
}

impl View for PollConfig {
    type V = PollConfigG;

    open spec fn view(&self) -> PollConfigG {
        PollConfigG {
            max_options: self.max_options,
            max_characters_per_option: self.max_characters_per_option,
            min_expiration: self.min_expiration,
            max_expiration: self.max_expiration,
        }
    }
}

/// The three groups of configuration limits.
#[derive(Debug, Clone, PartialEq, Eq)]
pub struct InstanceConfiguration {
    pub statuses: InstanceStatus,
    pub media_attachments: MediaAttachmentConfig,
    pub polls: PollConfig,
}

/// Model of `InstanceConfiguration`.
pub struct InstanceConfigurationG {
    pub statuses: InstanceStatusG,
    pub media_attachments: MediaAttachmentConfigG,
    pub polls: PollConfigG,
}

impl View for InstanceConfiguration {
    type V = InstanceConfigurationG;

    open spec fn view(&self) -> InstanceConfigurationG {
        InstanceConfigurationG {
            statuses: self.statuses@,
            media_attachments: self.media_attachments@,
            polls: self.polls@,
        }
    }
}

/// A custom emoji of the contact account.
#[derive(Debug, Clone, PartialEq, Eq)]
pub struct AccountEmoji {
    pub shortcode: Vec<char>,
    pub url: Vec<char>,
    pub static_url: Vec<char>,
    pub visible_in_picker: bool,
}

/// Model of `AccountEmoji`.
pub struct AccountEmojiG {
    pub shortcode: Seq<char>,
    pub url: Seq<char>,
    pub static_url: Seq<char>,
    pub visible_in_picker: bool,
}

impl View for AccountEmoji {
    type V = AccountEmojiG;

    open spec fn view(&self) -> AccountEmojiG {
        AccountEmojiG {
            shortcode: self.shortcode@,
            url: self.url@,
            static_url: self.static_url@,
            visible_in_picker: self.visible_in_picker,
        }
    }
}

/// A profile field: a name/value pair with an optional verification
/// timestamp (absent means not verified).
#[derive(Debug, Clone, PartialEq, Eq)]
pub struct ContactField {
    pub name: Vec<char>,
    pub value: Vec<char>,
    pub verified_at: Option<Vec<char>>,
}

/// Model of `ContactField`.
pub struct ContactFieldG {
    pub name: Seq<char>,
    pub value: Seq<char>,
    pub verified_at: Option<Seq<char>>,
}

impl View for ContactField {
    type V = ContactFieldG;

    open spec fn view(&self) -> ContactFieldG {
        ContactFieldG {
            name: self.name@,
            value: self.value@,
            verified_at: opt_str_view(self.verified_at),
        }
    }
}

/// The instance's contact account profile.
#[derive(Debug, Clone, PartialEq, Eq)]
pub struct ContactAccountInfo {
    pub id: Vec<char>,
    pub username: Vec<char>,
    pub acct: Vec<char>,
    pub display_name: Vec<char>,
    pub locked: bool,
    pub bot: bool,
    pub discoverable: bool,
    pub group: bool,
    pub created_at: Vec<char>,
    pub note: Vec<char>,
    pub url: Vec<char>,
    pub avatar: Vec<char>,
    pub avatar_static: Vec<char>,
    pub header: Vec<char>,
    pub header_static: Vec<char>,
    pub followers_count: i64,
    pub following_count: i64,
    pub statuses_count: i64,
    pub last_status_at: Vec<char>,
    pub emojis: Vec<AccountEmoji>,
    pub fields: Vec<ContactField>,
}

/// Model of `ContactAccountInfo`.
pub struct ContactAccountInfoG {
    pub id: Seq<char>,
    pub username: Seq<char>,
    pub acct: Seq<char>,
    pub display_name: Seq<char>,
    pub locked: bool,
    pub bot: bool,
    pub discoverable: bool,
    pub group: bool,
    pub created_at: Seq<char>,
    pub note: Seq<char>,
    pub url: Seq<char>,
    pub avatar: Seq<char>,
    pub avatar_static: Seq<char>,
    pub header: Seq<char>,
    pub header_static: Seq<char>,
    pub followers_count: i64,
    pub following_count: i64,
    pub statuses_count: i64,
    pub last_status_at: Seq<char>,
    pub emojis: Seq<AccountEmojiG>,
    pub fields: Seq<ContactFieldG>,
}

impl View for ContactAccountInfo {
    type V = ContactAccountInfoG;

    open spec fn view(&self) -> ContactAccountInfoG {
        ContactAccountInfoG {
            id: self.id@,
            username: self.username@,
            acct: self.acct@,
            display_name: self.display_name@,
            locked: self.locked,
            bot: self.bot,
            discoverable: self.discoverable,
            group: self.group,
            created_at: self.created_at@,
            note: self.note@,
            url: self.url@,
            avatar: self.avatar@,
            avatar_static: self.avatar_static@,
            header: self.header@,
            header_static: self.header_static@,
            followers_count: self.followers_count,
            following_count: self.following_count,
            statuses_count: self.statuses_count,
            last_status_at: self.last_status_at@,
            emojis: seq_view(self.emojis),
            fields: seq_view(self.fields),
        }
    }
}

/// The whole metadata document.
#[derive(Debug, Clone, PartialEq, Eq)]
pub struct InstanceResponse {
    pub uri: Vec<char>,
    pub title: Vec<char>,
    pub short_description: Vec<char>,
    pub description: Vec<char>,
    pub email: Vec<char>,
    pub version: Vec<char>,
    pub urls: InstanceUrls,
    pub stats: InstanceStats,
    pub thumbnail: Vec<char>,
    pub languages: Vec<Vec<char>>,
    pub registrations: bool,
    pub approval_required: bool,
    pub invites_enabled: bool,
    pub configuration: InstanceConfiguration,
    pub contact_account: ContactAccountInfo,
    pub rules: Vec<InstanceRule>,
}

/// Model of `InstanceResponse`.
pub struct InstanceResponseG {
    pub uri: Seq<char>,
    pub title: Seq<char>,
    pub short_description: Seq<char>,
    pub description: Seq<char>,
    pub email: Seq<char>,
    pub version: Seq<char>,
    pub urls: InstanceUrlsG,
    pub stats: InstanceStatsG,
    pub thumbnail: Seq<char>,
    pub languages: Seq<Seq<char>>,
    pub registrations: bool,
    pub approval_required: bool,
    pub invites_enabled: bool,
    pub configuration: InstanceConfigurationG,
    pub contact_account: ContactAccountInfoG,
    pub rules: Seq<InstanceRuleG>,
}

impl View for InstanceResponse {
    type V = InstanceResponseG;

    open spec fn view(&self) -> InstanceResponseG {
        InstanceResponseG {
            uri: self.uri@,
            title: self.title@,
            short_description: self.short_description@,
            description: self.description@,
            email: self.email@,
            version: self.version@,
            urls: self.urls@,
            stats: self.stats@,
            thumbnail: self.thumbnail@,
            languages: strs_view(self.languages),
            registrations: self.registrations,
            approval_required: self.approval_required,
            invites_enabled: self.invites_enabled,
            configuration: self.configuration@,
            contact_account: self.contact_account@,
            rules: seq_view(self.rules),
        }
    }
}

} // verus!
