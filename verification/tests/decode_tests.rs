use instance_meta::decode::{decode_instance_text, FetchError};
use instance_meta::run::Run;
use instance_meta::schema::{
    AccountEmoji, ContactAccountInfo, ContactField, InstanceConfiguration, InstanceResponse,
    InstanceRule, InstanceStats, InstanceStatus, InstanceUrls, MediaAttachmentConfig, PollConfig,
};

fn cv(s: &str) -> Vec<char> {
    s.chars().collect()
}

fn full_body() -> String {
    r#"{
        "uri": "social.example",
        "title": "An Example Instance",
        "short_description": "short",
        "description": "a longer description",
        "email": "admin@social.example",
        "version": "4.2.1",
        "urls": { "streaming_api": "wss://social.example" },
        "stats": { "user_count": 120, "status_count": 5000, "domain_count": 37 },
        "thumbnail": "https://social.example/thumb.png",
        "languages": ["en", "de"],
        "registrations": true,
        "approval_required": false,
        "invites_enabled": true,
        "configuration": {
            "statuses": {
                "max_characters": 500,
                "max_media_attachments": 4,
                "characters_reserved_per_url": 23
            },
            "media_attachments": {
                "supported_mime_types": ["image/png", "video/mp4"],
                "image_size_limit": 10485760,
                "image_matrix_limit": 16777216,
                "video_size_limit": 41943040,
                "video_frame_rate_limit": 60,
                "video_matrix_limit": 2304000
            },
            "polls": {
                "max_options": 4,
                "max_characters_per_option": 50,
                "min_expiration": 300,
                "max_expiration": 2629746
            }
        },
        "contact_account": {
            "id": "1",
            "username": "admin",
            "acct": "admin",
            "display_name": "The Admin",
            "locked": false,
            "bot": false,
            "discoverable": true,
            "group": false,
            "created_at": "2020-01-01T00:00:00.000Z",
            "note": "<p>hello</p>",
            "url": "https://social.example/@admin",
            "avatar": "https://social.example/avatar.png",
            "avatar_static": "https://social.example/avatar.png",
            "header": "https://social.example/header.png",
            "header_static": "https://social.example/header.png",
            "followers_count": 12,
            "following_count": 8,
            "statuses_count": 340,
            "last_status_at": "2023-10-01",
            "emojis": [
                {
                    "shortcode": "wave",
                    "url": "https://social.example/emoji/wave.png",
                    "static_url": "https://social.example/emoji/wave-static.png",
                    "visible_in_picker": true
                }
            ],
            "fields": [
                { "name": "Site", "value": "https://example.com", "verified_at": "2022-05-05T10:00:00.000Z" },
                { "name": "Hobby", "value": "verification" }
            ]
        },
        "rules": [
            { "id": "1", "text": "Be kind." },
            { "id": "2", "text": "No spam." }
        ]
    }"#
    .to_string()
}

fn expected_response() -> InstanceResponse {
    InstanceResponse {
        uri: cv("social.example"),
        title: cv("An Example Instance"),
        short_description: cv("short"),
        description: cv("a longer description"),
        email: cv("admin@social.example"),
        version: cv("4.2.1"),
        urls: InstanceUrls {
            streaming_api: cv("wss://social.example"),
        },
        stats: InstanceStats {
            user_count: 120,
            status_count: 5000,
            domain_count: 37,
        },
        thumbnail: cv("https://social.example/thumb.png"),
        languages: vec![cv("en"), cv("de")],
        registrations: true,
        approval_required: false,
        invites_enabled: true,
        configuration: InstanceConfiguration {
            statuses: InstanceStatus {
                max_characters: 500,
                max_media_attachments: 4,
                characters_reserved_per_url: 23,
            },
            media_attachments: MediaAttachmentConfig {
                supported_mime_types: vec![cv("image/png"), cv("video/mp4")],
                image_size_limit: 10485760,
                image_matrix_limit: 16777216,
                video_size_limit: 41943040,
                video_frame_rate_limit: 60,
                video_matrix_limit: 2304000,
            },
            polls: PollConfig {
                max_options: 4,
                max_characters_per_option: 50,
                min_expiration: 300,
                max_expiration: 2629746,
            },
        },
        contact_account: ContactAccountInfo {
            id: cv("1"),
            username: cv("admin"),
            acct: cv("admin"),
            display_name: cv("The Admin"),
            locked: false,
            bot: false,
            discoverable: true,
            group: false,
            created_at: cv("2020-01-01T00:00:00.000Z"),
            note: cv("<p>hello</p>"),
            url: cv("https://social.example/@admin"),
            avatar: cv("https://social.example/avatar.png"),
            avatar_static: cv("https://social.example/avatar.png"),
            header: cv("https://social.example/header.png"),
            header_static: cv("https://social.example/header.png"),
            followers_count: 12,
            following_count: 8,
            statuses_count: 340,
            last_status_at: cv("2023-10-01"),
            emojis: vec![AccountEmoji {
                shortcode: cv("wave"),
                url: cv("https://social.example/emoji/wave.png"),
                static_url: cv("https://social.example/emoji/wave-static.png"),
                visible_in_picker: true,
            }],
            fields: vec![
                ContactField {
                    name: cv("Site"),
                    value: cv("https://example.com"),
                    verified_at: Some(cv("2022-05-05T10:00:00.000Z")),
                },
                ContactField {
                    name: cv("Hobby"),
                    value: cv("verification"),
                    verified_at: None,
                },
            ],
        },
        rules: vec![
            InstanceRule {
                id: cv("1"),
                text: cv("Be kind."),
            },
            InstanceRule {
                id: cv("2"),
                text: cv("No spam."),
            },
        ],
    }
}

#[test]
fn full_document_round_trip_fidelity() {
    let body = cv(&full_body());
    let decoded = decode_instance_text(&body).expect("valid body must decode");
    assert_eq!(decoded, expected_response());
}

#[test]
fn member_order_does_not_matter() {
    let body = full_body();
    // move "rules" to the front: structural deserialization is order-blind
    let reordered = body.replacen(
        "{\n        \"uri\"",
        "{\n        \"rules\": [\n            { \"id\": \"1\", \"text\": \"Be kind.\" },\n            { \"id\": \"2\", \"text\": \"No spam.\" }\n        ],\n        \"uri\"",
        1,
    );
    let decoded = decode_instance_text(&cv(&reordered)).expect("reordered body must decode");
    assert_eq!(decoded, expected_response());
}

#[test]
fn unknown_members_are_ignored() {
    let body = full_body().replacen(
        "\"uri\":",
        "\"pleroma_extra\": {\"x\": [1, 2.5, null]}, \"uri\":",
        1,
    );
    let decoded = decode_instance_text(&cv(&body)).expect("extra members must not hurt");
    assert_eq!(decoded, expected_response());
}

#[test]
fn verified_at_absent_decodes_to_none_and_literal_to_some() {
    let decoded = decode_instance_text(&cv(&full_body())).unwrap();
    assert_eq!(
        decoded.contact_account.fields[0].verified_at,
        Some(cv("2022-05-05T10:00:00.000Z"))
    );
    assert_eq!(decoded.contact_account.fields[1].verified_at, None);
}

#[test]
fn verified_at_null_decodes_to_none() {
    let body = full_body().replacen(
        "\"value\": \"verification\"",
        "\"value\": \"verification\", \"verified_at\": null",
        1,
    );
    let decoded = decode_instance_text(&cv(&body)).unwrap();
    assert_eq!(decoded.contact_account.fields[1].verified_at, None);
}

#[test]
fn malformed_json_is_its_own_error() {
    assert_eq!(
        decode_instance_text(&cv("{not json")),
        Err(FetchError::MalformedJson)
    );
    assert_eq!(decode_instance_text(&cv("")), Err(FetchError::MalformedJson));
}

#[test]
fn missing_required_member_is_a_schema_mismatch() {
    let body = full_body().replacen("\"uri\": \"social.example\",", "", 1);
    assert_eq!(
        decode_instance_text(&cv(&body)),
        Err(FetchError::SchemaMismatch)
    );
}

#[test]
fn wrong_member_type_is_a_schema_mismatch() {
    let body = full_body().replacen(
        "\"user_count\": 120",
        "\"user_count\": \"many\"",
        1,
    );
    assert_eq!(
        decode_instance_text(&cv(&body)),
        Err(FetchError::SchemaMismatch)
    );
    let body2 = full_body().replacen("\"registrations\": true", "\"registrations\": 1", 1);
    assert_eq!(
        decode_instance_text(&cv(&body2)),
        Err(FetchError::SchemaMismatch)
    );
}

#[test]
fn non_integer_counter_is_a_schema_mismatch() {
    let body = full_body().replacen("\"user_count\": 120", "\"user_count\": 120.5", 1);
    assert_eq!(
        decode_instance_text(&cv(&body)),
        Err(FetchError::SchemaMismatch)
    );
}

#[test]
fn two_line_scenario_good_then_bad() {
    // One address that answers with a full valid document and one that
    // fails: the first decodes to the expected record, the second is
    // recorded as a failure, and the pass still covers both lines.
    let mut run = Run::start(&cv("https://good.example\nhttps://bad.example\n"));
    let mut decoded: Vec<InstanceResponse> = Vec::new();

    loop {
        let addr: String = match run.next_address() {
            Some(a) => a.iter().collect(),
            None => break,
        };
        // Stand in for the network round-trip: the good address answers
        // with a valid body, the bad one with an error page.
        let body: Vec<char> = if addr == "https://good.example" {
            cv(&full_body())
        } else {
            cv("<html>500 Internal Server Error</html>")
        };
        match decode_instance_text(&body) {
            Ok(resp) => {
                decoded.push(resp);
                run.record(true);
            }
            Err(e) => {
                assert_eq!(addr, "https://bad.example");
                assert_eq!(e, FetchError::MalformedJson);
                run.record(false);
            }
        }
    }

    assert!(run.finished());
    assert_eq!(run.done, 2);
    assert_eq!(run.ok_count, 1);
    assert_eq!(run.err_count, 1);
    assert_eq!(decoded, vec![expected_response()]);
}
