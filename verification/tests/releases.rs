use std::collections::BTreeMap;

use cataclysm_manager::Config;
use cataclysm_manager::decode::decode_release_feed;
use cataclysm_manager::decode::decode_release_object;
use cataclysm_manager::diagnose::DecodeError;
use cataclysm_manager::diagnose::handle_json_deserialization_failure;
use cataclysm_manager::display::render_releases;
use cataclysm_manager::feed::ReleaseType;
use cataclysm_manager::feed::endpoint_url;
use cataclysm_manager::feed::parse_release_type;
use cataclysm_manager::models::Timestamp;
use cataclysm_manager::text::u64_to_string;

#[test]
fn test_release_model_defaults() {
    let json = r#"
        {
            "id": 1234567890,
            "name": "Name",
            "body": "Body",
            "html_url": "https://github.com/some/path/to/an/object",
            "created_at": "2021-01-19T01:15:00Z",
            "published_at": "2021-01-19T01:15:00Z"
        }
        "#;

    let release = decode_release_object(json.as_bytes()).unwrap();

    assert_eq!(release.assets.len(), 0);
}

#[test]
fn test_release_model_with_empty_assets() {
    let json = r#"
        {
            "id": 1234567890,
            "name": "Name",
            "body": "Body",
            "html_url": "https://github.com/some/path/to/an/object",
            "created_at": "2021-01-19T01:15:00Z",
            "published_at": "2021-01-19T01:15:00Z",
            "assets": []
        }
        "#;

    let release = decode_release_object(json.as_bytes()).unwrap();

    assert_eq!(release.assets.len(), 0);
}

#[test]
fn test_release_model_with_assets() {
    let json = r#"
        {
            "id": 1234567890,
            "name": "Name",
            "body": "Body",
            "html_url": "https://github.com/some/path/to/an/object",
            "created_at": "2021-01-19T01:15:00Z",
            "published_at": "2021-01-19T01:15:00Z",
            "assets": [{
                "browser_download_url": "https://github.com/some/path/to/an/object",
                "name": "MyAsset_01.zip",
                "label": "My Asset",
                "size": 2048,
                "created_at": "2021-01-19T01:15:00Z",
                "updated_at": "2021-01-19T01:15:00Z"
            }]
        }
        "#;

    let release = decode_release_object(json.as_bytes()).unwrap();

    assert_eq!(release.assets.len(), 1);
}

#[test]
fn asset_fields_carried_over() {
    let json = r#"
        {
            "id": 1234567890,
            "name": "Name",
            "body": "Body",
            "html_url": "https://github.com/some/path/to/an/object",
            "created_at": "2021-01-19T01:15:00Z",
            "published_at": "2021-01-19T01:15:00Z",
            "assets": [{
                "browser_download_url": "https://github.com/some/path/to/an/object",
                "name": "MyAsset_01.zip",
                "label": "My Asset",
                "size": 2048,
                "created_at": "2021-01-19T01:15:00Z",
                "updated_at": "2021-01-19T01:15:00Z"
            }]
        }
        "#;

    let release = decode_release_object(json.as_bytes()).unwrap();

    assert_eq!(release.id, 1234567890);
    assert_eq!(release.name, "Name");
    assert_eq!(release.body, "Body");
    assert_eq!(release.html_url, "https://github.com/some/path/to/an/object");
    assert_eq!(release.created_at.epoch_seconds, 1611018900);
    assert_eq!(release.published_at.epoch_seconds, 1611018900);

    let asset = &release.assets[0];
    assert_eq!(asset.browser_download_url, "https://github.com/some/path/to/an/object");
    assert_eq!(asset.name, "MyAsset_01.zip");
    assert_eq!(asset.label, "My Asset");
    assert_eq!(asset.size, 2048);
    assert_eq!(asset.created_at.epoch_seconds, 1611018900);
    assert_eq!(asset.updated_at.epoch_seconds, 1611018900);
}

#[test]
fn enrichment_semantic_error_location() {
    let json = r#"{"hello": 42}"#;
    let err = serde_json::from_str::<BTreeMap<String, String>>(json).unwrap_err();
    assert!(err.is_data());
    assert_eq!(err.line(), 1);
    assert_eq!(err.column(), 12);

    match handle_json_deserialization_failure(json, err, "Greeting") {
        DecodeError::Semantic(m) => {
            assert_eq!(
                m,
                "Unable to parse release data due to semantically invalid JSON data \
                 when attempting to extract Greeting at 1:12:\n2}"
            );
        }
        DecodeError::Malformed(_) => panic!("a data error must be enriched"),
    }
}

#[test]
fn enrichment_quotes_rest_of_line() {
    let json = r#"{"a": 1, "b": 2}"#;
    let err = serde_json::from_str::<BTreeMap<String, String>>(json).unwrap_err();
    assert!(err.is_data());
    assert_eq!(err.line(), 1);
    let column = err.column();
    let expected_fragment = &json[column - 1..];
    let expected_head = format!(
        "Unable to parse release data due to semantically invalid JSON data \
         when attempting to extract Pair at 1:{}:\n",
        column
    );

    match handle_json_deserialization_failure(json, err, "Pair") {
        DecodeError::Semantic(m) => {
            assert_eq!(m, format!("{}{}", expected_head, expected_fragment));
        }
        DecodeError::Malformed(_) => panic!("a data error must be enriched"),
    }
}

#[test]
fn listing_of_empty_feed_is_empty() {
    let releases = decode_release_feed(b"[]").unwrap();
    assert_eq!(releases.len(), 0);
    assert_eq!(render_releases(&releases), "");
}

#[test]
fn enrichment_structural_error_passthrough() {
    let json = r#"{"hello": "wor"#;
    let err = serde_json::from_str::<BTreeMap<String, String>>(json).unwrap_err();
    let original_text = err.to_string();

    match handle_json_deserialization_failure(json, err, "Greeting") {
        DecodeError::Malformed(e) => {
            let message = e.to_string();
            assert_eq!(message, original_text);
            assert!(!message.contains("semantically invalid"));
        }
        DecodeError::Semantic(_) => panic!("a structural error must pass through unchanged"),
    }
}

#[test]
fn enrichment_out_of_range_line_falls_back() {
    let err = serde_json::from_str::<BTreeMap<String, String>>("{\"a\":\n 1}").unwrap_err();
    assert!(err.is_data());
    assert_eq!(err.line(), 2);
    // The reported line lies beyond the one-line text handed in here, so
    // the original error must come back unchanged.
    match handle_json_deserialization_failure("x", err, "Greeting") {
        DecodeError::Malformed(_) => {}
        DecodeError::Semantic(_) => panic!("an unlocatable error must fall back"),
    }
}

#[test]
fn listing_skips_releases_without_assets() {
    let json = r#"[
        {
            "id": 1,
            "name": "Empty",
            "body": "",
            "html_url": "https://example.org/empty",
            "created_at": "2021-01-19T01:15:00Z",
            "published_at": "2021-01-19T01:15:00Z"
        },
        {
            "id": 2,
            "name": "Full",
            "body": "",
            "html_url": "https://example.org/full",
            "created_at": "2021-01-19T01:15:00Z",
            "published_at": "2021-01-19T01:15:00Z",
            "assets": [
                {
                    "browser_download_url": "https://example.org/a1",
                    "name": "a1.zip",
                    "label": "first",
                    "size": 100,
                    "created_at": "2021-01-19T01:15:00Z",
                    "updated_at": "2021-01-19T01:15:00Z"
                },
                {
                    "browser_download_url": "https://example.org/a2",
                    "name": "a2.zip",
                    "label": "second",
                    "size": 200,
                    "created_at": "2021-01-19T01:15:00Z",
                    "updated_at": "2021-01-19T01:15:00Z"
                }
            ]
        }
    ]"#;

    let releases = decode_release_feed(json.as_bytes()).unwrap();
    assert_eq!(releases.len(), 2);

    let out = render_releases(&releases);
    assert_eq!(
        out,
        "Full: https://example.org/full\n  a1.zip (100): https://example.org/a1\n  a2.zip (200): https://example.org/a2\n"
    );
}

#[test]
fn endpoints_are_distinct() {
    assert_eq!(
        endpoint_url(ReleaseType::Experimental),
        "https://api.github.com/repos/CleverRaven/Cataclysm-DDA/releases"
    );
    assert_eq!(
        endpoint_url(ReleaseType::Stable),
        "https://api.github.com/repos/CleverRaven/Cataclysm-DDA/releases/latest"
    );
    assert_ne!(endpoint_url(ReleaseType::Stable), endpoint_url(ReleaseType::Experimental));
}

#[test]
fn release_type_parsing() {
    assert_eq!(parse_release_type("stable"), Some(ReleaseType::Stable));
    assert_eq!(parse_release_type("experimental"), Some(ReleaseType::Experimental));
    assert_eq!(parse_release_type("nightly"), None);
    assert_eq!(parse_release_type(""), None);
}

#[test]
fn decode_object_rejects_non_object_document() {
    match decode_release_object(b"[]").unwrap_err() {
        DecodeError::Semantic(m) => {
            assert_eq!(
                m,
                "Unable to parse release data due to semantically invalid JSON data \
                 when attempting to extract Release: not an object"
            );
        }
        DecodeError::Malformed(_) => panic!("well-formed JSON must give a semantic error"),
    }
}

#[test]
fn decode_object_passes_malformed_document_through() {
    let err = decode_release_object(b"{\"id\": ").unwrap_err();
    assert!(!err.is_semantic());
}

#[test]
fn decode_rejects_non_array_document() {
    match decode_release_feed(b"{}").unwrap_err() {
        DecodeError::Semantic(m) => {
            assert_eq!(
                m,
                "Unable to parse release data due to semantically invalid JSON data \
                 when attempting to extract Release: the document is not an array"
            );
        }
        DecodeError::Malformed(_) => panic!("well-formed JSON must give a semantic error"),
    }
}

#[test]
fn decode_names_first_bad_element() {
    let json = r#"[
        {
            "id": 1,
            "name": "Ok",
            "body": "",
            "html_url": "https://example.org",
            "created_at": "2021-01-19T01:15:00Z",
            "published_at": "2021-01-19T01:15:00Z"
        },
        { "id": "not a number" }
    ]"#;
    match decode_release_feed(json.as_bytes()).unwrap_err() {
        DecodeError::Semantic(m) => {
            assert_eq!(
                m,
                "Unable to parse release data due to semantically invalid JSON data \
                 when attempting to extract Release: element 1: missing or mistyped field `html_url`"
            );
        }
        DecodeError::Malformed(_) => panic!("well-formed JSON must give a semantic error"),
    }
}

#[test]
fn decode_names_first_bad_asset() {
    let json = r#"[
        {
            "id": 1,
            "name": "Ok",
            "body": "",
            "html_url": "https://example.org",
            "created_at": "2021-01-19T01:15:00Z",
            "published_at": "2021-01-19T01:15:00Z",
            "assets": [
                {
                    "browser_download_url": "https://example.org/a1",
                    "name": "a1.zip",
                    "label": "first",
                    "size": "big",
                    "created_at": "2021-01-19T01:15:00Z",
                    "updated_at": "2021-01-19T01:15:00Z"
                }
            ]
        }
    ]"#;
    match decode_release_feed(json.as_bytes()).unwrap_err() {
        DecodeError::Semantic(m) => {
            assert_eq!(
                m,
                "Unable to parse release data due to semantically invalid JSON data \
                 when attempting to extract Release: element 0: asset 0: \
                 missing or mistyped field `size`"
            );
        }
        DecodeError::Malformed(_) => panic!("well-formed JSON must give a semantic error"),
    }
}

#[test]
fn decode_rejects_bad_timestamp() {
    let json = r#"[
        {
            "id": 1,
            "name": "Ok",
            "body": "",
            "html_url": "https://example.org",
            "created_at": "yesterday",
            "published_at": "2021-01-19T01:15:00Z"
        }
    ]"#;
    match decode_release_feed(json.as_bytes()).unwrap_err() {
        DecodeError::Semantic(m) => {
            assert_eq!(
                m,
                "Unable to parse release data due to semantically invalid JSON data \
                 when attempting to extract Release: element 0: \
                 missing or mistyped field `created_at`"
            );
        }
        DecodeError::Malformed(_) => panic!("well-formed JSON must give a semantic error"),
    }
}

#[test]
fn feed_structural_error_passes_through() {
    let json = b"[ {\"id\": 1, ";
    let expected = serde_json::from_slice::<serde_json::Value>(json).unwrap_err().to_string();
    let err = decode_release_feed(json).unwrap_err();
    assert!(!err.is_semantic());
    assert_eq!(err.message(), expected);
}

#[test]
fn feed_keeps_source_order() {
    let json = r#"[
        {
            "id": 30,
            "name": "Third",
            "body": "",
            "html_url": "https://example.org/3",
            "created_at": "2021-01-19T01:15:00Z",
            "published_at": "2021-01-19T01:15:00Z"
        },
        {
            "id": 10,
            "name": "First",
            "body": "",
            "html_url": "https://example.org/1",
            "created_at": "2021-01-19T01:15:00Z",
            "published_at": "2021-01-19T01:15:00Z"
        }
    ]"#;
    let releases = decode_release_feed(json.as_bytes()).unwrap();
    assert_eq!(releases.len(), 2);
    assert_eq!(releases[0].id, 30);
    assert_eq!(releases[0].name, "Third");
    assert_eq!(releases[1].id, 10);
    assert_eq!(releases[1].name, "First");
}

#[test]
fn timestamp_parse_values() {
    let t = Timestamp::parse("2021-01-19T01:15:00Z").unwrap();
    assert_eq!(t.epoch_seconds, 1611018900);
    let u = Timestamp::parse("1970-01-01T00:00:00Z").unwrap();
    assert_eq!(u.epoch_seconds, 0);
    assert_eq!(Timestamp::parse("not a date"), None);
    assert_eq!(Timestamp::parse(""), None);
}

#[test]
fn decimal_rendering() {
    assert_eq!(u64_to_string(0), "0");
    assert_eq!(u64_to_string(7), "7");
    assert_eq!(u64_to_string(2048), "2048");
    assert_eq!(u64_to_string(u64::MAX), "18446744073709551615");
}

#[test]
fn config_default_is_empty() {
    let c = Config::default();
    assert!(c.user_cache.is_none());
    assert!(c.user_config.is_none());
    assert!(c.user_data.is_none());
}

#[test]
fn config_from_dirs_places_each_kind() {
    let c = Config::from_dirs(Some("cache".to_string()), None, Some("data".to_string()));
    assert_eq!(c.user_cache.as_deref(), Some("cache"));
    assert_eq!(c.user_config, None);
    assert_eq!(c.user_data.as_deref(), Some("data"));
}

#[test]
fn config_detect_does_not_fail() {
    // Whatever the environment holds, detection must come back with a
    // value; any of the directories may be absent.
    let _c = Config::detect();
}
