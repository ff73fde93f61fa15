//! The request-mapping layer: trimming, the partial-update builder, the
//! capability check and the error shapes.

use xdd::account::PutSettings;
use xdd::alias::{type_from_name, AliasType, PutAlias};
use xdd::auth::{authorize, has_capability, AuthContext};
use xdd::error::Error;
use xdd::params::SqlParam;
use xdd::util::{check_length, comma_string, non_empty_trimmed, str_eq, trim};

fn put_alias(content: Option<&str>, typ: Option<&str>) -> PutAlias {
    PutAlias {
        content: content.map(|s| s.to_string()),
        typ: typ.map(|s| s.to_string()),
    }
}

#[test]
fn trim_removes_leading_and_trailing_whitespace() {
    assert_eq!(trim("  hello  "), "hello");
    assert_eq!(trim("\t\nhello world\r\n"), "hello world");
    assert_eq!(trim("hello"), "hello");
    assert_eq!(trim(""), "");
    assert_eq!(trim("   \t \n "), "");
}

#[test]
fn trim_handles_unicode_whitespace_and_content() {
    assert_eq!(trim("\u{3000}h\u{e9}llo\u{a0}"), "h\u{e9}llo");
    assert_eq!(trim(" a b "), "a b");
}

#[test]
fn non_empty_trimmed_drops_blank_fields() {
    assert_eq!(non_empty_trimmed(&Some("  x ".to_string())), Some("x".to_string()));
    assert_eq!(non_empty_trimmed(&Some("   ".to_string())), None);
    assert_eq!(non_empty_trimmed(&None), None);
}

#[test]
fn str_eq_compares_by_characters() {
    assert!(str_eq("abc", "abc"));
    assert!(!str_eq("abc", "abd"));
    assert!(!str_eq("abc", "ab"));
    assert!(str_eq("", ""));
}

#[test]
fn check_length_rejects_only_over_long_fields() {
    assert_eq!(check_length("name", None, 3), Ok(()));
    assert_eq!(check_length("name", Some("abc"), 3), Ok(()));
    assert_eq!(
        check_length("name", Some("abcd"), 3),
        Err(Error::TooManyCharacters { field: "name", maximum_length: 3 })
    );
}

#[test]
fn comma_string_splits_on_commas_keeping_empty_pieces() {
    let split = |s: &str| -> Vec<String> { comma_string(s) };
    assert_eq!(split("a,b,c"), vec!["a".to_string(), "b".to_string(), "c".to_string()]);
    assert_eq!(split(""), vec!["".to_string()]);
    assert_eq!(split("a"), vec!["a".to_string()]);
    assert_eq!(split(",a,"), vec!["".to_string(), "a".to_string(), "".to_string()]);
    assert_eq!(split("a,,b"), vec!["a".to_string(), "".to_string(), "b".to_string()]);
}

#[test]
fn settings_update_str_lists_only_present_fields() {
    let some = PutSettings { color_theme: Some("dark".to_string()) };
    let none = PutSettings { color_theme: None };
    assert_eq!(some.update_str(), "color_theme = ?");
    assert_eq!(none.update_str(), "");
}

#[test]
fn settings_params_match_fragments() {
    let some = PutSettings { color_theme: Some("dark".to_string()) };
    let none = PutSettings { color_theme: None };
    assert_eq!(some.update_params().len(), 1);
    assert!(matches!(&some.update_params()[0], SqlParam::Text(t) if t == "dark"));
    assert_eq!(none.update_params().len(), 0);
}

#[test]
fn alias_update_str_joins_fragments_in_column_order() {
    assert_eq!(put_alias(Some("c"), Some("Text")).update_str(), "content = ?, type = ?");
    assert_eq!(put_alias(Some("c"), None).update_str(), "content = ?");
    assert_eq!(put_alias(None, Some("Text")).update_str(), "type = ?");
    assert_eq!(put_alias(None, None).update_str(), "");
}

#[test]
fn alias_params_length_always_matches_fragment_count() {
    let both = put_alias(Some("c"), Some("Text"));
    let content_only = put_alias(Some("c"), None);
    let type_only = put_alias(None, Some("Text"));
    let neither = put_alias(None, None);
    assert_eq!(both.update_params(&Some(1)).len(), 2);
    assert_eq!(content_only.update_params(&None).len(), 1);
    assert_eq!(type_only.update_params(&Some(1)).len(), 1);
    assert_eq!(neither.update_params(&None).len(), 0);
}

#[test]
fn alias_params_order_matches_fragment_order() {
    let both = put_alias(Some("body"), Some("Image"));
    let params = both.update_params(&Some(2));
    assert!(matches!(&params[0], SqlParam::Text(t) if t == "body"));
    assert!(matches!(&params[1], SqlParam::Int(2)));
}

#[test]
fn alias_patch_normalization_trims_and_drops_blank_fields() {
    let p = put_alias(Some("  body  "), Some("   ")).normalized();
    assert_eq!(p.content, Some("body".to_string()));
    assert_eq!(p.typ, None);
}

#[test]
fn category_names_round_trip() {
    let all = [
        AliasType::Text,
        AliasType::Image,
        AliasType::Gif,
        AliasType::Emote,
        AliasType::AnimatedEmote,
    ];
    for t in all {
        assert_eq!(type_from_name(t.name()), Some(t));
    }
    assert_eq!(type_from_name("Sticker"), None);
    assert_eq!(type_from_name("text"), None);
}

#[test]
fn capability_checks_gate_on_the_granted_set() {
    let ctx = AuthContext {
        principal: "alice".to_string(),
        capabilities: vec!["create-aliases".to_string(), "edit-aliases".to_string()],
    };
    assert!(has_capability(&ctx, "create-aliases"));
    assert!(!has_capability(&ctx, "delete-aliases"));
    assert_eq!(authorize(&ctx, &vec!["create-aliases"]), Ok(()));
    assert_eq!(authorize(&ctx, &vec!["create-aliases", "edit-aliases"]), Ok(()));
    assert_eq!(
        authorize(&ctx, &vec!["create-aliases", "delete-aliases"]),
        Err(Error::Forbidden)
    );
    assert_eq!(authorize(&ctx, &vec![]), Ok(()));
}

#[test]
fn error_status_codes_match_the_rest_surface() {
    assert_eq!(Error::NotFound.status_code(), 404);
    assert_eq!(Error::Unauthorized.status_code(), 401);
    assert_eq!(Error::Forbidden.status_code(), 403);
    assert_eq!(Error::InternalError.status_code(), 500);
    assert_eq!(Error::EmptyField("name").status_code(), 400);
    assert_eq!(Error::AliasExists.status_code(), 400);
    assert_eq!(Error::UnknownAliasType.status_code(), 400);
    assert_eq!(
        Error::TooManyCharacters { field: "name", maximum_length: 1 }.status_code(),
        400
    );
}

#[test]
fn error_messages_are_stable_and_generic_for_internal_failures() {
    assert_eq!(Error::NotFound.message(), "Not Found");
    assert_eq!(Error::InternalError.message(), "Internal Server Error");
    assert_eq!(Error::EmptyField("name").message(), "The field name is empty");
    assert_eq!(
        Error::UnknownAliasType.message(),
        "The supplied alias type does not exist"
    );
}
