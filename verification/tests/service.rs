//! End-to-end scenarios against an in-memory store.

use xdd::account::{get_settings, put_settings, PutSettings};
use xdd::alias::{
    delete_alias_by_name, get_all as get_all_aliases, get_by_name, post_alias, put_alias_by_name,
    Alias, AliasType, PostAlias, PutAlias,
};
use xdd::error::Error;
use xdd::store::Store;
use xdd::user::{
    create_user_if_missing, create_user_if_missing_at, get_all as get_all_users,
    get_user_by_username, user_exists,
};

fn fresh_store() -> Store {
    Store::open_in_memory().expect("in-memory store")
}

fn post(name: &str, content: &str, typ: &str) -> PostAlias {
    PostAlias {
        name: name.to_string(),
        content: content.to_string(),
        typ: typ.to_string(),
    }
}

fn find<'a>(aliases: &'a [Alias], name: &str) -> Option<&'a Alias> {
    aliases.iter().find(|a| a.name == name)
}

#[test]
fn create_then_get_round_trips() {
    let mut store = fresh_store();
    post_alias(&mut store, &post("fb", "foobar", "Text"), "Alice", 1670802822).unwrap();
    let alias = get_by_name(&store, "fb").unwrap();
    assert_eq!(alias.name, "fb");
    assert_eq!(alias.content, "foobar");
    assert!(matches!(alias.typ, AliasType::Text));
    assert_eq!(alias.author, "Alice");
    assert_eq!(alias.created_at, 1670802822);
}

#[test]
fn get_missing_alias_is_not_found() {
    let store = fresh_store();
    assert_eq!(get_by_name(&store, "nope"), Err(Error::NotFound));
}

#[test]
fn create_with_empty_name_is_rejected_and_writes_nothing() {
    let mut store = fresh_store();
    let r = post_alias(&mut store, &post("", "content", "Text"), "Alice", 7);
    assert_eq!(r, Err(Error::EmptyField("name")));
    assert_eq!(get_all_aliases(&store).unwrap().len(), 0);
}

#[test]
fn create_with_empty_content_is_rejected_and_writes_nothing() {
    let mut store = fresh_store();
    let r = post_alias(&mut store, &post("fb", "", "Text"), "Alice", 7);
    assert_eq!(r, Err(Error::EmptyField("content")));
    assert_eq!(get_all_aliases(&store).unwrap().len(), 0);
}

#[test]
fn create_with_whitespace_only_name_is_rejected() {
    let mut store = fresh_store();
    let r = post_alias(&mut store, &post(" \t\n ", "content", "Text"), "Alice", 7);
    assert_eq!(r, Err(Error::EmptyField("name")));
}

#[test]
fn create_with_unknown_category_is_rejected_and_writes_nothing() {
    let mut store = fresh_store();
    let r = post_alias(&mut store, &post("fb", "foobar", "Sticker"), "Alice", 7);
    assert_eq!(r, Err(Error::UnknownAliasType));
    assert_eq!(get_all_aliases(&store).unwrap().len(), 0);
}

#[test]
fn create_trims_fields_before_storing() {
    let mut store = fresh_store();
    post_alias(&mut store, &post("  fb  ", "  foobar  ", "  Gif  "), "Alice", 7).unwrap();
    let alias = get_by_name(&store, "fb").unwrap();
    assert_eq!(alias.content, "foobar");
    assert!(matches!(alias.typ, AliasType::Gif));
}

#[test]
fn create_duplicate_name_is_a_conflict() {
    let mut store = fresh_store();
    post_alias(&mut store, &post("fb", "foobar", "Text"), "Alice", 7).unwrap();
    let r = post_alias(&mut store, &post("fb", "other", "Image"), "Bob", 8);
    assert_eq!(r, Err(Error::AliasExists));
    let alias = get_by_name(&store, "fb").unwrap();
    assert_eq!(alias.content, "foobar");
    assert_eq!(alias.author, "Alice");
}

#[test]
fn update_with_no_present_fields_succeeds_and_changes_nothing() {
    let mut store = fresh_store();
    post_alias(&mut store, &post("fb", "foobar", "Text"), "Alice", 7).unwrap();
    let r = put_alias_by_name(&mut store, "fb", &PutAlias { content: None, typ: None });
    assert_eq!(r, Ok(()));
    let alias = get_by_name(&store, "fb").unwrap();
    assert_eq!(alias.content, "foobar");
    assert!(matches!(alias.typ, AliasType::Text));
}

#[test]
fn update_with_whitespace_only_fields_is_a_no_op() {
    let mut store = fresh_store();
    post_alias(&mut store, &post("fb", "foobar", "Text"), "Alice", 7).unwrap();
    let patch = PutAlias { content: Some("   ".to_string()), typ: Some(" \t ".to_string()) };
    assert_eq!(put_alias_by_name(&mut store, "fb", &patch), Ok(()));
    let alias = get_by_name(&store, "fb").unwrap();
    assert_eq!(alias.content, "foobar");
    assert!(matches!(alias.typ, AliasType::Text));
}

#[test]
fn update_missing_alias_is_not_found_even_for_empty_patch() {
    let mut store = fresh_store();
    let r = put_alias_by_name(&mut store, "nope", &PutAlias { content: None, typ: None });
    assert_eq!(r, Err(Error::NotFound));
}

#[test]
fn update_content_only_keeps_type() {
    let mut store = fresh_store();
    post_alias(&mut store, &post("fb", "foobar", "Emote"), "Alice", 7).unwrap();
    let patch = PutAlias { content: Some(" changed ".to_string()), typ: None };
    assert_eq!(put_alias_by_name(&mut store, "fb", &patch), Ok(()));
    let alias = get_by_name(&store, "fb").unwrap();
    assert_eq!(alias.content, "changed");
    assert!(matches!(alias.typ, AliasType::Emote));
    assert_eq!(alias.author, "Alice");
    assert_eq!(alias.created_at, 7);
}

#[test]
fn update_type_only_keeps_content() {
    let mut store = fresh_store();
    post_alias(&mut store, &post("fb", "foobar", "Text"), "Alice", 7).unwrap();
    let patch = PutAlias { content: None, typ: Some("AnimatedEmote".to_string()) };
    assert_eq!(put_alias_by_name(&mut store, "fb", &patch), Ok(()));
    let alias = get_by_name(&store, "fb").unwrap();
    assert_eq!(alias.content, "foobar");
    assert!(matches!(alias.typ, AliasType::AnimatedEmote));
}

#[test]
fn update_both_fields_in_one_statement() {
    let mut store = fresh_store();
    post_alias(&mut store, &post("fb", "foobar", "Text"), "Alice", 7).unwrap();
    let patch = PutAlias { content: Some("pic".to_string()), typ: Some("Image".to_string()) };
    assert_eq!(put_alias_by_name(&mut store, "fb", &patch), Ok(()));
    let alias = get_by_name(&store, "fb").unwrap();
    assert_eq!(alias.content, "pic");
    assert!(matches!(alias.typ, AliasType::Image));
}

#[test]
fn update_to_unknown_category_fails_atomically() {
    let mut store = fresh_store();
    post_alias(&mut store, &post("fb", "foobar", "Text"), "Alice", 7).unwrap();
    let patch = PutAlias { content: Some("changed".to_string()), typ: Some("Nope".to_string()) };
    let r = put_alias_by_name(&mut store, "fb", &patch);
    assert_eq!(r, Err(Error::UnknownAliasType));
    let alias = get_by_name(&store, "fb").unwrap();
    assert_eq!(alias.content, "foobar");
    assert!(matches!(alias.typ, AliasType::Text));
}

#[test]
fn delete_is_idempotent_and_error_free() {
    let mut store = fresh_store();
    post_alias(&mut store, &post("fb", "foobar", "Text"), "Alice", 7).unwrap();
    assert_eq!(delete_alias_by_name(&mut store, "fb"), Ok(()));
    assert_eq!(get_by_name(&store, "fb"), Err(Error::NotFound));
    assert_eq!(delete_alias_by_name(&mut store, "fb"), Ok(()));
    assert_eq!(delete_alias_by_name(&mut store, "never-existed"), Ok(()));
}

#[test]
fn get_all_aliases_returns_every_row_once() {
    let mut store = fresh_store();
    post_alias(&mut store, &post("a", "one", "Text"), "Alice", 1).unwrap();
    post_alias(&mut store, &post("b", "two", "Image"), "Bob", 2).unwrap();
    let all = get_all_aliases(&store).unwrap();
    assert_eq!(all.len(), 2);
    let a = find(&all, "a").unwrap();
    assert_eq!(a.content, "one");
    assert!(matches!(a.typ, AliasType::Text));
    let b = find(&all, "b").unwrap();
    assert_eq!(b.content, "two");
    assert!(matches!(b.typ, AliasType::Image));
}

#[test]
fn provisioning_twice_keeps_one_row_and_a_stable_created_at() {
    let mut store = fresh_store();
    create_user_if_missing_at(&mut store, "alice", 100).unwrap();
    create_user_if_missing_at(&mut store, "alice", 999).unwrap();
    let users = get_all_users(&store).unwrap();
    assert_eq!(users.len(), 1);
    assert_eq!(users[0].username, "alice");
    assert_eq!(users[0].created_at, 100);
    let u = get_user_by_username(&store, "alice").unwrap();
    assert_eq!(u.created_at, 100);
}

#[test]
fn provisioning_hook_with_the_clock_is_idempotent() {
    let mut store = fresh_store();
    create_user_if_missing(&mut store, "bob").unwrap();
    create_user_if_missing(&mut store, "bob").unwrap();
    assert_eq!(get_all_users(&store).unwrap().len(), 1);
    assert!(user_exists(&store, "bob").unwrap());
    assert!(!user_exists(&store, "carol").unwrap());
}

#[test]
fn user_directory_lists_every_user_once() {
    let mut store = fresh_store();
    create_user_if_missing_at(&mut store, "alice", 1).unwrap();
    create_user_if_missing_at(&mut store, "bob", 2).unwrap();
    let users = get_all_users(&store).unwrap();
    assert_eq!(users.len(), 2);
    assert!(users.iter().any(|u| u.username == "alice" && u.created_at == 1));
    assert!(users.iter().any(|u| u.username == "bob" && u.created_at == 2));
}

#[test]
fn author_and_creation_time_survive_updates() {
    let mut store = fresh_store();
    post_alias(&mut store, &post("fb", "foobar", "Text"), "Alice", 7).unwrap();
    let patch = PutAlias { content: Some("new".to_string()), typ: Some("Gif".to_string()) };
    put_alias_by_name(&mut store, "fb", &patch).unwrap();
    let alias = get_by_name(&store, "fb").unwrap();
    assert_eq!(alias.author, "Alice");
    assert_eq!(alias.created_at, 7);
}

#[test]
fn get_missing_user_is_not_found() {
    let store = fresh_store();
    assert_eq!(get_user_by_username(&store, "ghost"), Err(Error::NotFound));
}

#[test]
fn provisioned_user_starts_with_the_default_theme() {
    let mut store = fresh_store();
    create_user_if_missing_at(&mut store, "alice", 100).unwrap();
    let settings = get_settings(&store, "alice").unwrap();
    assert_eq!(settings.color_theme, "light-theme");
}

#[test]
fn get_settings_of_missing_user_is_not_found() {
    let store = fresh_store();
    assert_eq!(get_settings(&store, "ghost"), Err(Error::NotFound));
}

#[test]
fn put_settings_trims_and_stores_the_theme() {
    let mut store = fresh_store();
    create_user_if_missing_at(&mut store, "alice", 100).unwrap();
    let patch = PutSettings { color_theme: Some("  dark-theme  ".to_string()) };
    assert_eq!(put_settings(&mut store, "alice", &patch), Ok(()));
    assert_eq!(get_settings(&store, "alice").unwrap().color_theme, "dark-theme");
}

#[test]
fn put_settings_with_no_present_fields_succeeds_and_changes_nothing() {
    let mut store = fresh_store();
    create_user_if_missing_at(&mut store, "alice", 100).unwrap();
    assert_eq!(put_settings(&mut store, "alice", &PutSettings { color_theme: None }), Ok(()));
    let patch = PutSettings { color_theme: Some("   ".to_string()) };
    assert_eq!(put_settings(&mut store, "alice", &patch), Ok(()));
    assert_eq!(get_settings(&store, "alice").unwrap().color_theme, "light-theme");
}

#[test]
fn put_settings_for_missing_user_is_not_found() {
    let mut store = fresh_store();
    let patch = PutSettings { color_theme: Some("dark".to_string()) };
    assert_eq!(put_settings(&mut store, "ghost", &patch), Err(Error::NotFound));
}

#[test]
fn creation_time_beyond_the_store_integer_range_is_an_internal_error() {
    let mut store = fresh_store();
    let r = post_alias(&mut store, &post("fb", "foobar", "Text"), "Alice", u64::MAX);
    assert_eq!(r, Err(Error::InternalError));
    assert_eq!(get_all_aliases(&store).unwrap().len(), 0);
}

#[test]
fn migration_is_idempotent_across_reinitialization() {
    let path = "/tmp/xdd_reinit_test.db";
    let conn = rusqlite::Connection::open(path).unwrap();
    conn.execute_batch(
        "DROP TABLE IF EXISTS aliases; DROP TABLE IF EXISTS users; DROP TABLE IF EXISTS alias_types;",
    )
    .unwrap();
    let mut store = Store::init(conn).unwrap();
    post_alias(&mut store, &post("fb", "foobar", "Text"), "Alice", 7).unwrap();
    drop(store);
    let store = Store::init(rusqlite::Connection::open(path).unwrap()).unwrap();
    let alias = get_by_name(&store, "fb").unwrap();
    assert_eq!(alias.content, "foobar");
    assert_eq!(get_all_aliases(&store).unwrap().len(), 1);
}
