use gitmoji_rs::clock::Timestamp;
use gitmoji_rs::config::{build_config, default_url_for, validate_url};
use gitmoji_rs::format::{
    commit_message_file_prefix, conventional_commit_title, default_commit_title,
    max_commit_type_width,
};
use gitmoji_rs::toml_io::{config_from_toml, config_to_toml, gitmoji_to_toml, local_config_from_toml};
use gitmoji_rs::update::{update_conventional_emoji_commits, update_gitmojis};
use gitmoji_rs::{
    CommitSpecification, ConventionalEmojiCommit, EmojiFormat, Error, Gitmoji, GitmojiConfig,
    LocalGitmojiConfig, CONVENTIONAL_EMOJI_COMMITS_DEFAULT_URL, DEFAULT_URL,
};

fn sample_gitmoji() -> Gitmoji {
    Gitmoji::new(
        String::from("\u{1F680}"),
        String::from("rocket"),
        Some(String::from("Initialize")),
        Some(String::from("Bla bla")),
    )
}

fn sample_timestamp() -> Timestamp {
    Timestamp::new(2024, 1, 2, 3, 4, 5).unwrap()
}

#[test]
fn should_serde_gitmoji() {
    let gitmoji = sample_gitmoji();

    // Serialize: the entry as it stands in the persisted catalog.
    let toml = gitmoji_to_toml(&gitmoji);
    assert!(toml.starts_with("[[gitmojis]]\n"));

    // Deserialize: a config holding only this entry round-trips it.
    let mut config = GitmojiConfig::default();
    config.set_gitmojis(vec![gitmoji.clone()], sample_timestamp());
    let text = config_to_toml(&config);
    let result = config_from_toml(&text).unwrap();
    assert_eq!(result.gitmojis().len(), 1);
    assert!(result.gitmojis()[0] == gitmoji);
}

#[test]
fn should_serde_config() {
    let mut config = GitmojiConfig::default();
    config.set_gitmojis(vec![sample_gitmoji()], sample_timestamp());

    // Serialize
    let toml = config_to_toml(&config);

    // Deserialize
    let result = config_from_toml(&toml).unwrap();

    assert!(result == config);
}

#[test]
fn config_roundtrip_with_special_characters() {
    let mut config = GitmojiConfig::new(
        true,
        CommitSpecification::ConventionalEmojiCommits,
        EmojiFormat::UseEmoji,
        true,
        true,
        String::from("https://example.com/x.json"),
    );
    let nasty = Gitmoji::new(
        String::from("a\"b\\c\nd\te\rf"),
        String::from(":art:"),
        None,
        Some(String::from("quotes \" and \\ backslashes")),
    );
    let conv = ConventionalEmojiCommit::new(
        String::from("\u{1F3A8}"),
        String::from(":art:"),
        String::from("feat"),
        None,
    );
    config.set_gitmojis(vec![nasty], sample_timestamp());
    config.set_conventional_commit_emojis(vec![conv], sample_timestamp());
    let toml = config_to_toml(&config);
    let result = config_from_toml(&toml).unwrap();
    assert!(result == config);
}

#[test]
fn config_roundtrip_default_is_identity() {
    let config = GitmojiConfig::default();
    let toml = config_to_toml(&config);
    let result = config_from_toml(&toml).unwrap();
    assert!(result == config);
    assert!(result.last_update().is_none());
    assert_eq!(result.update_url(), DEFAULT_URL);
}

#[test]
fn config_from_toml_rejects_garbage() {
    assert_eq!(config_from_toml("not a config"), Err(Error::ParseError));
    assert_eq!(config_from_toml(""), Err(Error::ParseError));
}

#[test]
fn local_override_parses_fields() {
    let text = "auto_add = true\nformat = \"UseEmoji\"\n";
    let local = local_config_from_toml(text).unwrap();
    assert_eq!(local.auto_add(), Some(true));
    assert_eq!(local.format(), Some(EmojiFormat::UseEmoji));
    assert_eq!(local.signed(), None);
    assert_eq!(local.scope(), None);
    assert!(local.gitmojis().is_none());
}

#[test]
fn local_override_empty_text_is_all_absent() {
    let local = local_config_from_toml("").unwrap();
    assert!(local == LocalGitmojiConfig::default());
}

#[test]
fn local_override_empty_catalog_differs_from_absent() {
    let local = local_config_from_toml("gitmojis = []\n").unwrap();
    let overriding = local.gitmojis().unwrap();
    assert!(overriding.is_empty());
}

#[test]
fn local_override_rejects_malformed_text() {
    assert_eq!(
        local_config_from_toml("auto_add = maybe\n"),
        Err(Error::ParseError)
    );
}

#[test]
fn merge_with_default_override_changes_nothing() {
    let mut config = GitmojiConfig::default();
    let before = config.clone();
    config.merge(&LocalGitmojiConfig::default());
    assert!(config == before);
}

#[test]
fn merge_present_fields_win() {
    let mut config = GitmojiConfig::default();
    assert!(!config.auto_add());
    let override_gitmojis = vec![sample_gitmoji()];
    let local = LocalGitmojiConfig::new(
        Some(true),
        Some(CommitSpecification::ConventionalEmojiCommits),
        Some(EmojiFormat::UseEmoji),
        Some(true),
        Some(true),
        Some(override_gitmojis.clone()),
        None,
    );
    config.merge(&local);
    assert!(config.auto_add());
    assert!(*config.format() == EmojiFormat::UseEmoji);
    assert!(config.signed());
    assert_eq!(config.gitmojis().len(), 1);
    // the override's specification and scope are deliberately ignored
    assert!(config.specification() == CommitSpecification::Default);
    assert!(!config.scope());
}

#[test]
fn default_title_with_scope() {
    let title = default_commit_title(":sparkles:", Some("core/"), "add x");
    assert_eq!(title, ":sparkles: core/add x");
}

#[test]
fn default_title_without_scope() {
    let title = default_commit_title(":sparkles:", None, "add x");
    assert_eq!(title, ":sparkles: add x");
}

#[test]
fn conventional_title_with_scope() {
    let title = conventional_commit_title(":art:", "feat", Some("ui"), "new button");
    assert_eq!(title, ":art:feat(ui): new button");
}

#[test]
fn conventional_title_without_scope() {
    let title = conventional_commit_title(":art:", "feat", None, "new button");
    assert_eq!(title, ":art:feat: new button");
}

#[test]
fn conventional_title_with_empty_scope() {
    let title = conventional_commit_title(":art:", "feat", Some(""), "new button");
    assert_eq!(title, ":art:feat: new button");
}

#[test]
fn url_validation_accepts_and_rejects() {
    assert_eq!(validate_url("not a url"), Err(Error::InvalidUrl));
    assert!(validate_url("https://example.com/x.json").is_ok());
}

#[test]
fn set_update_url_normalizes_through_the_url_parser() {
    let mut config = GitmojiConfig::default();
    config.set_update_url("https://example.com").unwrap();
    // the stored URL is the parser's serialization, not the raw input
    assert_eq!(config.update_url(), "https://example.com/");
    let before = config.clone();
    assert_eq!(config.set_update_url("not a url"), Err(Error::InvalidUrl));
    assert!(config == before);
}

#[test]
fn build_config_forces_scope_for_conventional() {
    let config = build_config(
        false,
        CommitSpecification::ConventionalEmojiCommits,
        EmojiFormat::UseCode,
        false,
        false,
        "https://example.com/x.json",
    )
    .unwrap();
    assert!(config.scope());
    let config = build_config(
        false,
        CommitSpecification::Default,
        EmojiFormat::UseCode,
        false,
        false,
        "https://example.com/x.json",
    )
    .unwrap();
    assert!(!config.scope());
}

#[test]
fn build_config_rejects_invalid_url() {
    let result = build_config(
        false,
        CommitSpecification::Default,
        EmojiFormat::UseCode,
        false,
        false,
        "not a url",
    );
    assert!(matches!(result, Err(Error::InvalidUrl)));
}

#[test]
fn default_urls_per_specification() {
    assert_eq!(default_url_for(CommitSpecification::Default), DEFAULT_URL);
    assert_eq!(
        default_url_for(CommitSpecification::ConventionalEmojiCommits),
        CONVENTIONAL_EMOJI_COMMITS_DEFAULT_URL
    );
}

#[test]
fn update_failure_on_status_leaves_config_unchanged() {
    let mut config = GitmojiConfig::default();
    let before = config.clone();
    let result = update_gitmojis(
        &mut config,
        Some((404, Some(vec![sample_gitmoji()]))),
        sample_timestamp(),
    );
    assert_eq!(result, Err(Error::NetworkError));
    assert!(config == before);
    assert!(config.last_update().is_none());
    assert!(config.gitmojis().is_empty());
}

#[test]
fn update_failure_on_bad_body_leaves_config_unchanged() {
    let mut config = GitmojiConfig::default();
    let before = config.clone();
    let result = update_gitmojis(&mut config, Some((200, None)), sample_timestamp());
    assert_eq!(result, Err(Error::ParseError));
    assert!(config == before);
}

#[test]
fn update_failure_on_transport_leaves_config_unchanged() {
    let mut config = GitmojiConfig::default();
    let before = config.clone();
    let result = update_gitmojis(&mut config, None, sample_timestamp());
    assert_eq!(result, Err(Error::NetworkError));
    assert!(config == before);
}

#[test]
fn update_success_replaces_catalog_and_sets_timestamp() {
    let mut config = GitmojiConfig::default();
    let now = sample_timestamp();
    let result = update_gitmojis(&mut config, Some((200, Some(vec![sample_gitmoji()]))), now);
    assert!(result.is_ok());
    assert_eq!(config.gitmojis().len(), 1);
    assert!(config.gitmojis()[0] == sample_gitmoji());
    assert_eq!(config.last_update(), Some(now));
}

#[test]
fn update_conventional_failure_and_success() {
    let mut config = GitmojiConfig::default();
    let before = config.clone();
    let now = sample_timestamp();
    assert_eq!(
        update_conventional_emoji_commits(&mut config, Some((500, None)), now),
        Err(Error::NetworkError)
    );
    assert!(config == before);
    let entry = ConventionalEmojiCommit::new(
        String::from("\u{1F3A8}"),
        String::from(":art:"),
        String::from("feat"),
        Some(String::from("A feature")),
    );
    let result =
        update_conventional_emoji_commits(&mut config, Some((200, Some(vec![entry.clone()]))), now);
    assert!(result.is_ok());
    assert_eq!(config.conventional_commit_emojis().len(), 1);
    assert!(config.conventional_commit_emojis()[0] == entry);
    assert_eq!(config.last_update(), Some(now));
}

#[test]
fn timestamp_rejects_out_of_range_components() {
    assert!(Timestamp::new(2024, 13, 1, 0, 0, 0).is_none());
    assert!(Timestamp::new(2024, 0, 1, 0, 0, 0).is_none());
    assert!(Timestamp::new(2024, 1, 1, 24, 0, 0).is_none());
    assert!(Timestamp::new(10000, 1, 1, 0, 0, 0).is_none());
    assert!(Timestamp::new(9999, 12, 31, 23, 59, 59).is_some());
}

#[test]
fn timestamp_round_trips_through_the_config_file() {
    let mut config = GitmojiConfig::default();
    config.set_gitmojis(Vec::new(), Timestamp::new(2023, 12, 31, 23, 59, 58).unwrap());
    let toml = config_to_toml(&config);
    assert!(toml.contains("last_update = \"2023-12-31T23:59:58Z\"\n"));
    let result = config_from_toml(&toml).unwrap();
    assert!(result == config);
}

#[test]
fn display_strings() {
    let g = sample_gitmoji();
    assert_eq!(g.display_string(), "\u{1F680} rocket Initialize - Bla bla");
    let g2 = Gitmoji::new(String::from("x"), String::from("y"), None, None);
    assert_eq!(g2.display_string(), "x y  - ");
    let e = ConventionalEmojiCommit::new(
        String::from("\u{1F3A8}"),
        String::from(":art:"),
        String::from("feat"),
        Some(String::from("A feature")),
    );
    assert_eq!(e.display_string(), "\u{1F3A8} feat - A feature");
}

#[test]
fn listing_width_is_longest_type_or_default() {
    assert_eq!(max_commit_type_width(&Vec::new()), 25);
    let short = ConventionalEmojiCommit::new(
        String::from("a"),
        String::from("b"),
        String::from("fix"),
        None,
    );
    let long = ConventionalEmojiCommit::new(
        String::from("a"),
        String::from("b"),
        String::from("refactor"),
        None,
    );
    assert_eq!(max_commit_type_width(&vec![short, long]), 8);
}

#[test]
fn hook_prefix_layout() {
    assert_eq!(commit_message_file_prefix("t", Some("d")), "t\n\nd\n");
    assert_eq!(commit_message_file_prefix("t", None), "t\n\n");
}

#[test]
fn error_messages_name_each_failure() {
    assert_eq!(Error::MissingConfig.message(), "no configuration found");
    assert_eq!(Error::ParseError.message(), "cannot parse data");
    assert_eq!(Error::InvalidUrl.message(), "invalid URL");
    assert_eq!(Error::NetworkError.message(), "network failure");
    assert_eq!(Error::StorageError.message(), "storage failure");
    assert_eq!(Error::GitCommandFailure.message(), "git command failed");
}

#[test]
fn now_timestamp_components_are_in_range() {
    let t = gitmoji_rs::now_timestamp();
    assert!(t.year <= 9999);
    assert!((1..=12).contains(&t.month));
    assert!((1..=31).contains(&t.day));
    assert!(t.hour < 24);
    assert!(t.minute < 60);
    assert!(t.second < 60);
}
