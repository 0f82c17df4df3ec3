//! Configuration model, synchronization and commit-title formatting for a
//! gitmoji-style commit helper.
//!
//! The library owns the layered configuration (a persisted global
//! configuration overridden field-by-field by an optional local one), the
//! text format of the persisted configuration file, the parsing of remotely
//! fetched emoji catalogs, and the deterministic rendering of commit titles.
//! All I/O (terminal, file system, network, git) lives outside the library;
//! callers hand in plain values and get plain values back.

pub mod clock;
pub mod config;
pub mod error;
pub mod format;
pub mod model;
pub mod outside;
pub mod text;
pub mod toml_io;
pub mod update;

pub use clock::Timestamp;
pub use clock::now_timestamp;
pub use config::GitmojiConfig;
pub use config::LocalGitmojiConfig;
pub use config::build_config;
pub use config::default_url_for;
pub use config::validate_url;
pub use error::Error;
pub use format::CommitTitleDescription;
pub use format::conventional_commit_message;
pub use format::default_commit_message;
pub use format::ConventionalEmojiCommitParams;
pub use format::DefaultCommitParams;
pub use model::CommitSpecification;
pub use model::ConventionalEmojiCommit;
pub use model::EmojiFormat;
pub use model::Gitmoji;
pub use toml_io::config_from_toml;
pub use toml_io::config_to_toml;
pub use update::update_conventional_emoji_commits;
pub use update::update_gitmojis;

use vstd::prelude::*;

verus! {

/// The default URL used for catalog updates under the default specification.
pub const DEFAULT_URL: &'static str = "https://gitmoji.dev/api/gitmojis";

/// The default URL for conventional-emoji-commit catalog updates.
pub const CONVENTIONAL_EMOJI_COMMITS_DEFAULT_URL: &'static str = "https://gist.githubusercontent.com/mluettecke/3f84a6a5c1c53ff6412828e601cd60ca/raw/9390c31c733ded384f65d37e063e041075016cdc/conventional-emoji-commits-types.json";

/// File name of the persisted global configuration.
pub const CONFIG_FILE: &'static str = "gitmojis.toml";

/// Default relative path of the local override file.
pub const CONFIG_LOCAL_FILE: &'static str = "./.gitmojis.toml";

/// Name of the repository-scoped key holding the local override path.
pub const GIT_CONFIG_LOCAL_FILE: &'static str = "gitmoji.file";

} // verus!
