//! The commit formatter: deterministic rendering of the final commit title
//! from a resolved configuration and the user's selections.

use vstd::prelude::*;
use vstd::string::{StrSliceExecFns, StringExecFns};

use crate::config::GitmojiConfig;
use crate::model::{ConventionalEmojiCommit, EmojiFormat, Gitmoji};

verus! {

/// A user's selections for a commit under the default specification.
pub struct DefaultCommitParams {
    pub gitmoji: Gitmoji,
    pub scope: Option<String>,
    pub title: String,
    pub description: Option<String>,
}

/// A user's selections for a commit under the conventional-emoji-commit
/// specification.
pub struct ConventionalEmojiCommitParams {
    pub emoji: ConventionalEmojiCommit,
    pub commit_type: String,
    pub scope: Option<String>,
    pub title: String,
    pub description: Option<String>,
}

/// A rendered commit title together with the optional body.
pub struct CommitTitleDescription {
    pub title: String,
    pub description: Option<String>,
}

/// The emoji token that appears in the title: the short-code or the glyph,
/// as the configured format directs. This substitution is orthogonal to the
/// specification.
pub open spec fn sp_emoji_token(format: EmojiFormat, code: Seq<char>, emoji: Seq<char>) -> Seq<
    char,
> {
    match format {
        EmojiFormat::UseCode => code,
        EmojiFormat::UseEmoji => emoji,
    }
}

/// The default-specification title: the token, a space, then the scope (if
/// present) immediately followed by the title. No separator is inserted
/// between scope and title beyond what the scope string itself carries.
pub open spec fn sp_default_title(
    token: Seq<char>,
    scope: Option<Seq<char>>,
    title: Seq<char>,
) -> Seq<char> {
    match scope {
        Some(s) => token + " "@ + s + title,
        None => token + " "@ + title,
    }
}

/// The conventional-emoji-commit title: the token, the type keyword, the
/// scope in parentheses when present and non-empty, then ": " and the title.
pub open spec fn sp_conventional_title(
    token: Seq<char>,
    commit_type: Seq<char>,
    scope: Option<Seq<char>>,
    title: Seq<char>,
) -> Seq<char> {
    match scope {
        Some(s) => if s.len() > 0 {
            token + commit_type + "("@ + s + "): "@ + title
        } else {
            token + commit_type + ": "@ + title
        },
        None => token + commit_type + ": "@ + title,
    }
}

/// Render a default-specification title from its parts.
pub fn default_commit_title(emoji_token: &str, scope: Option<&str>, title: &str) -> (r: String)
    ensures
        r@ == sp_default_title(emoji_token@, scope.deep_view(), title@),
{
    let mut r = String::new();
    r.append(emoji_token);
    r.append(" ");
    match scope {
        Some(s) => r.append(s),
        None => (),
    }
    r.append(title);
    proof {
        assert(r@ =~= sp_default_title(emoji_token@, scope.deep_view(), title@));
    }
    r
}

/// Render a conventional-emoji-commit title from its parts.
pub fn conventional_commit_title(
    emoji_token: &str,
    commit_type: &str,
    scope: Option<&str>,
    title: &str,
) -> (r: String)
    ensures
        r@ == sp_conventional_title(emoji_token@, commit_type@, scope.deep_view(), title@),
{
    let mut r = String::new();
    r.append(emoji_token);
    r.append(commit_type);
    match scope {
        Some(s) => {
            if !s.is_empty() {
                r.append("(");
                r.append(s);
                r.append("): ");
            } else {
                r.append(": ");
            }
        },
        None => r.append(": "),
    }
    r.append(title);
    proof {
        assert(r@ =~= sp_conventional_title(emoji_token@, commit_type@, scope.deep_view(), title@));
    }
    r
}

/// Resolve the emoji token of a default-specification entry under the
/// configured format.
pub fn resolve_gitmoji_token<'a>(config: &GitmojiConfig, gitmoji: &'a Gitmoji) -> (r: &'a str)
    ensures
        r@ == sp_emoji_token(config@.format, gitmoji@.code, gitmoji@.emoji),
{
    match config.format() {
        EmojiFormat::UseCode => gitmoji.code(),
        EmojiFormat::UseEmoji => gitmoji.emoji(),
    }
}

/// Resolve the emoji token of a conventional-commit entry under the
/// configured format.
pub fn resolve_conventional_token<'a>(
    config: &GitmojiConfig,
    emoji: &'a ConventionalEmojiCommit,
) -> (r: &'a str)
    ensures
        r@ == sp_emoji_token(config@.format, emoji@.code, emoji@.emoji),
{
    match config.format() {
        EmojiFormat::UseCode => emoji.code(),
        EmojiFormat::UseEmoji => emoji.emoji(),
    }
}

/// Render the full title and body for a default-specification commit.
pub fn default_commit_message(config: &GitmojiConfig, params: DefaultCommitParams) -> (r:
    CommitTitleDescription)
    ensures
        r.title@ == sp_default_title(
            sp_emoji_token(config@.format, params.gitmoji@.code, params.gitmoji@.emoji),
            params.scope.deep_view(),
            params.title@,
        ),
        r.description == params.description,
{
    let token = resolve_gitmoji_token(config, &params.gitmoji);
    let title = default_commit_title(
        token,
        match &params.scope {
            Some(s) => Some(s.as_str()),
            None => None,
        },
        params.title.as_str(),
    );
    CommitTitleDescription { title, description: params.description }
}

/// Render the full title and body for a conventional-emoji-commit commit.
pub fn conventional_commit_message(
    config: &GitmojiConfig,
    params: ConventionalEmojiCommitParams,
) -> (r: CommitTitleDescription)
    ensures
        r.title@ == sp_conventional_title(
            sp_emoji_token(config@.format, params.emoji@.code, params.emoji@.emoji),
            params.commit_type@,
            params.scope.deep_view(),
            params.title@,
        ),
        r.description == params.description,
{
    let token = resolve_conventional_token(config, &params.emoji);
    let title = conventional_commit_title(
        token,
        params.commit_type.as_str(),
        match &params.scope {
            Some(s) => Some(s.as_str()),
            None => None,
        },
        params.title.as_str(),
    );
    CommitTitleDescription { title, description: params.description }
}

/// The text written at the head of a commit-message file by the prepare
/// hook: the title, a blank line, then the body (followed by its own
/// newline) when present. Whatever the file already held is appended after
/// this prefix by the caller.
pub open spec fn sp_commit_message_file_prefix(
    title: Seq<char>,
    description: Option<Seq<char>>,
) -> Seq<char> {
    match description {
        Some(d) => title + "\n\n"@ + d + "\n"@,
        None => title + "\n\n"@,
    }
}

/// Render the head of a commit-message file for the prepare hook.
pub fn commit_message_file_prefix(title: &str, description: Option<&str>) -> (r: String)
    ensures
        r@ == sp_commit_message_file_prefix(title@, description.deep_view()),
{
    let mut r = String::new();
    r.append(title);
    r.append("\n\n");
    match description {
        Some(d) => {
            r.append(d);
            r.append("\n");
        },
        None => (),
    }
    proof {
        assert(r@ =~= sp_commit_message_file_prefix(title@, description.deep_view()));
    }
    r
}

/// The column width a conventional-commit listing aligns descriptions to:
/// the longest type keyword among the first `n` entries, or 25 when the
/// catalog is empty.
pub open spec fn sp_width_up_to(s: Seq<crate::model::ConventionalEmojiCommitV>, n: int) -> int
    decreases n,
{
    if n <= 0 {
        0
    } else if s[n - 1].commit_type.len() > sp_width_up_to(s, n - 1) {
        s[n - 1].commit_type.len() as int
    } else {
        sp_width_up_to(s, n - 1)
    }
}

/// The column width used when listing a conventional-commit catalog.
pub open spec fn sp_max_commit_type_width(s: Seq<crate::model::ConventionalEmojiCommitV>) -> int {
    if s.len() == 0 {
        25
    } else {
        sp_width_up_to(s, s.len() as int)
    }
}

/// Compute the listing column width: the longest type keyword, or 25 for an
/// empty catalog.
pub fn max_commit_type_width(emojis: &Vec<ConventionalEmojiCommit>) -> (r: usize)
    ensures
        r == sp_max_commit_type_width(emojis.deep_view()),
    {
    if emojis.len() == 0 {
        return 25;
    }
    let mut w: usize = 0;
    let mut i: usize = 0;
    while i < emojis.len()
        invariant
            i <= emojis.len(),
            emojis.len() > 0,
            w as int == sp_width_up_to(emojis.deep_view(), i as int),
        decreases emojis.len() - i,
    {
        let len = emojis[i].commit_type().unicode_len();
        if len > w {
            w = len;
        }
        i = i + 1;
    }
    w
}

} // verus!
