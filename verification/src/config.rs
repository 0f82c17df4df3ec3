//! The layered configuration: the persisted global configuration, the
//! optional per-repository local override, and the merge that combines them.

use vstd::prelude::*;
use vstd::string::StringExecFns;

use crate::clock::Timestamp;
use crate::error::Error;
use crate::model::{
    CommitSpecification, ConventionalEmojiCommit, ConventionalEmojiCommitV, EmojiFormat, Gitmoji,
    GitmojiV,
};
use crate::outside::parse_url;
use crate::outside::url_parse;
use crate::{CONVENTIONAL_EMOJI_COMMITS_DEFAULT_URL, DEFAULT_URL};

verus! {

/// The mathematical value of a `GitmojiConfig`.
#[verifier::ext_equal]
pub ghost struct GitmojiConfigV {
    pub auto_add: bool,
    pub specification: CommitSpecification,
    pub format: EmojiFormat,
    pub signed: bool,
    pub scope: bool,
    pub update_url: Seq<char>,
    pub last_update: Option<Timestamp>,
    pub gitmojis: Seq<GitmojiV>,
    pub conventional_commit_emojis: Seq<ConventionalEmojiCommitV>,
}

/// The durable global configuration: the single source of truth.
#[derive(Debug, PartialEq, Eq)]
pub struct GitmojiConfig {
    auto_add: bool,
    specification: CommitSpecification,
    format: EmojiFormat,
    signed: bool,
    scope: bool,
    update_url: String,
    last_update: Option<Timestamp>,
    gitmojis: Vec<Gitmoji>,
    conventional_commit_emojis: Vec<ConventionalEmojiCommit>,
}

impl View for GitmojiConfig {
    type V = GitmojiConfigV;

    closed spec fn view(&self) -> GitmojiConfigV {
        GitmojiConfigV {
            auto_add: self.auto_add,
            specification: self.specification,
            format: self.format,
            signed: self.signed,
            scope: self.scope,
            update_url: self.update_url@,
            last_update: self.last_update,
            gitmojis: self.gitmojis.deep_view(),
            conventional_commit_emojis: self.conventional_commit_emojis.deep_view(),
        }
    }
}

/// The mathematical value of a `LocalGitmojiConfig`.
#[verifier::ext_equal]
pub ghost struct LocalGitmojiConfigV {
    pub auto_add: Option<bool>,
    pub specification: Option<CommitSpecification>,
    pub format: Option<EmojiFormat>,
    pub signed: Option<bool>,
    pub scope: Option<bool>,
    pub gitmojis: Option<Seq<GitmojiV>>,
    pub conventional_commit_emojis: Option<Seq<ConventionalEmojiCommitV>>,
}

/// The per-repository override: every field optional, absence meaning
/// "defer to the global configuration". It is read, never written, by this
/// system.
#[derive(Debug, PartialEq, Eq)]
pub struct LocalGitmojiConfig {
    auto_add: Option<bool>,
    specification: Option<CommitSpecification>,
    format: Option<EmojiFormat>,
    signed: Option<bool>,
    scope: Option<bool>,
    gitmojis: Option<Vec<Gitmoji>>,
    conventional_commit_emojis: Option<Vec<ConventionalEmojiCommit>>,
}

impl View for LocalGitmojiConfig {
    type V = LocalGitmojiConfigV;

    closed spec fn view(&self) -> LocalGitmojiConfigV {
        LocalGitmojiConfigV {
            auto_add: self.auto_add,
            specification: self.specification,
            format: self.format,
            signed: self.signed,
            scope: self.scope,
            gitmojis: self.gitmojis.deep_view(),
            conventional_commit_emojis: self.conventional_commit_emojis.deep_view(),
        }
    }
}

/// A configuration value whose parts are in range: any recorded refresh
/// time has calendar components in range.
pub open spec fn sp_config_wf(c: GitmojiConfigV) -> bool {
    match c.last_update {
        Some(t) => t.wf(),
        None => true,
    }
}

/// The all-absent local override: merging it changes nothing.
pub open spec fn sp_default_local() -> LocalGitmojiConfigV {
    LocalGitmojiConfigV {
        auto_add: None,
        specification: None,
        format: None,
        signed: None,
        scope: None,
        gitmojis: None,
        conventional_commit_emojis: None,
    }
}

/// What merging a local override into a global configuration yields: each of
/// `auto_add`, `format`, `signed` and the two catalogs is replaced wholesale
/// when the override carries it; the override's `specification` and `scope`
/// fields are deliberately ignored, and `update_url` and `last_update` are
/// global-only concerns.
pub open spec fn sp_merge(g: GitmojiConfigV, l: LocalGitmojiConfigV) -> GitmojiConfigV {
    GitmojiConfigV {
        auto_add: if l.auto_add is Some {
            l.auto_add->0
        } else {
            g.auto_add
        },
        specification: g.specification,
        format: if l.format is Some {
            l.format->0
        } else {
            g.format
        },
        signed: if l.signed is Some {
            l.signed->0
        } else {
            g.signed
        },
        scope: g.scope,
        update_url: g.update_url,
        last_update: g.last_update,
        gitmojis: if l.gitmojis is Some {
            l.gitmojis->0
        } else {
            g.gitmojis
        },
        conventional_commit_emojis: if l.conventional_commit_emojis is Some {
            l.conventional_commit_emojis->0
        } else {
            g.conventional_commit_emojis
        },
    }
}

/// Law: merging the all-absent local override is the identity.
pub proof fn lemma_merge_identity(g: GitmojiConfigV)
    ensures
        sp_merge(g, sp_default_local()) == g,
{
    assert(sp_merge(g, sp_default_local()) =~= g);
}

/// Law: a field present in the local override fully determines the merged
/// field, whatever the global value was.
pub proof fn lemma_merge_override_wins(g: GitmojiConfigV, l: LocalGitmojiConfigV)
    ensures
        l.auto_add is Some ==> sp_merge(g, l).auto_add == l.auto_add->0,
        l.format is Some ==> sp_merge(g, l).format == l.format->0,
        l.signed is Some ==> sp_merge(g, l).signed == l.signed->0,
        l.gitmojis is Some ==> sp_merge(g, l).gitmojis == l.gitmojis->0,
        l.conventional_commit_emojis is Some ==> sp_merge(g, l).conventional_commit_emojis
            == l.conventional_commit_emojis->0,
{
}

/// Copy a catalog of gitmojis, preserving its value.
fn clone_gitmoji_vec(v: &Vec<Gitmoji>) -> (r: Vec<Gitmoji>)
    ensures
        r.deep_view() == v.deep_view(),
{
    let mut r: Vec<Gitmoji> = Vec::new();
    let mut i: usize = 0;
    while i < v.len()
        invariant
            i <= v.len(),
            r@.len() == i,
            forall|j: int| 0 <= j < i ==> r@[j]@ == v@[j]@,
        decreases v.len() - i,
    {
        r.push(v[i].clone());
        i = i + 1;
    }
    proof {
        assert(r.deep_view() =~= v.deep_view());
    }
    r
}

/// Copy a catalog of conventional-commit emojis, preserving its value.
fn clone_conventional_vec(v: &Vec<ConventionalEmojiCommit>) -> (r: Vec<ConventionalEmojiCommit>)
    ensures
        r.deep_view() == v.deep_view(),
{
    let mut r: Vec<ConventionalEmojiCommit> = Vec::new();
    let mut i: usize = 0;
    while i < v.len()
        invariant
            i <= v.len(),
            r@.len() == i,
            forall|j: int| 0 <= j < i ==> r@[j]@ == v@[j]@,
        decreases v.len() - i,
    {
        r.push(v[i].clone());
        i = i + 1;
    }
    proof {
        assert(r.deep_view() =~= v.deep_view());
    }
    r
}

/// The value of the freshly created configuration `GitmojiConfig::new`
/// returns: the given fields, no catalogs, no refresh timestamp yet.
pub open spec fn sp_new_config(
    auto_add: bool,
    specification: CommitSpecification,
    format: EmojiFormat,
    signed: bool,
    scope: bool,
    update_url: Seq<char>,
) -> GitmojiConfigV {
    GitmojiConfigV {
        auto_add,
        specification,
        format,
        signed,
        scope,
        update_url,
        last_update: None,
        gitmojis: Seq::empty(),
        conventional_commit_emojis: Seq::empty(),
    }
}

/// The default configuration value.
pub open spec fn sp_default_config() -> GitmojiConfigV {
    sp_new_config(
        false,
        CommitSpecification::Default,
        EmojiFormat::UseCode,
        false,
        false,
        DEFAULT_URL@,
    )
}

impl GitmojiConfig {
    /// Create a new `GitmojiConfig` with empty catalogs and no refresh
    /// timestamp.
    pub fn new(
        auto_add: bool,
        specification: CommitSpecification,
        format: EmojiFormat,
        signed: bool,
        scope: bool,
        update_url: String,
    ) -> (r: GitmojiConfig)
        ensures
            r@ == sp_new_config(auto_add, specification, format, signed, scope, update_url@),
    {
        let r = GitmojiConfig {
            auto_add,
            specification,
            format,
            signed,
            scope,
            update_url,
            last_update: None,
            gitmojis: Vec::new(),
            conventional_commit_emojis: Vec::new(),
        };
        proof {
            assert(r@ =~= sp_new_config(
                auto_add,
                specification,
                format,
                signed,
                scope,
                update_url@,
            ));
        }
        r
    }

    /// Assemble a configuration from all of its parts.
    pub(crate) fn from_parts(
        auto_add: bool,
        specification: CommitSpecification,
        format: EmojiFormat,
        signed: bool,
        scope: bool,
        update_url: String,
        last_update: Option<Timestamp>,
        gitmojis: Vec<Gitmoji>,
        conventional_commit_emojis: Vec<ConventionalEmojiCommit>,
    ) -> (r: GitmojiConfig)
        ensures
            r@ == (GitmojiConfigV {
                auto_add,
                specification,
                format,
                signed,
                scope,
                update_url: update_url@,
                last_update,
                gitmojis: gitmojis.deep_view(),
                conventional_commit_emojis: conventional_commit_emojis.deep_view(),
            }),
    {
        let r = GitmojiConfig {
            auto_add,
            specification,
            format,
            signed,
            scope,
            update_url,
            last_update,
            gitmojis,
            conventional_commit_emojis,
        };
        proof {
            assert(r@ =~= (GitmojiConfigV {
                auto_add,
                specification,
                format,
                signed,
                scope,
                update_url: update_url@,
                last_update,
                gitmojis: gitmojis.deep_view(),
                conventional_commit_emojis: conventional_commit_emojis.deep_view(),
            }));
        }
        r
    }

    /// Merge with a local override: a present override field replaces the
    /// global one wholesale; the override's `specification` and `scope`
    /// fields are ignored.
    pub fn merge(&mut self, local_config: &LocalGitmojiConfig)
        ensures
            final(self)@ == sp_merge(old(self)@, local_config@),
    {
        match local_config.auto_add() {
            Some(auto_add) => {
                self.auto_add = auto_add;
            },
            None => {},
        }
        match local_config.format() {
            Some(format) => {
                self.format = format;
            },
            None => {},
        }
        match local_config.signed() {
            Some(signed) => {
                self.signed = signed;
            },
            None => {},
        }
        match local_config.gitmojis() {
            Some(gitmojis) => {
                self.gitmojis = clone_gitmoji_vec(gitmojis);
            },
            None => {},
        }
        match local_config.conventional_commit_emojis() {
            Some(emojis) => {
                self.conventional_commit_emojis = clone_conventional_vec(emojis);
            },
            None => {},
        }
        proof {
            assert(self@ =~= sp_merge(old(self)@, local_config@));
        }
    }

    /// Whether "--all" is implied on the commit command.
    pub fn auto_add(&self) -> (r: bool)
        ensures
            r == self@.auto_add,
    {
        self.auto_add
    }

    /// The commit specification.
    pub fn specification(&self) -> (r: CommitSpecification)
        ensures
            r == self@.specification,
    {
        self.specification
    }

    /// The emoji rendering format (code or glyph).
    pub fn format(&self) -> (r: &EmojiFormat)
        ensures
            *r == self@.format,
    {
        &self.format
    }

    /// Whether commits are signed.
    pub fn signed(&self) -> (r: bool)
        ensures
            r == self@.signed,
    {
        self.signed
    }

    /// Whether a scope is asked for.
    pub fn scope(&self) -> (r: bool)
        ensures
            r == self@.scope,
    {
        self.scope
    }

    /// The URL used for catalog updates.
    pub fn update_url(&self) -> (r: &str)
        ensures
            r@ == self@.update_url,
    {
        self.update_url.as_str()
    }

    /// Set the URL used for catalog updates after validating it; an invalid
    /// URL is rejected and nothing changes.
    pub fn set_update_url(&mut self, update_url: &str) -> (r: Result<(), Error>)
        ensures
            r is Ok <==> url_parse(update_url@) is Some,
            r matches Ok(()) ==> final(self)@ == (GitmojiConfigV {
                update_url: url_parse(update_url@)->0,
                ..old(self)@
            }),
            r matches Err(e) ==> e == Error::InvalidUrl && *final(self) == *old(self),
    {
        match parse_url(update_url) {
            Some(u) => {
                self.update_url = u;
                proof {
                    assert(self@ =~= (GitmojiConfigV {
                        update_url: url_parse(update_url@)->0,
                        ..old(self)@
                    }));
                }
                Ok(())
            },
            None => Err(Error::InvalidUrl),
        }
    }

    /// The time of the last successful catalog refresh, if any.
    pub fn last_update(&self) -> (r: Option<Timestamp>)
        ensures
            r == self@.last_update,
    {
        self.last_update
    }

    /// The catalog under the default specification.
    pub fn gitmojis(&self) -> (r: &Vec<Gitmoji>)
        ensures
            r.deep_view() == self@.gitmojis,
    {
        &self.gitmojis
    }

    /// Replace the gitmoji catalog wholesale and record the refresh time.
    pub fn set_gitmojis(&mut self, gitmojis: Vec<Gitmoji>, now: Timestamp)
        ensures
            final(self)@ == (GitmojiConfigV {
                gitmojis: gitmojis.deep_view(),
                last_update: Some(now),
                ..old(self)@
            }),
    {
        self.last_update = Some(now);
        self.gitmojis = gitmojis;
        proof {
            assert(self@ =~= (GitmojiConfigV {
                gitmojis: gitmojis.deep_view(),
                last_update: Some(now),
                ..old(self)@
            }));
        }
    }

    /// The catalog under the conventional-emoji-commit specification.
    pub fn conventional_commit_emojis(&self) -> (r: &Vec<ConventionalEmojiCommit>)
        ensures
            r.deep_view() == self@.conventional_commit_emojis,
    {
        &self.conventional_commit_emojis
    }

    /// Replace the conventional-commit catalog wholesale and record the
    /// refresh time.
    pub fn set_conventional_commit_emojis(
        &mut self,
        conventional_commit_emojis: Vec<ConventionalEmojiCommit>,
        now: Timestamp,
    )
        ensures
            final(self)@ == (GitmojiConfigV {
                conventional_commit_emojis: conventional_commit_emojis.deep_view(),
                last_update: Some(now),
                ..old(self)@
            }),
    {
        self.last_update = Some(now);
        self.conventional_commit_emojis = conventional_commit_emojis;
        proof {
            assert(self@ =~= (GitmojiConfigV {
                conventional_commit_emojis: conventional_commit_emojis.deep_view(),
                last_update: Some(now),
                ..old(self)@
            }));
        }
    }
}

impl Clone for GitmojiConfig {
    /// Copy the configuration, preserving its value.
    fn clone(&self) -> (r: Self)
        ensures
            r@ == self@,
    {
        let r = GitmojiConfig {
            auto_add: self.auto_add,
            specification: self.specification,
            format: self.format,
            signed: self.signed,
            scope: self.scope,
            update_url: self.update_url.clone(),
            last_update: self.last_update,
            gitmojis: clone_gitmoji_vec(&self.gitmojis),
            conventional_commit_emojis: clone_conventional_vec(&self.conventional_commit_emojis),
        };
        proof {
            assert(r@ =~= self@);
        }
        r
    }
}

impl Default for GitmojiConfig {
    /// The default configuration: default specification, codes rather than
    /// glyphs, nothing enabled, the default update URL, empty catalogs.
    fn default() -> (r: GitmojiConfig)
        ensures
            r@ == sp_default_config(),
    {
        GitmojiConfig::new(
            false,
            CommitSpecification::Default,
            EmojiFormat::UseCode,
            false,
            false,
            String::from_str(DEFAULT_URL),
        )
    }
}

impl LocalGitmojiConfig {
    /// Create a local override from its optional parts.
    pub fn new(
        auto_add: Option<bool>,
        specification: Option<CommitSpecification>,
        format: Option<EmojiFormat>,
        signed: Option<bool>,
        scope: Option<bool>,
        gitmojis: Option<Vec<Gitmoji>>,
        conventional_commit_emojis: Option<Vec<ConventionalEmojiCommit>>,
    ) -> (r: LocalGitmojiConfig)
        ensures
            r@ == (LocalGitmojiConfigV {
                auto_add,
                specification,
                format,
                signed,
                scope,
                gitmojis: gitmojis.deep_view(),
                conventional_commit_emojis: conventional_commit_emojis.deep_view(),
            }),
    {
        let r = LocalGitmojiConfig {
            auto_add,
            specification,
            format,
            signed,
            scope,
            gitmojis,
            conventional_commit_emojis,
        };
        proof {
            assert(r@ =~= (LocalGitmojiConfigV {
                auto_add,
                specification,
                format,
                signed,
                scope,
                gitmojis: gitmojis.deep_view(),
                conventional_commit_emojis: conventional_commit_emojis.deep_view(),
            }));
        }
        r
    }

    /// Whether "--all" is implied on the commit command.
    pub fn auto_add(&self) -> (r: Option<bool>)
        ensures
            r == self@.auto_add,
    {
        self.auto_add
    }

    /// The commit specification.
    pub fn specification(&self) -> (r: Option<CommitSpecification>)
        ensures
            r == self@.specification,
    {
        self.specification
    }

    /// The emoji rendering format (code or glyph).
    pub fn format(&self) -> (r: Option<EmojiFormat>)
        ensures
            r == self@.format,
    {
        self.format
    }

    /// Whether commits are signed.
    pub fn signed(&self) -> (r: Option<bool>)
        ensures
            r == self@.signed,
    {
        self.signed
    }

    /// Whether a scope is asked for.
    pub fn scope(&self) -> (r: Option<bool>)
        ensures
            r == self@.scope,
    {
        self.scope
    }

    /// The overriding gitmoji catalog, if any.
    pub fn gitmojis(&self) -> (r: Option<&Vec<Gitmoji>>)
        ensures
            r is Some <==> self@.gitmojis is Some,
            r matches Some(v) ==> v.deep_view() == self@.gitmojis->0,
    {
        match &self.gitmojis {
            Some(v) => Some(v),
            None => None,
        }
    }

    /// The overriding conventional-commit catalog, if any.
    pub fn conventional_commit_emojis(&self) -> (r: Option<&Vec<ConventionalEmojiCommit>>)
        ensures
            r is Some <==> self@.conventional_commit_emojis is Some,
            r matches Some(v) ==> v.deep_view() == self@.conventional_commit_emojis->0,
    {
        match &self.conventional_commit_emojis {
            Some(v) => Some(v),
            None => None,
        }
    }
}

impl Clone for LocalGitmojiConfig {
    /// Copy the override, preserving its value.
    fn clone(&self) -> (r: Self)
        ensures
            r@ == self@,
    {
        let r = LocalGitmojiConfig {
            auto_add: self.auto_add,
            specification: self.specification,
            format: self.format,
            signed: self.signed,
            scope: self.scope,
            gitmojis: match &self.gitmojis {
                Some(v) => Some(clone_gitmoji_vec(v)),
                None => None,
            },
            conventional_commit_emojis: match &self.conventional_commit_emojis {
                Some(v) => Some(clone_conventional_vec(v)),
                None => None,
            },
        };
        proof {
            assert(r@ =~= self@);
        }
        r
    }
}

impl Default for LocalGitmojiConfig {
    /// The all-absent override, which merges as the identity.
    fn default() -> (r: LocalGitmojiConfig)
        ensures
            r@ == sp_default_local(),
    {
        let r = LocalGitmojiConfig {
            auto_add: None,
            specification: None,
            format: None,
            signed: None,
            scope: None,
            gitmojis: None,
            conventional_commit_emojis: None,
        };
        proof {
            assert(r@ =~= sp_default_local());
        }
        r
    }
}

/// Check that a string is a syntactically valid absolute URL.
pub fn validate_url(s: &str) -> (r: Result<(), Error>)
    ensures
        r is Ok <==> url_parse(s@) is Some,
        r matches Err(e) ==> e == Error::InvalidUrl,
{
    match parse_url(s) {
        Some(_) => Ok(()),
        None => Err(Error::InvalidUrl),
    }
}

/// The default update URL for a specification.
pub fn default_url_for(specification: CommitSpecification) -> (r: &'static str)
    ensures
        r@ == match specification {
            CommitSpecification::Default => DEFAULT_URL@,
            CommitSpecification::ConventionalEmojiCommits => CONVENTIONAL_EMOJI_COMMITS_DEFAULT_URL@,
        },
{
    match specification {
        CommitSpecification::Default => DEFAULT_URL,
        CommitSpecification::ConventionalEmojiCommits => CONVENTIONAL_EMOJI_COMMITS_DEFAULT_URL,
    }
}

/// Assemble a fresh configuration from interactive answers: the URL is
/// validated, and under the conventional-emoji-commit specification the
/// scope prompt is forced on, never left to the caller's answer.
pub fn build_config(
    auto_add: bool,
    specification: CommitSpecification,
    format: EmojiFormat,
    signed: bool,
    scope: bool,
    update_url: &str,
) -> (r: Result<GitmojiConfig, Error>)
    ensures
        r is Ok <==> url_parse(update_url@) is Some,
        r matches Ok(c) ==> c@ == sp_new_config(
            auto_add,
            specification,
            format,
            signed,
            specification is ConventionalEmojiCommits || scope,
            url_parse(update_url@)->0,
        ),
        r matches Err(e) ==> e == Error::InvalidUrl,
{
    match parse_url(update_url) {
        Some(u) => {
            let effective_scope = match specification {
                CommitSpecification::Default => scope,
                CommitSpecification::ConventionalEmojiCommits => true,
            };
            Ok(
                GitmojiConfig::new(
                    auto_add,
                    specification,
                    format,
                    signed,
                    effective_scope,
                    u,
                ),
            )
        },
        None => Err(Error::InvalidUrl),
    }
}

} // verus!
