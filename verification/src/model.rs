//! Catalog record types and the two commit specifications.

use vstd::prelude::*;
use vstd::string::StringExecFns;

verus! {

/// The commit specification in force.
#[derive(Debug, Clone, Copy, PartialEq, Eq, Structural)]
pub enum CommitSpecification {
    /// The default gitmoji format.
    Default,
    /// The conventional-emoji-commit format.
    ConventionalEmojiCommits,
}

/// How the chosen emoji appears in a commit title.
#[derive(Debug, Clone, Copy, PartialEq, Eq, Structural)]
pub enum EmojiFormat {
    /// Use the short-code, like ':smile:'.
    UseCode,
    /// Use the glyph itself.
    UseEmoji,
}

/// The mathematical value of a `Gitmoji`.
#[verifier::ext_equal]
pub ghost struct GitmojiV {
    pub emoji: Seq<char>,
    pub code: Seq<char>,
    pub name: Option<Seq<char>>,
    pub description: Option<Seq<char>>,
}

/// A catalog entry under the default specification.
#[derive(Debug, PartialEq, Eq)]
pub struct Gitmoji {
    emoji: String,
    code: String,
    name: Option<String>,
    description: Option<String>,
}

impl View for Gitmoji {
    type V = GitmojiV;

    closed spec fn view(&self) -> GitmojiV {
        GitmojiV {
            emoji: self.emoji@,
            code: self.code@,
            name: self.name.deep_view(),
            description: self.description.deep_view(),
        }
    }
}

/// Copy an optional string, preserving its value.
fn clone_opt_string(s: &Option<String>) -> (r: Option<String>)
    ensures
        r.deep_view() == s.deep_view(),
{
    match s {
        Some(x) => Some(x.clone()),
        None => None,
    }
}

impl Clone for Gitmoji {
    /// Copy the record, preserving its value.
    fn clone(&self) -> (r: Self)
        ensures
            r@ == self@,
    {
        let r = Gitmoji {
            emoji: self.emoji.clone(),
            code: self.code.clone(),
            name: clone_opt_string(&self.name),
            description: clone_opt_string(&self.description),
        };
        proof {
            assert(r@ =~= self@);
        }
        r
    }
}

impl DeepView for Gitmoji {
    type V = GitmojiV;

    open spec fn deep_view(&self) -> GitmojiV {
        self.view()
    }
}

/// What `Gitmoji::display_string` renders: the glyph, the code, the name if
/// any, then " - " and the description if any.
pub open spec fn sp_gitmoji_display(g: GitmojiV) -> Seq<char> {
    g.emoji + " "@ + g.code + " "@ + (match g.name {
        Some(n) => n,
        None => Seq::<char>::empty(),
    }) + " - "@ + (match g.description {
        Some(d) => d,
        None => Seq::<char>::empty(),
    })
}

impl Gitmoji {
    /// Create a gitmoji.
    pub fn new(
        emoji: String,
        code: String,
        name: Option<String>,
        description: Option<String>,
    ) -> (r: Gitmoji)
        ensures
            r@ == (GitmojiV {
                emoji: emoji@,
                code: code@,
                name: name.deep_view(),
                description: description.deep_view(),
            }),
    {
        Gitmoji { emoji, code, name, description }
    }

    /// The emoji glyph.
    pub fn emoji(&self) -> (r: &str)
        ensures
            r@ == self@.emoji,
    {
        self.emoji.as_str()
    }

    /// The associated short-code.
    pub fn code(&self) -> (r: &str)
        ensures
            r@ == self@.code,
    {
        self.code.as_str()
    }

    /// The name, if any.
    pub fn name(&self) -> (r: Option<&str>)
        ensures
            r is Some <==> self@.name is Some,
            r matches Some(s) ==> s@ == self@.name->0,
    {
        match &self.name {
            Some(n) => Some(n.as_str()),
            None => None,
        }
    }

    /// The description, if any.
    pub fn description(&self) -> (r: Option<&str>)
        ensures
            r is Some <==> self@.description is Some,
            r matches Some(s) ==> s@ == self@.description->0,
    {
        match &self.description {
            Some(d) => Some(d.as_str()),
            None => None,
        }
    }

    /// One line describing this entry, as shown in a listing.
    pub fn display_string(&self) -> (r: String)
        ensures
            r@ == sp_gitmoji_display(self@),
    {
        let mut r = String::new();
        r.append(self.emoji.as_str());
        r.append(" ");
        r.append(self.code.as_str());
        r.append(" ");
        match &self.name {
            Some(n) => r.append(n.as_str()),
            None => (),
        }
        r.append(" - ");
        match &self.description {
            Some(d) => r.append(d.as_str()),
            None => (),
        }
        proof {
            assert(r@ =~= sp_gitmoji_display(self@));
        }
        r
    }
}

/// The mathematical value of a `ConventionalEmojiCommit`.
#[verifier::ext_equal]
pub ghost struct ConventionalEmojiCommitV {
    pub emoji: Seq<char>,
    pub code: Seq<char>,
    pub commit_type: Seq<char>,
    pub description: Option<Seq<char>>,
}

/// A catalog entry under the conventional-emoji-commit specification.
#[derive(Debug, PartialEq, Eq)]
pub struct ConventionalEmojiCommit {
    emoji: String,
    code: String,
    commit_type: String,
    description: Option<String>,
}

impl View for ConventionalEmojiCommit {
    type V = ConventionalEmojiCommitV;

    closed spec fn view(&self) -> ConventionalEmojiCommitV {
        ConventionalEmojiCommitV {
            emoji: self.emoji@,
            code: self.code@,
            commit_type: self.commit_type@,
            description: self.description.deep_view(),
        }
    }
}

impl Clone for ConventionalEmojiCommit {
    /// Copy the record, preserving its value.
    fn clone(&self) -> (r: Self)
        ensures
            r@ == self@,
    {
        let r = ConventionalEmojiCommit {
            emoji: self.emoji.clone(),
            code: self.code.clone(),
            commit_type: self.commit_type.clone(),
            description: clone_opt_string(&self.description),
        };
        proof {
            assert(r@ =~= self@);
        }
        r
    }
}

impl DeepView for ConventionalEmojiCommit {
    type V = ConventionalEmojiCommitV;

    open spec fn deep_view(&self) -> ConventionalEmojiCommitV {
        self.view()
    }
}

/// What `ConventionalEmojiCommit::display_string` renders: the glyph, the
/// type keyword, then " - " and the description if any.
pub open spec fn sp_conventional_display(e: ConventionalEmojiCommitV) -> Seq<char> {
    e.emoji + " "@ + e.commit_type + " - "@ + (match e.description {
        Some(d) => d,
        None => Seq::<char>::empty(),
    })
}

impl ConventionalEmojiCommit {
    /// Create a conventional-commit emoji.
    pub fn new(
        emoji: String,
        code: String,
        commit_type: String,
        description: Option<String>,
    ) -> (r: ConventionalEmojiCommit)
        ensures
            r@ == (ConventionalEmojiCommitV {
                emoji: emoji@,
                code: code@,
                commit_type: commit_type@,
                description: description.deep_view(),
            }),
    {
        ConventionalEmojiCommit { emoji, code, commit_type, description }
    }

    /// The emoji glyph.
    pub fn emoji(&self) -> (r: &str)
        ensures
            r@ == self@.emoji,
    {
        self.emoji.as_str()
    }

    /// The associated short-code.
    pub fn code(&self) -> (r: &str)
        ensures
            r@ == self@.code,
    {
        self.code.as_str()
    }

    /// The conventional-commit type keyword.
    pub fn commit_type(&self) -> (r: &str)
        ensures
            r@ == self@.commit_type,
    {
        self.commit_type.as_str()
    }

    /// The description, if any.
    pub fn description(&self) -> (r: Option<&str>)
        ensures
            r is Some <==> self@.description is Some,
            r matches Some(s) ==> s@ == self@.description->0,
    {
        match &self.description {
            Some(d) => Some(d.as_str()),
            None => None,
        }
    }

    /// One line describing this entry, as shown in a listing.
    pub fn display_string(&self) -> (r: String)
        ensures
            r@ == sp_conventional_display(self@),
    {
        let mut r = String::new();
        r.append(self.emoji.as_str());
        r.append(" ");
        r.append(self.commit_type.as_str());
        r.append(" - ");
        match &self.description {
            Some(d) => r.append(d.as_str()),
            None => (),
        }
        proof {
            assert(r@ =~= sp_conventional_display(self@));
        }
        r
    }
}

} // verus!
