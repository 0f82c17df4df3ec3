//! The text format of the persisted configuration: a TOML-shaped document
//! with one `key = value` line per scalar field and one `[[...]]` block per
//! catalog entry, exactly as this module writes it. The parser accepts the
//! canonical field order this module writes (absent optional fields may
//! simply be left out); what the renderer writes always parses back to the
//! value it came from, which is proved below.

use vstd::prelude::*;

use crate::clock::Timestamp;
use crate::config::{
    sp_config_wf, GitmojiConfig, GitmojiConfigV, LocalGitmojiConfig, LocalGitmojiConfigV,
};
use crate::error::Error;
use crate::model::{
    CommitSpecification, ConventionalEmojiCommit, ConventionalEmojiCommitV, EmojiFormat, Gitmoji,
    GitmojiV,
};
use crate::outside::chars_to_string;
use crate::text::{
    digit_char, digit_of, escape, expect_str, parse_string_body, push_escaped, push_str_chars,
    sp_digit_char, sp_digit_of, sp_expect, sp_str_body, str_to_chars, lemma_parts_of_add,
    lemma_skip_skip, lemma_expect_prefix, lemma_expect_mismatch, lemma_str_body_of_escape,
    lemma_add_assoc,
};

verus! {

// ------------------------------------------------------------------
// What the renderer writes, line by line.
// ------------------------------------------------------------------
/// A boolean value with the line's newline.
pub open spec fn sp_render_bool(b: bool) -> Seq<char> {
    if b {
        "true\n"@
    } else {
        "false\n"@
    }
}

/// A `key = "value"` line: the key token carries ` = "` and the line closes
/// the quote itself.
pub open spec fn sp_render_string_line(key: Seq<char>, v: Seq<char>) -> Seq<char> {
    key + escape(v) + "\"\n"@
}

/// An optional string line: nothing at all when the value is absent.
pub open spec fn sp_render_opt_line(key: Seq<char>, v: Option<Seq<char>>) -> Seq<char> {
    match v {
        Some(x) => sp_render_string_line(key, x),
        None => Seq::empty(),
    }
}

/// The specification line.
pub open spec fn sp_render_spec_line(s: CommitSpecification) -> Seq<char> {
    match s {
        CommitSpecification::Default => "specification = \"Default\"\n"@,
        CommitSpecification::ConventionalEmojiCommits => "specification = \"ConventionalEmojiCommits\"\n"@,
    }
}

/// The format line.
pub open spec fn sp_render_format_line(f: EmojiFormat) -> Seq<char> {
    match f {
        EmojiFormat::UseCode => "format = \"UseCode\"\n"@,
        EmojiFormat::UseEmoji => "format = \"UseEmoji\"\n"@,
    }
}

/// Two decimal digits, zero-padded.
pub open spec fn sp_d2(n: int) -> Seq<char> {
    seq![sp_digit_char(n / 10), sp_digit_char(n % 10)]
}

/// Four decimal digits, zero-padded.
pub open spec fn sp_d4(n: int) -> Seq<char> {
    seq![
        sp_digit_char(n / 1000),
        sp_digit_char((n % 1000) / 100),
        sp_digit_char(((n % 1000) % 100) / 10),
        sp_digit_char(((n % 1000) % 100) % 10),
    ]
}

/// A timestamp in the calendar form `YYYY-MM-DDThh:mm:ssZ`.
pub open spec fn sp_render_ts(t: Timestamp) -> Seq<char> {
    sp_d4(t.year as int) + seq!['-'] + sp_d2(t.month as int) + seq!['-'] + sp_d2(t.day as int)
        + seq!['T'] + sp_d2(t.hour as int) + seq![':'] + sp_d2(t.minute as int) + seq![':']
        + sp_d2(t.second as int) + seq!['Z']
}

/// The refresh-timestamp line.
pub open spec fn sp_render_ts_line(t: Timestamp) -> Seq<char> {
    "last_update = \""@ + sp_render_ts(t) + "\"\n"@
}

/// One gitmoji catalog block.
pub open spec fn sp_render_gitmoji(g: GitmojiV) -> Seq<char> {
    "[[gitmojis]]\n"@ + sp_render_string_line("emoji = \""@, g.emoji) + sp_render_string_line(
        "code = \""@,
        g.code,
    ) + sp_render_opt_line("name = \""@, g.name) + sp_render_opt_line(
        "description = \""@,
        g.description,
    )
}

/// The gitmoji catalog, one block per entry, in order.
pub open spec fn sp_render_gitmojis(l: Seq<GitmojiV>) -> Seq<char>
    decreases l.len(),
{
    if l.len() == 0 {
        Seq::empty()
    } else {
        sp_render_gitmoji(l[0]) + sp_render_gitmojis(l.skip(1))
    }
}

/// One conventional-commit catalog block.
pub open spec fn sp_render_conventional(e: ConventionalEmojiCommitV) -> Seq<char> {
    "[[conventional_commit_emojis]]\n"@ + sp_render_string_line("emoji = \""@, e.emoji)
        + sp_render_string_line("code = \""@, e.code) + sp_render_string_line(
        "type = \""@,
        e.commit_type,
    ) + sp_render_opt_line("description = \""@, e.description)
}

/// The conventional-commit catalog, one block per entry, in order.
pub open spec fn sp_render_conventionals(l: Seq<ConventionalEmojiCommitV>) -> Seq<char>
    decreases l.len(),
{
    if l.len() == 0 {
        Seq::empty()
    } else {
        sp_render_conventional(l[0]) + sp_render_conventionals(l.skip(1))
    }
}

/// The scalar lines of the configuration, in canonical order; the
/// refresh-timestamp line appears only when a refresh has happened.
pub open spec fn sp_render_header(c: GitmojiConfigV) -> Seq<char> {
    ("auto_add = "@ + sp_render_bool(c.auto_add)) + sp_render_spec_line(c.specification)
        + sp_render_format_line(c.format) + ("signed = "@ + sp_render_bool(c.signed)) + (
    "scope = "@ + sp_render_bool(c.scope)) + sp_render_string_line("update_url = \""@, c.update_url)
        + (match c.last_update {
        Some(t) => sp_render_ts_line(t),
        None => Seq::empty(),
    })
}

/// The whole persisted document.
pub open spec fn sp_render_config(c: GitmojiConfigV) -> Seq<char> {
    sp_render_header(c) + sp_render_gitmojis(c.gitmojis) + sp_render_conventionals(
        c.conventional_commit_emojis,
    )
}

// ------------------------------------------------------------------
// What the parser accepts: the canonical order, optional pieces may be
// absent. `Some` carries the value and the count of consumed characters.
// ------------------------------------------------------------------
/// A boolean line under the given key token.
pub open spec fn sp_parse_bool_line(s: Seq<char>, key: Seq<char>) -> Option<(bool, int)> {
    match sp_expect(s, key) {
        Some(k) => match sp_expect(s.skip(k), "true\n"@) {
            Some(n) => Some((true, k + n)),
            None => match sp_expect(s.skip(k), "false\n"@) {
                Some(n) => Some((false, k + n)),
                None => None,
            },
        },
        None => None,
    }
}

/// A quoted-string line under the given key token (the token carries the
/// opening quote; the line must close the quote and end the line).
pub open spec fn sp_parse_string_line(s: Seq<char>, key: Seq<char>) -> Option<(Seq<char>, int)> {
    match sp_expect(s, key) {
        Some(k) => match sp_str_body(s.skip(k)) {
            Some((v, n)) => {
                let j = k + n;
                if j < s.len() && s[j] == '\n' {
                    Some((v, j + 1))
                } else {
                    None
                }
            },
            None => None,
        },
        None => None,
    }
}

/// The specification line, one of its two tags.
pub open spec fn sp_parse_spec_line(s: Seq<char>) -> Option<(CommitSpecification, int)> {
    match sp_expect(s, "specification = \"Default\"\n"@) {
        Some(n) => Some((CommitSpecification::Default, n)),
        None => match sp_expect(s, "specification = \"ConventionalEmojiCommits\"\n"@) {
            Some(n) => Some((CommitSpecification::ConventionalEmojiCommits, n)),
            None => None,
        },
    }
}

/// The format line, one of its two tags.
pub open spec fn sp_parse_format_line(s: Seq<char>) -> Option<(EmojiFormat, int)> {
    match sp_expect(s, "format = \"UseCode\"\n"@) {
        Some(n) => Some((EmojiFormat::UseCode, n)),
        None => match sp_expect(s, "format = \"UseEmoji\"\n"@) {
            Some(n) => Some((EmojiFormat::UseEmoji, n)),
            None => None,
        },
    }
}

/// Two digits starting at position `i`.
pub open spec fn sp_d2_of(s: Seq<char>, i: int) -> Option<int> {
    match (sp_digit_of(s[i]), sp_digit_of(s[i + 1])) {
        (Some(a), Some(b)) => Some(10 * a + b),
        _ => None,
    }
}

/// Four digits starting at position `i`.
pub open spec fn sp_d4_of(s: Seq<char>, i: int) -> Option<int> {
    match (sp_digit_of(s[i]), sp_digit_of(s[i + 1]), sp_digit_of(s[i + 2]), sp_digit_of(
        s[i + 3],
    )) {
        (Some(a), Some(b), Some(c), Some(d)) => Some(1000 * a + 100 * b + 10 * c + d),
        _ => None,
    }
}

/// A calendar timestamp `YYYY-MM-DDThh:mm:ssZ` whose components are in
/// range.
pub open spec fn sp_parse_ts(s: Seq<char>) -> Option<(Timestamp, int)> {
    if s.len() >= 20 && s[4] == '-' && s[7] == '-' && s[10] == 'T' && s[13] == ':' && s[16] == ':'
        && s[19] == 'Z' {
        match (sp_d4_of(s, 0), sp_d2_of(s, 5), sp_d2_of(s, 8), sp_d2_of(s, 11), sp_d2_of(s, 14),
        sp_d2_of(s, 17)) {
            (Some(y), Some(mo), Some(d), Some(h), Some(mi), Some(sec)) => {
                let t = Timestamp {
                    year: y as u16,
                    month: mo as u8,
                    day: d as u8,
                    hour: h as u8,
                    minute: mi as u8,
                    second: sec as u8,
                };
                if t.wf() {
                    Some((t, 20))
                } else {
                    None
                }
            },
            _ => None,
        }
    } else {
        None
    }
}

/// The refresh-timestamp line.
pub open spec fn sp_parse_ts_line(s: Seq<char>) -> Option<(Timestamp, int)> {
    match sp_expect(s, "last_update = \""@) {
        Some(k) => match sp_parse_ts(s.skip(k)) {
            Some((t, n)) => match sp_expect(s.skip(k).skip(n), "\"\n"@) {
                Some(m) => Some((t, k + n + m)),
                None => None,
            },
            None => None,
        },
        None => None,
    }
}

/// One gitmoji block: the header, the required `emoji` and `code` lines,
/// then the optional `name` and `description` lines.
pub open spec fn sp_parse_gitmoji_block(s: Seq<char>) -> Option<(GitmojiV, int)> {
    match sp_expect(s, "[[gitmojis]]\n"@) {
        None => None,
        Some(h) => match sp_parse_string_line(s.skip(h), "emoji = \""@) {
            None => None,
            Some((emoji, n1)) => match sp_parse_string_line(s.skip(h).skip(n1), "code = \""@) {
                None => None,
                Some((code, n2)) => {
                    let s2 = s.skip(h).skip(n1).skip(n2);
                    let p3 = match sp_parse_string_line(s2, "name = \""@) {
                        Some((v, n)) => (Some(v), n),
                        None => (None::<Seq<char>>, 0int),
                    };
                    let s3 = s2.skip(p3.1);
                    let p4 = match sp_parse_string_line(s3, "description = \""@) {
                        Some((v, n)) => (Some(v), n),
                        None => (None::<Seq<char>>, 0int),
                    };
                    Some(
                        (
                            GitmojiV { emoji, code, name: p3.0, description: p4.0 },
                            h + n1 + n2 + p3.1 + p4.1,
                        ),
                    )
                },
            },
        },
    }
}

/// As many gitmoji blocks as stand at the front; never fails, a malformed
/// block is simply left unconsumed (and then rejected by the document-level
/// end-of-input check).
pub open spec fn sp_parse_gitmoji_list(s: Seq<char>) -> (Seq<GitmojiV>, int)
    decreases s.len(),
{
    match sp_parse_gitmoji_block(s) {
        Some((g, n)) => if 1 <= n <= s.len() {
            let p = sp_parse_gitmoji_list(s.skip(n));
            (seq![g] + p.0, n + p.1)
        } else {
            (seq![g], n)
        },
        None => (Seq::empty(), 0),
    }
}

/// One conventional-commit block: the header, the required `emoji`, `code`
/// and `type` lines, then the optional `description` line.
pub open spec fn sp_parse_conventional_block(s: Seq<char>) -> Option<(ConventionalEmojiCommitV, int)> {
    match sp_expect(s, "[[conventional_commit_emojis]]\n"@) {
        None => None,
        Some(h) => match sp_parse_string_line(s.skip(h), "emoji = \""@) {
            None => None,
            Some((emoji, n1)) => match sp_parse_string_line(s.skip(h).skip(n1), "code = \""@) {
                None => None,
                Some((code, n2)) => match sp_parse_string_line(
                    s.skip(h).skip(n1).skip(n2),
                    "type = \""@,
                ) {
                    None => None,
                    Some((commit_type, n3)) => {
                        let s3 = s.skip(h).skip(n1).skip(n2).skip(n3);
                        let p4 = match sp_parse_string_line(s3, "description = \""@) {
                            Some((v, n)) => (Some(v), n),
                            None => (None::<Seq<char>>, 0int),
                        };
                        Some(
                            (
                                ConventionalEmojiCommitV {
                                    emoji,
                                    code,
                                    commit_type,
                                    description: p4.0,
                                },
                                h + n1 + n2 + n3 + p4.1,
                            ),
                        )
                    },
                },
            },
        },
    }
}

/// As many conventional-commit blocks as stand at the front.
pub open spec fn sp_parse_conventional_list(s: Seq<char>) -> (Seq<ConventionalEmojiCommitV>, int)
    decreases s.len(),
{
    match sp_parse_conventional_block(s) {
        Some((e, n)) => if 1 <= n <= s.len() {
            let p = sp_parse_conventional_list(s.skip(n));
            (seq![e] + p.0, n + p.1)
        } else {
            (seq![e], n)
        },
        None => (Seq::empty(), 0),
    }
}


/// The scalar fields of the configuration as the parser reads them, before
/// the catalogs.
pub ghost struct HeaderV {
    pub auto_add: bool,
    pub specification: CommitSpecification,
    pub format: EmojiFormat,
    pub signed: bool,
    pub scope: bool,
    pub update_url: Seq<char>,
    pub last_update: Option<Timestamp>,
}

/// The five leading boolean and tag lines.
pub ghost struct HeaderFrontV {
    pub auto_add: bool,
    pub specification: CommitSpecification,
    pub format: EmojiFormat,
    pub signed: bool,
    pub scope: bool,
}

/// The five leading lines of the document, in canonical order.
pub open spec fn sp_parse_header_front(s: Seq<char>) -> Option<(HeaderFrontV, int)> {
    match sp_parse_bool_line(s, "auto_add = "@) {
        None => None,
        Some((auto_add, n1)) => match sp_parse_spec_line(s.skip(n1)) {
            None => None,
            Some((specification, n2)) => match sp_parse_format_line(s.skip(n1).skip(n2)) {
                None => None,
                Some((format, n3)) => match sp_parse_bool_line(
                    s.skip(n1).skip(n2).skip(n3),
                    "signed = "@,
                ) {
                    None => None,
                    Some((signed, n4)) => match sp_parse_bool_line(
                        s.skip(n1).skip(n2).skip(n3).skip(n4),
                        "scope = "@,
                    ) {
                        None => None,
                        Some((scope, n5)) => Some(
                            (
                                HeaderFrontV { auto_add, specification, format, signed, scope },
                                n1 + n2 + n3 + n4 + n5,
                            ),
                        ),
                    },
                },
            },
        },
    }
}

/// The scalar lines of the document, in canonical order, the
/// refresh-timestamp line optional.
pub open spec fn sp_parse_header(s: Seq<char>) -> Option<(HeaderV, int)> {
    match sp_parse_header_front(s) {
        None => None,
        Some((fr, n)) => match sp_parse_string_line(s.skip(n), "update_url = \""@) {
            None => None,
            Some((update_url, n6)) => {
                let p7 = match sp_parse_ts_line(s.skip(n).skip(n6)) {
                    Some((t, m)) => (Some(t), m),
                    None => (None::<Timestamp>, 0int),
                };
                Some(
                    (
                        HeaderV {
                            auto_add: fr.auto_add,
                            specification: fr.specification,
                            format: fr.format,
                            signed: fr.signed,
                            scope: fr.scope,
                            update_url,
                            last_update: p7.0,
                        },
                        n + n6 + p7.1,
                    ),
                )
            },
        },
    }
}

/// The whole persisted document: every scalar field in canonical order, the
/// optional refresh timestamp, then the two catalogs; nothing may follow.
pub open spec fn sp_parse_config(s: Seq<char>) -> Option<GitmojiConfigV> {
    match sp_parse_header(s) {
        None => None,
        Some((h, n)) => {
            let s7 = s.skip(n);
            let p8 = sp_parse_gitmoji_list(s7);
            let s8 = s7.skip(p8.1);
            let p9 = sp_parse_conventional_list(s8);
            let s9 = s8.skip(p9.1);
            if s9.len() == 0 {
                Some(
                    GitmojiConfigV {
                        auto_add: h.auto_add,
                        specification: h.specification,
                        format: h.format,
                        signed: h.signed,
                        scope: h.scope,
                        update_url: h.update_url,
                        last_update: h.last_update,
                        gitmojis: p8.0,
                        conventional_commit_emojis: p9.0,
                    },
                )
            } else {
                None
            }
        },
    }
}

/// The five leading lines of a local override, each optional.
pub ghost struct LocalFrontV {
    pub auto_add: Option<bool>,
    pub specification: Option<CommitSpecification>,
    pub format: Option<EmojiFormat>,
    pub signed: Option<bool>,
    pub scope: Option<bool>,
}

/// The scalar lines of a local override, in canonical order, each optional.
pub open spec fn sp_parse_local_front(s: Seq<char>) -> (LocalFrontV, int) {
    let p1 = match sp_parse_bool_line(s, "auto_add = "@) {
        Some((b, n)) => (Some(b), n),
        None => (None::<bool>, 0int),
    };
    let s1 = s.skip(p1.1);
    let p2 = match sp_parse_spec_line(s1) {
        Some((v, n)) => (Some(v), n),
        None => (None::<CommitSpecification>, 0int),
    };
    let s2 = s1.skip(p2.1);
    let p3 = match sp_parse_format_line(s2) {
        Some((v, n)) => (Some(v), n),
        None => (None::<EmojiFormat>, 0int),
    };
    let s3 = s2.skip(p3.1);
    let p4 = match sp_parse_bool_line(s3, "signed = "@) {
        Some((b, n)) => (Some(b), n),
        None => (None::<bool>, 0int),
    };
    let s4 = s3.skip(p4.1);
    let p5 = match sp_parse_bool_line(s4, "scope = "@) {
        Some((b, n)) => (Some(b), n),
        None => (None::<bool>, 0int),
    };
    (
        LocalFrontV {
            auto_add: p1.0,
            specification: p2.0,
            format: p3.0,
            signed: p4.0,
            scope: p5.0,
        },
        p1.1 + p2.1 + p3.1 + p4.1 + p5.1,
    )
}

/// An overriding gitmoji catalog: `gitmojis = []` overrides to empty, one or
/// more blocks override to that catalog, and nothing means no override.
pub open spec fn sp_parse_local_gitmojis(s: Seq<char>) -> (Option<Seq<GitmojiV>>, int) {
    match sp_expect(s, "gitmojis = []\n"@) {
        Some(n) => (Some(Seq::<GitmojiV>::empty()), n),
        None => {
            let p = sp_parse_gitmoji_list(s);
            if p.0.len() > 0 {
                (Some(p.0), p.1)
            } else {
                (None::<Seq<GitmojiV>>, 0int)
            }
        },
    }
}

/// An overriding conventional-commit catalog, under the same rules.
pub open spec fn sp_parse_local_conventionals(s: Seq<char>) -> (
    Option<Seq<ConventionalEmojiCommitV>>,
    int,
) {
    match sp_expect(s, "conventional_commit_emojis = []\n"@) {
        Some(n) => (Some(Seq::<ConventionalEmojiCommitV>::empty()), n),
        None => {
            let p = sp_parse_conventional_list(s);
            if p.0.len() > 0 {
                (Some(p.0), p.1)
            } else {
                (None::<Seq<ConventionalEmojiCommitV>>, 0int)
            }
        },
    }
}

/// A local override document: the same lines as the global document, each
/// optional; nothing may follow.
pub open spec fn sp_parse_local(s: Seq<char>) -> Option<LocalGitmojiConfigV> {
    let pf = sp_parse_local_front(s);
    let s5 = s.skip(pf.1);
    let p6 = sp_parse_local_gitmojis(s5);
    let s6 = s5.skip(p6.1);
    let p7 = sp_parse_local_conventionals(s6);
    let s7 = s6.skip(p7.1);
    if s7.len() == 0 {
        Some(
            LocalGitmojiConfigV {
                auto_add: pf.0.auto_add,
                specification: pf.0.specification,
                format: pf.0.format,
                signed: pf.0.signed,
                scope: pf.0.scope,
                gitmojis: p6.0,
                conventional_commit_emojis: p7.0,
            },
        )
    } else {
        None
    }
}

// ------------------------------------------------------------------
// The executable renderer.
// ------------------------------------------------------------------
/// Append a boolean line.
fn push_bool_line(out: &mut Vec<char>, key: &str, b: bool)
    ensures
        final(out)@ == old(out)@ + (key@ + sp_render_bool(b)),
{
    push_str_chars(out, key);
    if b {
        push_str_chars(out, "true\n");
    } else {
        push_str_chars(out, "false\n");
    }
    proof {
        assert(out@ =~= old(out)@ + (key@ + sp_render_bool(b)));
    }
}

/// Append a quoted-string line.
fn push_string_line(out: &mut Vec<char>, key: &str, v: &str)
    ensures
        final(out)@ == old(out)@ + sp_render_string_line(key@, v@),
{
    push_str_chars(out, key);
    push_escaped(out, v);
    push_str_chars(out, "\"\n");
    proof {
        assert(out@ =~= old(out)@ + sp_render_string_line(key@, v@));
    }
}

/// Append two zero-padded digits.
fn push_d2(out: &mut Vec<char>, n: u8)
    requires
        n < 100,
    ensures
        final(out)@ == old(out)@ + sp_d2(n as int),
{
    out.push(digit_char((n / 10) as u16));
    out.push(digit_char((n % 10) as u16));
    proof {
        assert(out@ =~= old(out)@ + sp_d2(n as int));
    }
}

/// Append four zero-padded digits.
fn push_d4(out: &mut Vec<char>, n: u16)
    requires
        n < 10000,
    ensures
        final(out)@ == old(out)@ + sp_d4(n as int),
{
    out.push(digit_char(n / 1000));
    out.push(digit_char((n % 1000) / 100));
    out.push(digit_char(((n % 1000) % 100) / 10));
    out.push(digit_char(((n % 1000) % 100) % 10));
    proof {
        assert(out@ =~= old(out)@ + sp_d4(n as int));
    }
}

/// Append the refresh-timestamp line.
fn push_ts_line(out: &mut Vec<char>, t: &Timestamp)
    requires
        t.wf(),
    ensures
        final(out)@ == old(out)@ + sp_render_ts_line(*t),
{
    push_str_chars(out, "last_update = \"");
    push_d4(out, t.year);
    out.push('-');
    push_d2(out, t.month);
    out.push('-');
    push_d2(out, t.day);
    out.push('T');
    push_d2(out, t.hour);
    out.push(':');
    push_d2(out, t.minute);
    out.push(':');
    push_d2(out, t.second);
    out.push('Z');
    push_str_chars(out, "\"\n");
    proof {
        assert(out@ =~= old(out)@ + sp_render_ts_line(*t));
    }
}

/// Append one gitmoji block.
fn push_gitmoji(out: &mut Vec<char>, g: &Gitmoji)
    ensures
        final(out)@ == old(out)@ + sp_render_gitmoji(g@),
{
    push_str_chars(out, "[[gitmojis]]\n");
    push_string_line(out, "emoji = \"", g.emoji());
    push_string_line(out, "code = \"", g.code());
    match g.name() {
        Some(n) => push_string_line(out, "name = \"", n),
        None => (),
    }
    match g.description() {
        Some(d) => push_string_line(out, "description = \"", d),
        None => (),
    }
    proof {
        assert(out@ =~= old(out)@ + sp_render_gitmoji(g@));
    }
}

/// Rendering a catalog block by block appends one block at a time.
proof fn lemma_render_gitmojis_push(l: Seq<GitmojiV>, g: GitmojiV)
    ensures
        sp_render_gitmojis(l.push(g)) == sp_render_gitmojis(l) + sp_render_gitmoji(g),
    decreases l.len(),
{
    if l.len() == 0 {
        assert(l.push(g)[0] == g);
        assert(l.push(g).skip(1) =~= Seq::<GitmojiV>::empty());
        assert(sp_render_gitmojis(Seq::<GitmojiV>::empty()) == Seq::<char>::empty());
        assert(sp_render_gitmojis(l.push(g)) == sp_render_gitmoji(g) + sp_render_gitmojis(
            Seq::<GitmojiV>::empty(),
        ));
        assert(sp_render_gitmojis(l.push(g)) =~= sp_render_gitmojis(l) + sp_render_gitmoji(g));
    } else {
        assert(l.push(g)[0] == l[0]);
        assert(l.push(g).skip(1) =~= l.skip(1).push(g));
        lemma_render_gitmojis_push(l.skip(1), g);
        assert(sp_render_gitmojis(l.push(g)) == sp_render_gitmoji(l[0]) + sp_render_gitmojis(
            l.skip(1).push(g),
        ));
        assert(sp_render_gitmojis(l.push(g)) =~= sp_render_gitmojis(l) + sp_render_gitmoji(g));
    }
}

/// Append the whole gitmoji catalog.
fn push_gitmojis(out: &mut Vec<char>, l: &Vec<Gitmoji>)
    ensures
        final(out)@ == old(out)@ + sp_render_gitmojis(l.deep_view()),
{
    let mut i: usize = 0;
    proof {
        assert(l.deep_view().take(0) =~= Seq::<GitmojiV>::empty());
        assert(out@ =~= old(out)@ + sp_render_gitmojis(l.deep_view().take(0)));
    }
    while i < l.len()
        invariant
            i <= l@.len(),
            l.deep_view().len() == l@.len(),
            out@ == old(out)@ + sp_render_gitmojis(l.deep_view().take(i as int)),
        decreases l@.len() - i,
    {
        push_gitmoji(out, &l[i]);
        proof {
            assert(l.deep_view()[i as int] == l@[i as int]@);
            assert(l.deep_view().take(i as int).push(l.deep_view()[i as int]) =~= l.deep_view()
                .take(i as int + 1));
            lemma_render_gitmojis_push(l.deep_view().take(i as int), l.deep_view()[i as int]);
            assert(out@ =~= old(out)@ + sp_render_gitmojis(l.deep_view().take(i as int + 1)));
        }
        i = i + 1;
    }
    proof {
        assert(l.deep_view().take(i as int) =~= l.deep_view());
    }
}

/// Append one conventional-commit block.
fn push_conventional(out: &mut Vec<char>, e: &ConventionalEmojiCommit)
    ensures
        final(out)@ == old(out)@ + sp_render_conventional(e@),
{
    push_str_chars(out, "[[conventional_commit_emojis]]\n");
    push_string_line(out, "emoji = \"", e.emoji());
    push_string_line(out, "code = \"", e.code());
    push_string_line(out, "type = \"", e.commit_type());
    match e.description() {
        Some(d) => push_string_line(out, "description = \"", d),
        None => (),
    }
    proof {
        assert(out@ =~= old(out)@ + sp_render_conventional(e@));
    }
}

/// Rendering a catalog block by block appends one block at a time.
proof fn lemma_render_conventionals_push(l: Seq<ConventionalEmojiCommitV>, e: ConventionalEmojiCommitV)
    ensures
        sp_render_conventionals(l.push(e)) == sp_render_conventionals(l) + sp_render_conventional(
            e,
        ),
    decreases l.len(),
{
    if l.len() == 0 {
        assert(l.push(e)[0] == e);
        assert(l.push(e).skip(1) =~= Seq::<ConventionalEmojiCommitV>::empty());
        assert(sp_render_conventionals(Seq::<ConventionalEmojiCommitV>::empty())
            == Seq::<char>::empty());
        assert(sp_render_conventionals(l.push(e)) == sp_render_conventional(e)
            + sp_render_conventionals(Seq::<ConventionalEmojiCommitV>::empty()));
        assert(sp_render_conventionals(l.push(e)) =~= sp_render_conventionals(l)
            + sp_render_conventional(e));
    } else {
        assert(l.push(e)[0] == l[0]);
        assert(l.push(e).skip(1) =~= l.skip(1).push(e));
        lemma_render_conventionals_push(l.skip(1), e);
        assert(sp_render_conventionals(l.push(e)) == sp_render_conventional(l[0])
            + sp_render_conventionals(l.skip(1).push(e)));
        assert(sp_render_conventionals(l.push(e)) =~= sp_render_conventionals(l)
            + sp_render_conventional(e));
    }
}

/// Append the whole conventional-commit catalog.
fn push_conventionals(out: &mut Vec<char>, l: &Vec<ConventionalEmojiCommit>)
    ensures
        final(out)@ == old(out)@ + sp_render_conventionals(l.deep_view()),
{
    let mut i: usize = 0;
    proof {
        assert(l.deep_view().take(0) =~= Seq::<ConventionalEmojiCommitV>::empty());
        assert(out@ =~= old(out)@ + sp_render_conventionals(l.deep_view().take(0)));
    }
    while i < l.len()
        invariant
            i <= l@.len(),
            l.deep_view().len() == l@.len(),
            out@ == old(out)@ + sp_render_conventionals(l.deep_view().take(i as int)),
        decreases l@.len() - i,
    {
        push_conventional(out, &l[i]);
        proof {
            assert(l.deep_view()[i as int] == l@[i as int]@);
            assert(l.deep_view().take(i as int).push(l.deep_view()[i as int]) =~= l.deep_view()
                .take(i as int + 1));
            lemma_render_conventionals_push(l.deep_view().take(i as int), l.deep_view()[i as int]);
            assert(out@ =~= old(out)@ + sp_render_conventionals(l.deep_view().take(i as int + 1)));
        }
        i = i + 1;
    }
    proof {
        assert(l.deep_view().take(i as int) =~= l.deep_view());
    }
}

/// Serialize a configuration to its persisted text. Every valid
/// configuration parses back to itself (`lemma_config_roundtrip`).
pub fn config_to_toml(config: &GitmojiConfig) -> (r: String)
    requires
        match config@.last_update {
            Some(t) => t.wf(),
            None => true,
        },
    ensures
        r@ == sp_render_config(config@),
{
    let ghost c = config@;
    let ghost h1 = "auto_add = "@ + sp_render_bool(c.auto_add);
    let ghost h2 = h1 + sp_render_spec_line(c.specification);
    let ghost h3 = h2 + sp_render_format_line(c.format);
    let ghost h4 = h3 + ("signed = "@ + sp_render_bool(c.signed));
    let ghost h5 = h4 + ("scope = "@ + sp_render_bool(c.scope));
    let ghost h6 = h5 + sp_render_string_line("update_url = \""@, c.update_url);
    let mut out: Vec<char> = Vec::new();
    push_bool_line(&mut out, "auto_add = ", config.auto_add());
    proof {
        assert(out@ =~= h1);
    }
    match config.specification() {
        CommitSpecification::Default => push_str_chars(&mut out, "specification = \"Default\"\n"),
        CommitSpecification::ConventionalEmojiCommits => push_str_chars(
            &mut out,
            "specification = \"ConventionalEmojiCommits\"\n",
        ),
    }
    proof {
        assert(out@ == h2);
    }
    match config.format() {
        EmojiFormat::UseCode => push_str_chars(&mut out, "format = \"UseCode\"\n"),
        EmojiFormat::UseEmoji => push_str_chars(&mut out, "format = \"UseEmoji\"\n"),
    }
    proof {
        assert(out@ == h3);
    }
    push_bool_line(&mut out, "signed = ", config.signed());
    push_bool_line(&mut out, "scope = ", config.scope());
    push_string_line(&mut out, "update_url = \"", config.update_url());
    proof {
        assert(out@ == h6);
    }
    match config.last_update() {
        Some(t) => push_ts_line(&mut out, &t),
        None => (),
    }
    proof {
        if c.last_update is None {
            assert(out@ =~= h6 + Seq::<char>::empty());
        }
        assert(out@ == sp_render_header(c));
    }
    push_gitmojis(&mut out, config.gitmojis());
    push_conventionals(&mut out, config.conventional_commit_emojis());
    let r = chars_to_string(&out);
    proof {
        assert(r@ =~= sp_render_config(config@));
    }
    r
}

/// Serialize one gitmoji as it stands in the persisted catalog. Every
/// gitmoji parses back to itself (`lemma_gitmoji_roundtrip`).
pub fn gitmoji_to_toml(g: &Gitmoji) -> (r: String)
    ensures
        r@ == sp_render_gitmoji(g@),
{
    let mut out: Vec<char> = Vec::new();
    push_gitmoji(&mut out, g);
    chars_to_string(&out)
}


// ------------------------------------------------------------------
// Round-trip: what the renderer writes parses back to the same value.
// ------------------------------------------------------------------
/// A rendered boolean line under its key parses back to the boolean.
proof fn lemma_bool_line_rt(key: Seq<char>, b: bool, rest: Seq<char>)
    ensures
        sp_parse_bool_line((key + sp_render_bool(b)) + rest, key) == Some(
            (b, (key.len() + sp_render_bool(b).len()) as int),
        ),
        ((key + sp_render_bool(b)) + rest).skip((key.len() + sp_render_bool(b).len()) as int)
            == rest,
{
    reveal_strlit("true\n");
    reveal_strlit("false\n");
    let r = sp_render_bool(b);
    let s = (key + r) + rest;
    assert(s =~= key + (r + rest));
    lemma_expect_prefix(key, r + rest);
    lemma_parts_of_add(key, r + rest);
    if b {
        lemma_expect_prefix("true\n"@, rest);
    } else {
        assert((r + rest)[0] == 'f');
        assert("true\n"@[0] == 't');
        lemma_expect_mismatch(r + rest, "true\n"@, 0);
        lemma_expect_prefix("false\n"@, rest);
    }
    lemma_parts_of_add(key + r, rest);
}

/// A rendered string line under its key parses back to the string.
proof fn lemma_string_line_rt(key: Seq<char>, v: Seq<char>, rest: Seq<char>)
    ensures
        sp_parse_string_line(sp_render_string_line(key, v) + rest, key) == Some(
            (v, sp_render_string_line(key, v).len() as int),
        ),
        (sp_render_string_line(key, v) + rest).skip(sp_render_string_line(key, v).len() as int)
            == rest,
        sp_render_string_line(key, v).len() == key.len() + escape(v).len() + 2,
{
    reveal_strlit("\"\n");
    let line = sp_render_string_line(key, v);
    let s = line + rest;
    assert("\"\n"@ =~= seq!['"', '\n']);
    let x = escape(v) + seq!['"'] + (seq!['\n'] + rest);
    assert(s =~= key + x);
    lemma_expect_prefix(key, x);
    lemma_parts_of_add(key, x);
    lemma_str_body_of_escape(v, seq!['\n'] + rest);
    let e1 = escape(v) + seq!['"'];
    lemma_parts_of_add(e1, seq!['\n'] + rest);
    assert(x[e1.len() as int] == '\n');
    assert(s[(key.len() + e1.len()) as int] == x[e1.len() as int]);
    assert(line.len() == key.len() + escape(v).len() + 2);
    lemma_parts_of_add(line, rest);
}

/// A rendered specification line parses back to the specification.
proof fn lemma_spec_line_rt(v: CommitSpecification, rest: Seq<char>)
    ensures
        sp_parse_spec_line(sp_render_spec_line(v) + rest) == Some(
            (v, sp_render_spec_line(v).len() as int),
        ),
        (sp_render_spec_line(v) + rest).skip(sp_render_spec_line(v).len() as int) == rest,
{
    reveal_strlit("specification = \"Default\"\n");
    reveal_strlit("specification = \"ConventionalEmojiCommits\"\n");
    let line = sp_render_spec_line(v);
    let s = line + rest;
    match v {
        CommitSpecification::Default => {
            lemma_expect_prefix("specification = \"Default\"\n"@, rest);
        },
        CommitSpecification::ConventionalEmojiCommits => {
            assert(s[17] == line[17]);
            assert(line[17] == 'C');
            assert("specification = \"Default\"\n"@[17] == 'D');
            lemma_expect_mismatch(s, "specification = \"Default\"\n"@, 17);
            lemma_expect_prefix("specification = \"ConventionalEmojiCommits\"\n"@, rest);
        },
    }
    lemma_parts_of_add(line, rest);
}

/// A rendered format line parses back to the format.
proof fn lemma_format_line_rt(v: EmojiFormat, rest: Seq<char>)
    ensures
        sp_parse_format_line(sp_render_format_line(v) + rest) == Some(
            (v, sp_render_format_line(v).len() as int),
        ),
        (sp_render_format_line(v) + rest).skip(sp_render_format_line(v).len() as int) == rest,
{
    reveal_strlit("format = \"UseCode\"\n");
    reveal_strlit("format = \"UseEmoji\"\n");
    let line = sp_render_format_line(v);
    let s = line + rest;
    match v {
        EmojiFormat::UseCode => {
            lemma_expect_prefix("format = \"UseCode\"\n"@, rest);
        },
        EmojiFormat::UseEmoji => {
            assert(s[13] == line[13]);
            assert(line[13] == 'E');
            assert("format = \"UseCode\"\n"@[13] == 'C');
            lemma_expect_mismatch(s, "format = \"UseCode\"\n"@, 13);
            lemma_expect_prefix("format = \"UseEmoji\"\n"@, rest);
        },
    }
    lemma_parts_of_add(line, rest);
}

/// Two rendered digits read back as the number they render.
proof fn lemma_d2_of_render(n: int, s: Seq<char>, i: int)
    requires
        0 <= n <= 99,
        0 <= i,
        i + 1 < s.len(),
        s[i] == sp_digit_char(n / 10),
        s[i + 1] == sp_digit_char(n % 10),
    ensures
        sp_d2_of(s, i) == Some(n),
{
    crate::text::lemma_digit_roundtrip(n / 10);
    crate::text::lemma_digit_roundtrip(n % 10);
}

/// Four rendered digits read back as the number they render.
proof fn lemma_d4_of_render(n: int, s: Seq<char>, i: int)
    requires
        0 <= n <= 9999,
        0 <= i,
        i + 3 < s.len(),
        s[i] == sp_digit_char(n / 1000),
        s[i + 1] == sp_digit_char((n % 1000) / 100),
        s[i + 2] == sp_digit_char(((n % 1000) % 100) / 10),
        s[i + 3] == sp_digit_char(((n % 1000) % 100) % 10),
    ensures
        sp_d4_of(s, i) == Some(n),
{
    crate::text::lemma_digit_roundtrip(n / 1000);
    crate::text::lemma_digit_roundtrip((n % 1000) / 100);
    crate::text::lemma_digit_roundtrip(((n % 1000) % 100) / 10);
    crate::text::lemma_digit_roundtrip(((n % 1000) % 100) % 10);
    assert(1000 * (n / 1000) + 100 * ((n % 1000) / 100) + 10 * (((n % 1000) % 100) / 10) + ((n
        % 1000) % 100) % 10 == n);
}

/// A rendered timestamp parses back to the timestamp.
#[verifier::rlimit(100)]
proof fn lemma_ts_rt(t: Timestamp, rest: Seq<char>)
    requires
        t.wf(),
    ensures
        sp_parse_ts(sp_render_ts(t) + rest) == Some((t, 20int)),
        (sp_render_ts(t) + rest).skip(20) == rest,
        sp_render_ts(t).len() == 20,
{
    let y = t.year as int;
    let mo = t.month as int;
    let d = t.day as int;
    let h = t.hour as int;
    let mi = t.minute as int;
    let sec = t.second as int;
    let r = sp_render_ts(t);
    let flat = seq![
        sp_digit_char(y / 1000),
        sp_digit_char((y % 1000) / 100),
        sp_digit_char(((y % 1000) % 100) / 10),
        sp_digit_char(((y % 1000) % 100) % 10),
        '-',
        sp_digit_char(mo / 10),
        sp_digit_char(mo % 10),
        '-',
        sp_digit_char(d / 10),
        sp_digit_char(d % 10),
        'T',
        sp_digit_char(h / 10),
        sp_digit_char(h % 10),
        ':',
        sp_digit_char(mi / 10),
        sp_digit_char(mi % 10),
        ':',
        sp_digit_char(sec / 10),
        sp_digit_char(sec % 10),
        'Z',
    ];
    assert(r =~= flat);
    let s = r + rest;
    assert(forall|i: int| 0 <= i < 20 ==> s[i] == flat[i]);
    lemma_d4_of_render(y, s, 0);
    lemma_d2_of_render(mo, s, 5);
    lemma_d2_of_render(d, s, 8);
    lemma_d2_of_render(h, s, 11);
    lemma_d2_of_render(mi, s, 14);
    lemma_d2_of_render(sec, s, 17);
    let t2 = Timestamp {
        year: y as u16,
        month: mo as u8,
        day: d as u8,
        hour: h as u8,
        minute: mi as u8,
        second: sec as u8,
    };
    assert(t2 == t);
    assert(sp_parse_ts(s) == Some((t, 20int)));
    lemma_parts_of_add(r, rest);
}

/// A rendered refresh-timestamp line parses back to the timestamp.
proof fn lemma_ts_line_rt(t: Timestamp, rest: Seq<char>)
    requires
        t.wf(),
    ensures
        sp_parse_ts_line(sp_render_ts_line(t) + rest) == Some(
            (t, sp_render_ts_line(t).len() as int),
        ),
        (sp_render_ts_line(t) + rest).skip(sp_render_ts_line(t).len() as int) == rest,
{
    let key = "last_update = \""@;
    let line = sp_render_ts_line(t);
    let s = line + rest;
    let x = sp_render_ts(t) + ("\"\n"@ + rest);
    assert(s =~= key + x);
    lemma_expect_prefix(key, x);
    lemma_parts_of_add(key, x);
    lemma_ts_rt(t, "\"\n"@ + rest);
    lemma_expect_prefix("\"\n"@, rest);
    assert(line.len() == key.len() + 22) by {
        reveal_strlit("\"\n");
        assert(sp_render_ts(t).len() == 20) by {
            lemma_ts_rt(t, "\"\n"@ + rest);
        }
    }
    lemma_parts_of_add(line, rest);
}

/// A rendered gitmoji block followed by another block or the end of input
/// parses back to the gitmoji.
#[verifier::rlimit(100)]
pub proof fn lemma_gitmoji_roundtrip(g: GitmojiV, rest: Seq<char>)
    requires
        rest.len() == 0 || rest[0] == '[',
    ensures
        sp_parse_gitmoji_block(sp_render_gitmoji(g) + rest) == Some(
            (g, sp_render_gitmoji(g).len() as int),
        ),
        (sp_render_gitmoji(g) + rest).skip(sp_render_gitmoji(g).len() as int) == rest,
        1 <= sp_render_gitmoji(g).len(),
{
    reveal_strlit("[[gitmojis]]\n");
    reveal_strlit("emoji = \"");
    reveal_strlit("code = \"");
    reveal_strlit("name = \"");
    reveal_strlit("description = \"");
    let hdr = "[[gitmojis]]\n"@;
    let le = sp_render_string_line("emoji = \""@, g.emoji);
    let lc = sp_render_string_line("code = \""@, g.code);
    let ln = sp_render_opt_line("name = \""@, g.name);
    let ld = sp_render_opt_line("description = \""@, g.description);
    let blk = sp_render_gitmoji(g);
    let s = blk + rest;
    let x4 = ld + rest;
    let x3 = ln + x4;
    let x2 = lc + x3;
    let x1 = le + x2;
    assert(s =~= hdr + x1);
    lemma_expect_prefix(hdr, x1);
    lemma_parts_of_add(hdr, x1);
    lemma_string_line_rt("emoji = \""@, g.emoji, x2);
    lemma_string_line_rt("code = \""@, g.code, x3);
    match g.name {
        Some(nm) => {
            lemma_string_line_rt("name = \""@, nm, x4);
        },
        None => {
            assert(x3 =~= x4);
            assert(x3.skip(0) =~= x3);
            match g.description {
                Some(dsc) => {
                    assert(ld[0] == 'd');
                    assert(x4[0] == 'd');
                    lemma_expect_mismatch(x3, "name = \""@, 0);
                },
                None => {
                    assert(x4 =~= rest);
                    lemma_expect_mismatch(x3, "name = \""@, 0);
                },
            }
        },
    }
    match g.description {
        Some(dsc) => {
            lemma_string_line_rt("description = \""@, dsc, rest);
        },
        None => {
            assert(x4 =~= rest);
            lemma_expect_mismatch(x4, "description = \""@, 0);
        },
    }
    assert(blk.len() == hdr.len() + le.len() + lc.len() + ln.len() + ld.len());
    match sp_parse_gitmoji_block(s) {
        Some((g2, n)) => {
            assert(g2 =~= g);
            assert(n == blk.len());
        },
        None => {
            assert(false);
        },
    }
    lemma_parts_of_add(blk, rest);
}

/// A rendered gitmoji catalog, followed by text that is not another gitmoji
/// block, parses back to exactly the catalog.
#[verifier::rlimit(100)]
proof fn lemma_gitmoji_list_rt(l: Seq<GitmojiV>, rest: Seq<char>)
    requires
        rest.len() == 0 || rest[0] == '[',
        sp_parse_gitmoji_block(rest) is None,
    ensures
        sp_parse_gitmoji_list(sp_render_gitmojis(l) + rest) == (
            l,
            sp_render_gitmojis(l).len() as int,
        ),
        (sp_render_gitmojis(l) + rest).skip(sp_render_gitmojis(l).len() as int) == rest,
    decreases l.len(),
{
    reveal_strlit("[[gitmojis]]\n");
    if l.len() == 0 {
        assert(sp_render_gitmojis(l) + rest =~= rest);
        assert(sp_parse_gitmoji_list(rest) == (Seq::<GitmojiV>::empty(), 0int));
        assert(l =~= Seq::<GitmojiV>::empty());
        assert((sp_render_gitmojis(l) + rest).skip(0) =~= rest);
    } else {
        let g = l[0];
        let tail = l.skip(1);
        let rest1 = sp_render_gitmojis(tail) + rest;
        let s = sp_render_gitmojis(l) + rest;
        assert(s =~= sp_render_gitmoji(g) + rest1);
        if tail.len() == 0 {
            assert(rest1 =~= rest);
        } else {
            assert(sp_render_gitmojis(tail) == sp_render_gitmoji(tail[0]) + sp_render_gitmojis(
                tail.skip(1),
            ));
            assert(sp_render_gitmoji(tail[0])[0] == '[');
            assert(rest1[0] == '[');
        }
        lemma_gitmoji_roundtrip(g, rest1);
        lemma_gitmoji_list_rt(tail, rest);
        assert(seq![g] + tail =~= l);
        assert(s.skip(sp_render_gitmoji(g).len() as int) == rest1);
        lemma_skip_skip(
            s,
            sp_render_gitmoji(g).len() as int,
            sp_render_gitmojis(tail).len() as int,
        );
    }
}

/// A rendered conventional-commit block followed by another block or the end
/// of input parses back to the entry.
#[verifier::rlimit(100)]
pub proof fn lemma_conventional_roundtrip(e: ConventionalEmojiCommitV, rest: Seq<char>)
    requires
        rest.len() == 0 || rest[0] == '[',
    ensures
        sp_parse_conventional_block(sp_render_conventional(e) + rest) == Some(
            (e, sp_render_conventional(e).len() as int),
        ),
        (sp_render_conventional(e) + rest).skip(sp_render_conventional(e).len() as int) == rest,
        1 <= sp_render_conventional(e).len(),
{
    reveal_strlit("[[conventional_commit_emojis]]\n");
    reveal_strlit("emoji = \"");
    reveal_strlit("code = \"");
    reveal_strlit("type = \"");
    reveal_strlit("description = \"");
    let hdr = "[[conventional_commit_emojis]]\n"@;
    let le = sp_render_string_line("emoji = \""@, e.emoji);
    let lc = sp_render_string_line("code = \""@, e.code);
    let lt = sp_render_string_line("type = \""@, e.commit_type);
    let ld = sp_render_opt_line("description = \""@, e.description);
    let blk = sp_render_conventional(e);
    let s = blk + rest;
    let x4 = ld + rest;
    let x3 = lt + x4;
    let x2 = lc + x3;
    let x1 = le + x2;
    assert(s =~= hdr + x1);
    lemma_expect_prefix(hdr, x1);
    lemma_parts_of_add(hdr, x1);
    lemma_string_line_rt("emoji = \""@, e.emoji, x2);
    lemma_string_line_rt("code = \""@, e.code, x3);
    lemma_string_line_rt("type = \""@, e.commit_type, x4);
    match e.description {
        Some(dsc) => {
            lemma_string_line_rt("description = \""@, dsc, rest);
        },
        None => {
            assert(x4 =~= rest);
            lemma_expect_mismatch(x4, "description = \""@, 0);
        },
    }
    assert(blk.len() == hdr.len() + le.len() + lc.len() + lt.len() + ld.len());
    match sp_parse_conventional_block(s) {
        Some((e2, n)) => {
            assert(e2 =~= e);
            assert(n == blk.len());
        },
        None => {
            assert(false);
        },
    }
    lemma_parts_of_add(blk, rest);
}

/// A rendered conventional-commit catalog, followed by text that is not
/// another block, parses back to exactly the catalog.
#[verifier::rlimit(100)]
proof fn lemma_conventional_list_rt(l: Seq<ConventionalEmojiCommitV>, rest: Seq<char>)
    requires
        rest.len() == 0 || rest[0] == '[',
        sp_parse_conventional_block(rest) is None,
    ensures
        sp_parse_conventional_list(sp_render_conventionals(l) + rest) == (
            l,
            sp_render_conventionals(l).len() as int,
        ),
        (sp_render_conventionals(l) + rest).skip(sp_render_conventionals(l).len() as int) == rest,
    decreases l.len(),
{
    reveal_strlit("[[conventional_commit_emojis]]\n");
    if l.len() == 0 {
        assert(sp_render_conventionals(l) + rest =~= rest);
        assert(sp_parse_conventional_list(rest) == (Seq::<ConventionalEmojiCommitV>::empty(), 0int));
        assert(l =~= Seq::<ConventionalEmojiCommitV>::empty());
        assert((sp_render_conventionals(l) + rest).skip(0) =~= rest);
    } else {
        let e = l[0];
        let tail = l.skip(1);
        let rest1 = sp_render_conventionals(tail) + rest;
        let s = sp_render_conventionals(l) + rest;
        assert(s =~= sp_render_conventional(e) + rest1);
        if tail.len() == 0 {
            assert(rest1 =~= rest);
        } else {
            assert(sp_render_conventionals(tail) == sp_render_conventional(tail[0])
                + sp_render_conventionals(tail.skip(1)));
            assert(sp_render_conventional(tail[0])[0] == '[');
            assert(rest1[0] == '[');
        }
        lemma_conventional_roundtrip(e, rest1);
        lemma_conventional_list_rt(tail, rest);
        assert(seq![e] + tail =~= l);
        assert(s.skip(sp_render_conventional(e).len() as int) == rest1);
        lemma_skip_skip(
            s,
            sp_render_conventional(e).len() as int,
            sp_render_conventionals(tail).len() as int,
        );
    }
}


/// A rendered gitmoji catalog, when non-empty, starts with its block header.
proof fn lemma_gitmojis_first_char(l: Seq<GitmojiV>)
    requires
        l.len() > 0,
    ensures
        sp_render_gitmojis(l)[0] == '[',
        sp_render_gitmojis(l).len() > 0,
{
    reveal_strlit("[[gitmojis]]\n");
    assert(sp_render_gitmojis(l) == sp_render_gitmoji(l[0]) + sp_render_gitmojis(l.skip(1)));
    assert(sp_render_gitmoji(l[0])[0] == '[');
}

/// A rendered conventional-commit catalog is never mistaken for a gitmoji
/// block: it is empty, or starts with the other header.
proof fn lemma_conventionals_not_gitmoji_block(l: Seq<ConventionalEmojiCommitV>)
    ensures
        sp_parse_gitmoji_block(sp_render_conventionals(l)) is None,
        l.len() > 0 ==> sp_render_conventionals(l)[0] == '[' && sp_render_conventionals(l).len()
            > 0,
{
    reveal_strlit("[[gitmojis]]\n");
    reveal_strlit("[[conventional_commit_emojis]]\n");
    let cc = sp_render_conventionals(l);
    if l.len() == 0 {
        assert(cc.len() == 0);
        assert(sp_expect(cc, "[[gitmojis]]\n"@) is None);
    } else {
        assert(cc == sp_render_conventional(l[0]) + sp_render_conventionals(l.skip(1)));
        assert(sp_render_conventional(l[0])[0] == '[');
        assert(sp_render_conventional(l[0])[2] == 'c');
        assert(cc[0] == '[');
        assert(cc[2] == 'c');
        assert("[[gitmojis]]\n"@[2] == 'g');
        lemma_expect_mismatch(cc, "[[gitmojis]]\n"@, 2);
    }
}


/// Assembling the front of the header from its line-by-line facts.
proof fn lemma_front_assemble(
    s: Seq<char>,
    r2: Seq<char>,
    r3: Seq<char>,
    r4: Seq<char>,
    r5: Seq<char>,
    r6: Seq<char>,
    fr: HeaderFrontV,
    n1: int,
    n2: int,
    n3: int,
    n4: int,
    n5: int,
)
    requires
        sp_parse_bool_line(s, "auto_add = "@) == Some((fr.auto_add, n1)),
        s.skip(n1) == r2,
        sp_parse_spec_line(r2) == Some((fr.specification, n2)),
        r2.skip(n2) == r3,
        sp_parse_format_line(r3) == Some((fr.format, n3)),
        r3.skip(n3) == r4,
        sp_parse_bool_line(r4, "signed = "@) == Some((fr.signed, n4)),
        r4.skip(n4) == r5,
        sp_parse_bool_line(r5, "scope = "@) == Some((fr.scope, n5)),
        r5.skip(n5) == r6,
        0 <= n1 && 0 <= n2 && 0 <= n3 && 0 <= n4 && 0 <= n5,
        n1 + n2 + n3 + n4 + n5 <= s.len(),
    ensures
        sp_parse_header_front(s) == Some((fr, n1 + n2 + n3 + n4 + n5)),
        s.skip(n1 + n2 + n3 + n4 + n5) == r6,
{
    match sp_parse_header_front(s) {
        Some((f2, n)) => {
            assert(f2 =~= fr);
        },
        None => {
            assert(false);
        },
    }
    lemma_skip_skip(s, n1, n2);
    lemma_skip_skip(s, n1 + n2, n3);
    lemma_skip_skip(s, n1 + n2 + n3, n4);
    lemma_skip_skip(s, n1 + n2 + n3 + n4, n5);
}

/// Assembling the whole header from the front and the two trailing lines.
proof fn lemma_header_assemble(
    s: Seq<char>,
    r7: Seq<char>,
    rest: Seq<char>,
    h: HeaderV,
    n: int,
    n6: int,
    n7: int,
)
    requires
        sp_parse_header_front(s) == Some(
            (
                HeaderFrontV {
                    auto_add: h.auto_add,
                    specification: h.specification,
                    format: h.format,
                    signed: h.signed,
                    scope: h.scope,
                },
                n,
            ),
        ),
        sp_parse_string_line(s.skip(n), "update_url = \""@) == Some((h.update_url, n6)),
        s.skip(n).skip(n6) == r7,
        match h.last_update {
            Some(t) => sp_parse_ts_line(r7) == Some((t, n7)),
            None => sp_parse_ts_line(r7) is None && n7 == 0,
        },
        r7.skip(n7) == rest,
        0 <= n && 0 <= n6 && 0 <= n7,
        n + n6 + n7 <= s.len(),
    ensures
        sp_parse_header(s) == Some((h, n + n6 + n7)),
        s.skip(n + n6 + n7) == rest,
{
    match sp_parse_header(s) {
        Some((h2, m)) => {
            assert(h2 =~= h);
        },
        None => {
            assert(false);
        },
    }
    lemma_skip_skip(s, n, n6);
    lemma_skip_skip(s, n + n6, n7);
}

/// A rendered header, followed by text that does not begin another
/// header line, parses back to the same scalar fields.
#[verifier::rlimit(100)]
#[verifier::spinoff_prover]
proof fn lemma_header_rt(c: GitmojiConfigV, rest: Seq<char>)
    requires
        sp_config_wf(c),
        rest.len() == 0 || rest[0] == '[',
    ensures
        sp_parse_header(sp_render_header(c) + rest) == Some(
            (
                HeaderV {
                    auto_add: c.auto_add,
                    specification: c.specification,
                    format: c.format,
                    signed: c.signed,
                    scope: c.scope,
                    update_url: c.update_url,
                    last_update: c.last_update,
                },
                sp_render_header(c).len() as int,
            ),
        ),
        (sp_render_header(c) + rest).skip(sp_render_header(c).len() as int) == rest,
{
    reveal_strlit("last_update = \"");
    let a = "auto_add = "@ + sp_render_bool(c.auto_add);
    let sp = sp_render_spec_line(c.specification);
    let f = sp_render_format_line(c.format);
    let sg = "signed = "@ + sp_render_bool(c.signed);
    let sc = "scope = "@ + sp_render_bool(c.scope);
    let u = sp_render_string_line("update_url = \""@, c.update_url);
    let lu = match c.last_update {
        Some(t) => sp_render_ts_line(t),
        None => Seq::<char>::empty(),
    };
    let hd = sp_render_header(c);
    let s = hd + rest;
    let r7 = lu + rest;
    let r6 = u + r7;
    let r5 = sc + r6;
    let r4 = sg + r5;
    let r3 = f + r4;
    let r2 = sp + r3;
    assert(s == a + r2) by {
        lemma_add_assoc(a + sp + f + sg + sc + u, lu, rest);
        lemma_add_assoc(a + sp + f + sg + sc, u, r7);
        lemma_add_assoc(a + sp + f + sg, sc, r6);
        lemma_add_assoc(a + sp + f, sg, r5);
        lemma_add_assoc(a + sp, f, r4);
        lemma_add_assoc(a, sp, r3);
    }
    assert(sp_parse_bool_line(s, "auto_add = "@) == Some((c.auto_add, a.len() as int)) && s.skip(
        a.len() as int,
    ) == r2) by {
        lemma_bool_line_rt("auto_add = "@, c.auto_add, r2);
    }
    assert(sp_parse_spec_line(r2) == Some((c.specification, sp.len() as int)) && r2.skip(
        sp.len() as int,
    ) == r3) by {
        lemma_spec_line_rt(c.specification, r3);
    }
    assert(sp_parse_format_line(r3) == Some((c.format, f.len() as int)) && r3.skip(f.len() as int)
        == r4) by {
        lemma_format_line_rt(c.format, r4);
    }
    assert(sp_parse_bool_line(r4, "signed = "@) == Some((c.signed, sg.len() as int)) && r4.skip(
        sg.len() as int,
    ) == r5) by {
        lemma_bool_line_rt("signed = "@, c.signed, r5);
    }
    assert(sp_parse_bool_line(r5, "scope = "@) == Some((c.scope, sc.len() as int)) && r5.skip(
        sc.len() as int,
    ) == r6) by {
        lemma_bool_line_rt("scope = "@, c.scope, r6);
    }
    assert(sp_parse_string_line(r6, "update_url = \""@) == Some((c.update_url, u.len() as int))
        && r6.skip(u.len() as int) == r7) by {
        lemma_string_line_rt("update_url = \""@, c.update_url, r7);
    }
    match c.last_update {
        Some(t) => {
            assert(sp_parse_ts_line(r7) == Some((t, lu.len() as int)) && r7.skip(lu.len() as int)
                == rest) by {
                lemma_ts_line_rt(t, rest);
            }
        },
        None => {
            assert(sp_parse_ts_line(r7) is None && r7.skip(0) == rest) by {
                assert(r7 =~= rest);
                assert("last_update = \""@[0] == 'l');
                lemma_expect_mismatch(r7, "last_update = \""@, 0);
                assert(r7.skip(0) =~= r7);
            }
        },
    }
    assert(hd.len() == a.len() + sp.len() + f.len() + sg.len() + sc.len() + u.len() + lu.len());
    let fr = HeaderFrontV {
        auto_add: c.auto_add,
        specification: c.specification,
        format: c.format,
        signed: c.signed,
        scope: c.scope,
    };
    let h = HeaderV {
        auto_add: c.auto_add,
        specification: c.specification,
        format: c.format,
        signed: c.signed,
        scope: c.scope,
        update_url: c.update_url,
        last_update: c.last_update,
    };
    let nf = a.len() + sp.len() + f.len() + sg.len() + sc.len();
    lemma_front_assemble(
        s,
        r2,
        r3,
        r4,
        r5,
        r6,
        fr,
        a.len() as int,
        sp.len() as int,
        f.len() as int,
        sg.len() as int,
        sc.len() as int,
    );
    lemma_header_assemble(s, r7, rest, h, nf as int, u.len() as int, lu.len() as int);
    lemma_parts_of_add(hd, rest);
}

/// Law: serializing a valid configuration and parsing the text back yields
/// the same configuration, for every configuration whose recorded refresh
/// time (if any) is in range.
#[verifier::rlimit(100)]
pub proof fn lemma_config_roundtrip(c: GitmojiConfigV)
    requires
        sp_config_wf(c),
    ensures
        sp_parse_config(sp_render_config(c)) == Some(c),
{
    let hd = sp_render_header(c);
    let gg = sp_render_gitmojis(c.gitmojis);
    let cc = sp_render_conventionals(c.conventional_commit_emojis);
    let s = sp_render_config(c);
    let rest = gg + cc;
    assert(s =~= hd + rest);
    if c.gitmojis.len() > 0 {
        lemma_gitmojis_first_char(c.gitmojis);
        assert(rest[0] == '[');
    } else {
        lemma_conventionals_not_gitmoji_block(c.conventional_commit_emojis);
        assert(gg.len() == 0);
        assert(rest =~= cc);
        if c.conventional_commit_emojis.len() > 0 {
            assert(rest[0] == '[');
        }
    }
    lemma_header_rt(c, rest);
    lemma_conventionals_not_gitmoji_block(c.conventional_commit_emojis);
    lemma_gitmoji_list_rt(c.gitmojis, cc);
    assert(rest =~= gg + cc);
    lemma_skip_skip(s, hd.len() as int, gg.len() as int);
    assert(cc + Seq::<char>::empty() =~= cc);
    assert(sp_parse_conventional_block(Seq::<char>::empty()) is None) by {
        reveal_strlit("[[conventional_commit_emojis]]\n");
    }
    lemma_conventional_list_rt(c.conventional_commit_emojis, Seq::<char>::empty());
    assert(cc.skip(cc.len() as int) =~= Seq::<char>::empty());
    match sp_parse_config(s) {
        Some(c2) => {
            assert(c2 =~= c);
        },
        None => {
            assert(false);
        },
    }
}


// ------------------------------------------------------------------
// The executable parser.
// ------------------------------------------------------------------
/// Read a boolean line under the given key at position `i`; `Some` carries
/// the value and the position just past the line.
fn parse_bool_line(s: &Vec<char>, i: usize, key: &str) -> (r: Option<(bool, usize)>)
    requires
        i <= s@.len(),
    ensures
        r is Some <==> sp_parse_bool_line(s@.skip(i as int), key@) is Some,
        r matches Some(p) ==> sp_parse_bool_line(s@.skip(i as int), key@) == Some(
            (p.0, p.1 - i as int),
        ) && i <= p.1 <= s@.len(),
{
    match expect_str(s, i, key) {
        None => None,
        Some(k) => {
            proof {
                lemma_skip_skip(s@, i as int, key@.len() as int);
            }
            match expect_str(s, k, "true\n") {
                Some(j) => Some((true, j)),
                None => match expect_str(s, k, "false\n") {
                    Some(j) => Some((false, j)),
                    None => None,
                },
            }
        },
    }
}

/// Read a quoted-string line under the given key at position `i`.
fn parse_string_line(s: &Vec<char>, i: usize, key: &str) -> (r: Option<(Vec<char>, usize)>)
    requires
        i <= s@.len(),
    ensures
        r is Some <==> sp_parse_string_line(s@.skip(i as int), key@) is Some,
        r matches Some(p) ==> sp_parse_string_line(s@.skip(i as int), key@) == Some(
            (p.0@, p.1 - i as int),
        ) && i <= p.1 <= s@.len(),
{
    match expect_str(s, i, key) {
        None => None,
        Some(k) => {
            proof {
                lemma_skip_skip(s@, i as int, key@.len() as int);
            }
            match parse_string_body(s, k) {
                None => None,
                Some((v, j)) => {
                    if j < s.len() {
                        let c = s[j];
                        proof {
                            assert(s@.skip(i as int)[j - i] == s@[j as int]);
                        }
                        if c == '\n' {
                            Some((v, j + 1))
                        } else {
                            None
                        }
                    } else {
                        None
                    }
                },
            }
        },
    }
}

/// Read the specification line at position `i`.
fn parse_spec_line(s: &Vec<char>, i: usize) -> (r: Option<(CommitSpecification, usize)>)
    requires
        i <= s@.len(),
    ensures
        r is Some <==> sp_parse_spec_line(s@.skip(i as int)) is Some,
        r matches Some(p) ==> sp_parse_spec_line(s@.skip(i as int)) == Some(
            (p.0, p.1 - i as int),
        ) && i <= p.1 <= s@.len(),
{
    match expect_str(s, i, "specification = \"Default\"\n") {
        Some(j) => Some((CommitSpecification::Default, j)),
        None => match expect_str(s, i, "specification = \"ConventionalEmojiCommits\"\n") {
            Some(j) => Some((CommitSpecification::ConventionalEmojiCommits, j)),
            None => None,
        },
    }
}

/// Read the format line at position `i`.
fn parse_format_line(s: &Vec<char>, i: usize) -> (r: Option<(EmojiFormat, usize)>)
    requires
        i <= s@.len(),
    ensures
        r is Some <==> sp_parse_format_line(s@.skip(i as int)) is Some,
        r matches Some(p) ==> sp_parse_format_line(s@.skip(i as int)) == Some(
            (p.0, p.1 - i as int),
        ) && i <= p.1 <= s@.len(),
{
    match expect_str(s, i, "format = \"UseCode\"\n") {
        Some(j) => Some((EmojiFormat::UseCode, j)),
        None => match expect_str(s, i, "format = \"UseEmoji\"\n") {
            Some(j) => Some((EmojiFormat::UseEmoji, j)),
            None => None,
        },
    }
}

/// Read a calendar timestamp at position `i`.
fn parse_ts(s: &Vec<char>, i: usize) -> (r: Option<(Timestamp, usize)>)
    requires
        i <= s@.len(),
    ensures
        r is Some <==> sp_parse_ts(s@.skip(i as int)) is Some,
        r matches Some(p) ==> sp_parse_ts(s@.skip(i as int)) == Some((p.0, p.1 - i as int)) && i
            <= p.1 <= s@.len(),
{
    let ghost suf = s@.skip(i as int);
    if s.len() - i < 20 {
        return None;
    }
    proof {
        assert(forall|k: int| 0 <= k < 20 ==> suf[k] == s@[i + k]);
    }
    if !(s[i + 4] == '-' && s[i + 7] == '-' && s[i + 10] == 'T' && s[i + 13] == ':' && s[i + 16]
        == ':' && s[i + 19] == 'Z') {
        return None;
    }
    let a0 = digit_of(s[i]);
    let a1 = digit_of(s[i + 1]);
    let a2 = digit_of(s[i + 2]);
    let a3 = digit_of(s[i + 3]);
    let b0 = digit_of(s[i + 5]);
    let b1 = digit_of(s[i + 6]);
    let c0 = digit_of(s[i + 8]);
    let c1 = digit_of(s[i + 9]);
    let d0 = digit_of(s[i + 11]);
    let d1 = digit_of(s[i + 12]);
    let e0 = digit_of(s[i + 14]);
    let e1 = digit_of(s[i + 15]);
    let f0 = digit_of(s[i + 17]);
    let f1 = digit_of(s[i + 18]);
    match (a0, a1, a2, a3, b0, b1, c0, c1, d0, d1, e0, e1, f0, f1) {
        (
            Some(a0),
            Some(a1),
            Some(a2),
            Some(a3),
            Some(b0),
            Some(b1),
            Some(c0),
            Some(c1),
            Some(d0),
            Some(d1),
            Some(e0),
            Some(e1),
            Some(f0),
            Some(f1),
        ) => {
            let year: u16 = 1000 * a0 + 100 * a1 + 10 * a2 + a3;
            let month: u8 = (10 * b0 + b1) as u8;
            let day: u8 = (10 * c0 + c1) as u8;
            let hour: u8 = (10 * d0 + d1) as u8;
            let minute: u8 = (10 * e0 + e1) as u8;
            let second: u8 = (10 * f0 + f1) as u8;
            match Timestamp::new(year, month, day, hour, minute, second) {
                Some(t) => Some((t, i + 20)),
                None => None,
            }
        },
        _ => None,
    }
}

/// Read the refresh-timestamp line at position `i`.
fn parse_ts_line(s: &Vec<char>, i: usize) -> (r: Option<(Timestamp, usize)>)
    requires
        i <= s@.len(),
    ensures
        r is Some <==> sp_parse_ts_line(s@.skip(i as int)) is Some,
        r matches Some(p) ==> sp_parse_ts_line(s@.skip(i as int)) == Some((p.0, p.1 - i as int))
            && i <= p.1 <= s@.len(),
{
    match expect_str(s, i, "last_update = \"") {
        None => None,
        Some(k) => {
            proof {
                lemma_skip_skip(s@, i as int, "last_update = \""@.len() as int);
            }
            match parse_ts(s, k) {
                None => None,
                Some((t, j)) => {
                    proof {
                        lemma_skip_skip(s@, k as int, (j - k) as int);
                    }
                    match expect_str(s, j, "\"\n") {
                        None => None,
                        Some(j2) => Some((t, j2)),
                    }
                },
            }
        },
    }
}

/// Turn an optional character buffer into an optional string.
fn opt_chars_to_string(v: Option<Vec<char>>) -> (r: Option<String>)
    ensures
        r.deep_view() == v.deep_view(),
{
    match v {
        Some(x) => Some(chars_to_string(&x)),
        None => None,
    }
}

/// Read one gitmoji block at position `i`.
#[verifier::rlimit(100)]
#[verifier::spinoff_prover]
fn parse_gitmoji_block(s: &Vec<char>, i: usize) -> (r: Option<(Gitmoji, usize)>)
    requires
        i <= s@.len(),
    ensures
        r is Some <==> sp_parse_gitmoji_block(s@.skip(i as int)) is Some,
        r matches Some(p) ==> sp_parse_gitmoji_block(s@.skip(i as int)) == Some(
            (p.0@, p.1 - i as int),
        ) && i < p.1 <= s@.len(),
{
    match expect_str(s, i, "[[gitmojis]]\n") {
        None => None,
        Some(h) => {
            proof {
                reveal_strlit("[[gitmojis]]\n");
                lemma_skip_skip(s@, i as int, "[[gitmojis]]\n"@.len() as int);
            }
            match parse_string_line(s, h, "emoji = \"") {
                None => None,
                Some((emoji, j1)) => {
                    proof {
                        lemma_skip_skip(s@, h as int, j1 - h);
                    }
                    match parse_string_line(s, j1, "code = \"") {
                        None => None,
                        Some((code, j2)) => {
                            proof {
                                lemma_skip_skip(s@, j1 as int, j2 - j1);
                            }
                            let p3 = match parse_string_line(s, j2, "name = \"") {
                                Some((v, j)) => (Some(v), j),
                                None => (None, j2),
                            };
                            let name = p3.0;
                            let j3 = p3.1;
                            proof {
                                lemma_skip_skip(s@, j2 as int, j3 - j2);
                                assert(s@.skip(j2 as int).skip(0) =~= s@.skip(j2 as int));
                            }
                            let p4 = match parse_string_line(s, j3, "description = \"") {
                                Some((v, j)) => (Some(v), j),
                                None => (None, j3),
                            };
                            let description = p4.0;
                            let j4 = p4.1;
                            let ghost nm = name.deep_view();
                            let ghost ds = description.deep_view();
                            let g = Gitmoji::new(
                                chars_to_string(&emoji),
                                chars_to_string(&code),
                                opt_chars_to_string(name),
                                opt_chars_to_string(description),
                            );
                            proof {
                                match sp_parse_gitmoji_block(s@.skip(i as int)) {
                                    Some((gv, n)) => {
                                        assert(g@ =~= gv);
                                        assert(n == j4 - i as int);
                                    },
                                    None => {
                                        assert(false);
                                    },
                                }
                            }
                            Some((g, j4))
                        },
                    }
                },
            }
        },
    }
}

/// Read as many gitmoji blocks as stand at position `i`.
fn parse_gitmoji_list(s: &Vec<char>, i: usize) -> (r: (Vec<Gitmoji>, usize))
    requires
        i <= s@.len(),
    ensures
        ({
            let p = sp_parse_gitmoji_list(s@.skip(i as int));
            r.0.deep_view() == p.0 && r.1 - i as int == p.1 && i <= r.1 <= s@.len()
        }),
    decreases s@.len() - i,
{
    match parse_gitmoji_block(s, i) {
        None => {
            let empty: Vec<Gitmoji> = Vec::new();
            proof {
                assert(empty.deep_view() =~= Seq::<GitmojiV>::empty());
            }
            (empty, i)
        },
        Some((g, j)) => {
            proof {
                lemma_skip_skip(s@, i as int, j - i);
            }
            let p = parse_gitmoji_list(s, j);
            let mut rest = p.0;
            let m = p.1;
            let ghost before = rest.deep_view();
            rest.insert(0, g);
            proof {
                assert(rest.deep_view() =~= seq![g@] + before);
            }
            (rest, m)
        },
    }
}

/// Read one conventional-commit block at position `i`.
#[verifier::rlimit(100)]
#[verifier::spinoff_prover]
fn parse_conventional_block(s: &Vec<char>, i: usize) -> (r: Option<(ConventionalEmojiCommit, usize)>)
    requires
        i <= s@.len(),
    ensures
        r is Some <==> sp_parse_conventional_block(s@.skip(i as int)) is Some,
        r matches Some(p) ==> sp_parse_conventional_block(s@.skip(i as int)) == Some(
            (p.0@, p.1 - i as int),
        ) && i < p.1 <= s@.len(),
{
    match expect_str(s, i, "[[conventional_commit_emojis]]\n") {
        None => None,
        Some(h) => {
            proof {
                reveal_strlit("[[conventional_commit_emojis]]\n");
                lemma_skip_skip(s@, i as int, "[[conventional_commit_emojis]]\n"@.len() as int);
            }
            match parse_string_line(s, h, "emoji = \"") {
                None => None,
                Some((emoji, j1)) => {
                    proof {
                        lemma_skip_skip(s@, h as int, j1 - h);
                    }
                    match parse_string_line(s, j1, "code = \"") {
                        None => None,
                        Some((code, j2)) => {
                            proof {
                                lemma_skip_skip(s@, j1 as int, j2 - j1);
                            }
                            match parse_string_line(s, j2, "type = \"") {
                                None => None,
                                Some((commit_type, j3)) => {
                                    proof {
                                        lemma_skip_skip(s@, j2 as int, j3 - j2);
                                    }
                                    let p4 = match parse_string_line(s, j3, "description = \"") {
                                        Some((v, j)) => (Some(v), j),
                                        None => (None, j3),
                                    };
                                    let description = p4.0;
                                    let j4 = p4.1;
                                    let e = ConventionalEmojiCommit::new(
                                        chars_to_string(&emoji),
                                        chars_to_string(&code),
                                        chars_to_string(&commit_type),
                                        opt_chars_to_string(description),
                                    );
                                    proof {
                                        match sp_parse_conventional_block(s@.skip(i as int)) {
                                            Some((ev, n)) => {
                                                assert(e@ =~= ev);
                                                assert(n == j4 - i as int);
                                            },
                                            None => {
                                                assert(false);
                                            },
                                        }
                                    }
                                    Some((e, j4))
                                },
                            }
                        },
                    }
                },
            }
        },
    }
}

/// Read as many conventional-commit blocks as stand at position `i`.
fn parse_conventional_list(s: &Vec<char>, i: usize) -> (r: (Vec<ConventionalEmojiCommit>, usize))
    requires
        i <= s@.len(),
    ensures
        ({
            let p = sp_parse_conventional_list(s@.skip(i as int));
            r.0.deep_view() == p.0 && r.1 - i as int == p.1 && i <= r.1 <= s@.len()
        }),
    decreases s@.len() - i,
{
    match parse_conventional_block(s, i) {
        None => {
            let empty: Vec<ConventionalEmojiCommit> = Vec::new();
            proof {
                assert(empty.deep_view() =~= Seq::<ConventionalEmojiCommitV>::empty());
            }
            (empty, i)
        },
        Some((e, j)) => {
            proof {
                lemma_skip_skip(s@, i as int, j - i);
            }
            let p = parse_conventional_list(s, j);
            let mut rest = p.0;
            let m = p.1;
            let ghost before = rest.deep_view();
            rest.insert(0, e);
            proof {
                assert(rest.deep_view() =~= seq![e@] + before);
            }
            (rest, m)
        },
    }
}


/// A failed line fails the whole header, at each stage.
proof fn lemma_front_none_at_auto(s: Seq<char>)
    requires
        sp_parse_bool_line(s, "auto_add = "@) is None,
    ensures
        sp_parse_header_front(s) is None,
{
}

proof fn lemma_front_none_at_spec(s: Seq<char>, b: bool, n: int)
    requires
        sp_parse_bool_line(s, "auto_add = "@) == Some((b, n)),
        sp_parse_spec_line(s.skip(n)) is None,
    ensures
        sp_parse_header_front(s) is None,
{
}

proof fn lemma_front_none_at_format(
    s: Seq<char>,
    b: bool,
    v: CommitSpecification,
    n1: int,
    n2: int,
)
    requires
        sp_parse_bool_line(s, "auto_add = "@) == Some((b, n1)),
        sp_parse_spec_line(s.skip(n1)) == Some((v, n2)),
        sp_parse_format_line(s.skip(n1).skip(n2)) is None,
    ensures
        sp_parse_header_front(s) is None,
{
}

proof fn lemma_front_none_at_signed(
    s: Seq<char>,
    b: bool,
    v: CommitSpecification,
    f: EmojiFormat,
    n1: int,
    n2: int,
    n3: int,
)
    requires
        sp_parse_bool_line(s, "auto_add = "@) == Some((b, n1)),
        sp_parse_spec_line(s.skip(n1)) == Some((v, n2)),
        sp_parse_format_line(s.skip(n1).skip(n2)) == Some((f, n3)),
        sp_parse_bool_line(s.skip(n1).skip(n2).skip(n3), "signed = "@) is None,
    ensures
        sp_parse_header_front(s) is None,
{
}

proof fn lemma_front_none_at_scope(
    s: Seq<char>,
    b: bool,
    v: CommitSpecification,
    f: EmojiFormat,
    sg: bool,
    n1: int,
    n2: int,
    n3: int,
    n4: int,
)
    requires
        sp_parse_bool_line(s, "auto_add = "@) == Some((b, n1)),
        sp_parse_spec_line(s.skip(n1)) == Some((v, n2)),
        sp_parse_format_line(s.skip(n1).skip(n2)) == Some((f, n3)),
        sp_parse_bool_line(s.skip(n1).skip(n2).skip(n3), "signed = "@) == Some((sg, n4)),
        sp_parse_bool_line(s.skip(n1).skip(n2).skip(n3).skip(n4), "scope = "@) is None,
    ensures
        sp_parse_header_front(s) is None,
{
}

proof fn lemma_header_none_at_front(s: Seq<char>)
    requires
        sp_parse_header_front(s) is None,
    ensures
        sp_parse_header(s) is None,
{
}

proof fn lemma_header_none_at_url(s: Seq<char>, fr: HeaderFrontV, n: int)
    requires
        sp_parse_header_front(s) == Some((fr, n)),
        sp_parse_string_line(s.skip(n), "update_url = \""@) is None,
    ensures
        sp_parse_header(s) is None,
{
}

/// The scalar fields as read by the executable parser.
struct HeaderParts {
    auto_add: bool,
    specification: CommitSpecification,
    format: EmojiFormat,
    signed: bool,
    scope: bool,
    update_url: Vec<char>,
    last_update: Option<Timestamp>,
}

/// The five optional leading fields of a local override as read by the
/// executable parser.
struct LocalFront {
    auto_add: Option<bool>,
    specification: Option<CommitSpecification>,
    format: Option<EmojiFormat>,
    signed: Option<bool>,
    scope: Option<bool>,
}

/// The value the executable local front carries.
spec fn local_front_view(p: LocalFront) -> LocalFrontV {
    LocalFrontV {
        auto_add: p.auto_add,
        specification: p.specification,
        format: p.format,
        signed: p.signed,
        scope: p.scope,
    }
}

/// The five leading fields as read by the executable parser.
struct HeaderFront {
    auto_add: bool,
    specification: CommitSpecification,
    format: EmojiFormat,
    signed: bool,
    scope: bool,
}

/// The value the executable header carries.
spec fn header_parts_view(p: HeaderParts) -> HeaderV {
    HeaderV {
        auto_add: p.auto_add,
        specification: p.specification,
        format: p.format,
        signed: p.signed,
        scope: p.scope,
        update_url: p.update_url@,
        last_update: p.last_update,
    }
}

/// The value the executable front carries.
spec fn header_front_view(p: HeaderFront) -> HeaderFrontV {
    HeaderFrontV {
        auto_add: p.auto_add,
        specification: p.specification,
        format: p.format,
        signed: p.signed,
        scope: p.scope,
    }
}

/// Read the five leading lines at position `i`.
#[verifier::rlimit(100)]
#[verifier::spinoff_prover]
fn parse_header_front(s: &Vec<char>, i: usize) -> (r: Option<(HeaderFront, usize)>)
    requires
        i <= s@.len(),
    ensures
        r is Some <==> sp_parse_header_front(s@.skip(i as int)) is Some,
        r matches Some(p) ==> sp_parse_header_front(s@.skip(i as int)) == Some(
            (header_front_view(p.0), p.1 - i as int),
        ) && i <= p.1 <= s@.len(),
{
    let ghost suf = s@.skip(i as int);
    match parse_bool_line(s, i, "auto_add = ") {
        None => {
            proof {
                lemma_front_none_at_auto(suf);
            }
            None
        },
        Some((auto_add, i1)) => {
            proof {
                lemma_skip_skip(s@, i as int, i1 - i);
            }
            match parse_spec_line(s, i1) {
                None => {
                    proof {
                        lemma_front_none_at_spec(suf, auto_add, i1 - i);
                    }
                    None
                },
                Some((specification, i2)) => {
                    proof {
                        lemma_skip_skip(s@, i1 as int, i2 - i1);
                    }
                    match parse_format_line(s, i2) {
                        None => {
                            proof {
                                lemma_front_none_at_format(
                                    suf,
                                    auto_add,
                                    specification,
                                    i1 - i,
                                    i2 - i1,
                                );
                            }
                            None
                        },
                        Some((format, i3)) => {
                            proof {
                                lemma_skip_skip(s@, i2 as int, i3 - i2);
                            }
                            match parse_bool_line(s, i3, "signed = ") {
                                None => {
                                    proof {
                                        lemma_front_none_at_signed(
                                            suf,
                                            auto_add,
                                            specification,
                                            format,
                                            i1 - i,
                                            i2 - i1,
                                            i3 - i2,
                                        );
                                    }
                                    None
                                },
                                Some((signed, i4)) => {
                                    proof {
                                        lemma_skip_skip(s@, i3 as int, i4 - i3);
                                    }
                                    match parse_bool_line(s, i4, "scope = ") {
                                        None => {
                                            proof {
                                                lemma_front_none_at_scope(
                                                    suf,
                                                    auto_add,
                                                    specification,
                                                    format,
                                                    signed,
                                                    i1 - i,
                                                    i2 - i1,
                                                    i3 - i2,
                                                    i4 - i3,
                                                );
                                            }
                                            None
                                        },
                                        Some((scope, i5)) => {
                                            let parts = HeaderFront {
                                                auto_add,
                                                specification,
                                                format,
                                                signed,
                                                scope,
                                            };
                                            proof {
                                                lemma_skip_skip(s@, i4 as int, i5 - i4);
                                                lemma_front_assemble(
                                                    suf,
                                                    s@.skip(i1 as int),
                                                    s@.skip(i2 as int),
                                                    s@.skip(i3 as int),
                                                    s@.skip(i4 as int),
                                                    s@.skip(i5 as int),
                                                    header_front_view(parts),
                                                    i1 - i,
                                                    i2 - i1,
                                                    i3 - i2,
                                                    i4 - i3,
                                                    i5 - i4,
                                                );
                                            }
                                            Some((parts, i5))
                                        },
                                    }
                                },
                            }
                        },
                    }
                },
            }
        },
    }
}

/// Read the scalar lines at position `i`.
#[verifier::rlimit(100)]
#[verifier::spinoff_prover]
fn parse_header(s: &Vec<char>, i: usize) -> (r: Option<(HeaderParts, usize)>)
    requires
        i <= s@.len(),
    ensures
        r is Some <==> sp_parse_header(s@.skip(i as int)) is Some,
        r matches Some(p) ==> sp_parse_header(s@.skip(i as int)) == Some(
            (header_parts_view(p.0), p.1 - i as int),
        ) && i <= p.1 <= s@.len(),
{
    let ghost suf = s@.skip(i as int);
    match parse_header_front(s, i) {
        None => {
            proof {
                lemma_header_none_at_front(suf);
            }
            None
        },
        Some((fr, i5)) => {
            proof {
                lemma_skip_skip(s@, i as int, i5 - i);
            }
            match parse_string_line(s, i5, "update_url = \"") {
                None => {
                    proof {
                        lemma_header_none_at_url(suf, header_front_view(fr), i5 - i);
                    }
                    None
                },
                Some((update_url, i6)) => {
                    proof {
                        lemma_skip_skip(s@, i5 as int, i6 - i5);
                    }
                    let p7 = match parse_ts_line(s, i6) {
                        Some((t, j)) => (Some(t), j),
                        None => (None, i6),
                    };
                    let last_update = p7.0;
                    let i7 = p7.1;
                    let parts = HeaderParts {
                        auto_add: fr.auto_add,
                        specification: fr.specification,
                        format: fr.format,
                        signed: fr.signed,
                        scope: fr.scope,
                        update_url,
                        last_update,
                    };
                    proof {
                        lemma_skip_skip(s@, i6 as int, i7 - i6);
                        let r7 = s@.skip(i6 as int);
                        if last_update is None {
                            assert(r7.skip(0) =~= r7);
                        }
                        lemma_header_assemble(
                            suf,
                            r7,
                            s@.skip(i7 as int),
                            header_parts_view(parts),
                            i5 - i,
                            i6 - i5,
                            i7 - i6,
                        );
                    }
                    Some((parts, i7))
                },
            }
        },
    }
}

/// Read the whole document.
#[verifier::rlimit(100)]
fn parse_config_chars(s: &Vec<char>) -> (r: Option<GitmojiConfig>)
    ensures
        r is Some <==> sp_parse_config(s@) is Some,
        r matches Some(c) ==> sp_parse_config(s@) == Some(c@),
{
    proof {
        assert(s@.skip(0) =~= s@);
    }
    match parse_header(s, 0) {
        None => None,
        Some((parts, i7)) => {
            proof {
                lemma_skip_skip(s@, 0, i7 as int);
            }
            let p8 = parse_gitmoji_list(s, i7);
            let i8 = p8.1;
            proof {
                lemma_skip_skip(s@, i7 as int, i8 - i7);
            }
            let p9 = parse_conventional_list(s, i8);
            let i9 = p9.1;
            proof {
                lemma_skip_skip(s@, i8 as int, i9 - i8);
            }
            if i9 == s.len() {
                let c = GitmojiConfig::from_parts(
                    parts.auto_add,
                    parts.specification,
                    parts.format,
                    parts.signed,
                    parts.scope,
                    chars_to_string(&parts.update_url),
                    parts.last_update,
                    p8.0,
                    p9.0,
                );
                proof {
                    match sp_parse_config(s@) {
                        Some(cv) => {
                            assert(c@ =~= cv);
                        },
                        None => {
                            assert(false);
                        },
                    }
                }
                Some(c)
            } else {
                None
            }
        },
    }
}

/// Parse the persisted global configuration from its text. The stored
/// update URL is taken as it stands: URL validation happens where a URL
/// enters the system (`validate_url`, `set_update_url`, `build_config`),
/// and this system itself only persists URLs that passed it.
pub fn config_from_toml(s: &str) -> (r: Result<GitmojiConfig, Error>)
    ensures
        r is Ok <==> sp_parse_config(s@) is Some,
        r matches Ok(c) ==> sp_parse_config(s@) == Some(c@),
        r matches Err(e) ==> e == Error::ParseError,
{
    let cs = str_to_chars(s);
    match parse_config_chars(&cs) {
        Some(c) => Ok(c),
        None => Err(Error::ParseError),
    }
}



/// Read an optional boolean line: absence is not an error.
fn try_bool_line(s: &Vec<char>, i: usize, key: &str) -> (r: (Option<bool>, usize))
    requires
        i <= s@.len(),
    ensures
        (match r.0 {
            Some(b) => sp_parse_bool_line(s@.skip(i as int), key@) == Some((b, r.1 - i as int)),
            None => sp_parse_bool_line(s@.skip(i as int), key@) is None && r.1 == i,
        }),
        i <= r.1 <= s@.len(),
{
    match parse_bool_line(s, i, key) {
        Some((b, j)) => (Some(b), j),
        None => (None, i),
    }
}

/// Read an optional specification line.
fn try_spec_line(s: &Vec<char>, i: usize) -> (r: (Option<CommitSpecification>, usize))
    requires
        i <= s@.len(),
    ensures
        (match r.0 {
            Some(v) => sp_parse_spec_line(s@.skip(i as int)) == Some((v, r.1 - i as int)),
            None => sp_parse_spec_line(s@.skip(i as int)) is None && r.1 == i,
        }),
        i <= r.1 <= s@.len(),
{
    match parse_spec_line(s, i) {
        Some((v, j)) => (Some(v), j),
        None => (None, i),
    }
}

/// Read an optional format line.
fn try_format_line(s: &Vec<char>, i: usize) -> (r: (Option<EmojiFormat>, usize))
    requires
        i <= s@.len(),
    ensures
        (match r.0 {
            Some(v) => sp_parse_format_line(s@.skip(i as int)) == Some((v, r.1 - i as int)),
            None => sp_parse_format_line(s@.skip(i as int)) is None && r.1 == i,
        }),
        i <= r.1 <= s@.len(),
{
    match parse_format_line(s, i) {
        Some((v, j)) => (Some(v), j),
        None => (None, i),
    }
}

/// Assembling the local front from its optional line-by-line facts.
proof fn lemma_local_front_assemble(
    s: Seq<char>,
    r2: Seq<char>,
    r3: Seq<char>,
    r4: Seq<char>,
    r5: Seq<char>,
    r6: Seq<char>,
    fr: LocalFrontV,
    n1: int,
    n2: int,
    n3: int,
    n4: int,
    n5: int,
)
    requires
        match fr.auto_add {
            Some(b) => sp_parse_bool_line(s, "auto_add = "@) == Some((b, n1)),
            None => sp_parse_bool_line(s, "auto_add = "@) is None && n1 == 0,
        },
        s.skip(n1) == r2,
        match fr.specification {
            Some(v) => sp_parse_spec_line(r2) == Some((v, n2)),
            None => sp_parse_spec_line(r2) is None && n2 == 0,
        },
        r2.skip(n2) == r3,
        match fr.format {
            Some(v) => sp_parse_format_line(r3) == Some((v, n3)),
            None => sp_parse_format_line(r3) is None && n3 == 0,
        },
        r3.skip(n3) == r4,
        match fr.signed {
            Some(b) => sp_parse_bool_line(r4, "signed = "@) == Some((b, n4)),
            None => sp_parse_bool_line(r4, "signed = "@) is None && n4 == 0,
        },
        r4.skip(n4) == r5,
        match fr.scope {
            Some(b) => sp_parse_bool_line(r5, "scope = "@) == Some((b, n5)),
            None => sp_parse_bool_line(r5, "scope = "@) is None && n5 == 0,
        },
        r5.skip(n5) == r6,
        0 <= n1 && 0 <= n2 && 0 <= n3 && 0 <= n4 && 0 <= n5,
        n1 + n2 + n3 + n4 + n5 <= s.len(),
    ensures
        sp_parse_local_front(s) == (fr, n1 + n2 + n3 + n4 + n5),
        s.skip(n1 + n2 + n3 + n4 + n5) == r6,
{
    let p = sp_parse_local_front(s);
    assert(p.0 =~= fr);
    lemma_skip_skip(s, n1, n2);
    lemma_skip_skip(s, n1 + n2, n3);
    lemma_skip_skip(s, n1 + n2 + n3, n4);
    lemma_skip_skip(s, n1 + n2 + n3 + n4, n5);
}

/// Read the five optional leading lines of a local override at position `i`.
#[verifier::rlimit(100)]
#[verifier::spinoff_prover]
fn parse_local_front(s: &Vec<char>, i: usize) -> (r: (LocalFront, usize))
    requires
        i <= s@.len(),
    ensures
        sp_parse_local_front(s@.skip(i as int)) == (local_front_view(r.0), r.1 - i as int),
        i <= r.1 <= s@.len(),
{
    let ghost suf = s@.skip(i as int);
    let p1 = try_bool_line(s, i, "auto_add = ");
    let i1 = p1.1;
    proof {
        lemma_skip_skip(s@, i as int, i1 - i);
    }
    let p2 = try_spec_line(s, i1);
    let i2 = p2.1;
    proof {
        lemma_skip_skip(s@, i1 as int, i2 - i1);
    }
    let p3 = try_format_line(s, i2);
    let i3 = p3.1;
    proof {
        lemma_skip_skip(s@, i2 as int, i3 - i2);
    }
    let p4 = try_bool_line(s, i3, "signed = ");
    let i4 = p4.1;
    proof {
        lemma_skip_skip(s@, i3 as int, i4 - i3);
    }
    let p5 = try_bool_line(s, i4, "scope = ");
    let i5 = p5.1;
    let fr = LocalFront {
        auto_add: p1.0,
        specification: p2.0,
        format: p3.0,
        signed: p4.0,
        scope: p5.0,
    };
    proof {
        lemma_skip_skip(s@, i4 as int, i5 - i4);
        lemma_local_front_assemble(
            suf,
            s@.skip(i1 as int),
            s@.skip(i2 as int),
            s@.skip(i3 as int),
            s@.skip(i4 as int),
            s@.skip(i5 as int),
            local_front_view(fr),
            i1 - i,
            i2 - i1,
            i3 - i2,
            i4 - i3,
            i5 - i4,
        );
    }
    (fr, i5)
}

/// Read an optional overriding gitmoji catalog at position `i`.
fn parse_local_gitmojis(s: &Vec<char>, i: usize) -> (r: (Option<Vec<Gitmoji>>, usize))
    requires
        i <= s@.len(),
    ensures
        ({
            let p = sp_parse_local_gitmojis(s@.skip(i as int));
            r.0.deep_view() == p.0 && r.1 - i as int == p.1 && i <= r.1 <= s@.len()
        }),
{
    match expect_str(s, i, "gitmojis = []\n") {
        Some(j) => {
            let empty: Vec<Gitmoji> = Vec::new();
            proof {
                assert(Some(empty).deep_view() =~= Some(Seq::<GitmojiV>::empty()));
            }
            (Some(empty), j)
        },
        None => {
            let p = parse_gitmoji_list(s, i);
            if p.0.len() > 0 {
                (Some(p.0), p.1)
            } else {
                (None, i)
            }
        },
    }
}

/// Read an optional overriding conventional-commit catalog at position `i`.
fn parse_local_conventionals(s: &Vec<char>, i: usize) -> (r: (
    Option<Vec<ConventionalEmojiCommit>>,
    usize,
))
    requires
        i <= s@.len(),
    ensures
        ({
            let p = sp_parse_local_conventionals(s@.skip(i as int));
            r.0.deep_view() == p.0 && r.1 - i as int == p.1 && i <= r.1 <= s@.len()
        }),
{
    match expect_str(s, i, "conventional_commit_emojis = []\n") {
        Some(j) => {
            let empty: Vec<ConventionalEmojiCommit> = Vec::new();
            proof {
                assert(Some(empty).deep_view() =~= Some(Seq::<ConventionalEmojiCommitV>::empty()));
            }
            (Some(empty), j)
        },
        None => {
            let p = parse_conventional_list(s, i);
            if p.0.len() > 0 {
                (Some(p.0), p.1)
            } else {
                (None, i)
            }
        },
    }
}

/// Read a whole local override document.
#[verifier::rlimit(100)]
#[verifier::spinoff_prover]
fn parse_local_chars(s: &Vec<char>) -> (r: Option<LocalGitmojiConfig>)
    ensures
        r is Some <==> sp_parse_local(s@) is Some,
        r matches Some(c) ==> sp_parse_local(s@) == Some(c@),
{
    proof {
        assert(s@.skip(0) =~= s@);
    }
    let (fr, i5) = parse_local_front(s, 0);
    proof {
        lemma_skip_skip(s@, 0, i5 as int);
    }
    let p6 = parse_local_gitmojis(s, i5);
    let i6 = p6.1;
    proof {
        lemma_skip_skip(s@, i5 as int, i6 - i5);
    }
    let p7 = parse_local_conventionals(s, i6);
    let i7 = p7.1;
    proof {
        lemma_skip_skip(s@, i6 as int, i7 - i6);
    }
    if i7 == s.len() {
        let c = LocalGitmojiConfig::new(
            fr.auto_add,
            fr.specification,
            fr.format,
            fr.signed,
            fr.scope,
            p6.0,
            p7.0,
        );
        proof {
            match sp_parse_local(s@) {
                Some(cv) => {
                    assert(c@ =~= cv);
                },
                None => {
                    assert(false);
                },
            }
        }
        Some(c)
    } else {
        None
    }
}

/// Parse a local override from its text. An absent file is not this
/// function's concern: the caller hands in text only when the file exists,
/// and malformed text is a parse error.
pub fn local_config_from_toml(s: &str) -> (r: Result<LocalGitmojiConfig, Error>)
    ensures
        r is Ok <==> sp_parse_local(s@) is Some,
        r matches Ok(c) ==> sp_parse_local(s@) == Some(c@),
        r matches Err(e) ==> e == Error::ParseError,
{
    let cs = str_to_chars(s);
    match parse_local_chars(&cs) {
        Some(c) => Ok(c),
        None => Err(Error::ParseError),
    }
}

} // verus!
