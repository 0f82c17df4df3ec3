//! Character-level scanning shared by the configuration-file codec and the
//! catalog parser: string escaping, literal tokens, digits, and the lemmas
//! that make rendered text parse back to the value it came from.

use vstd::prelude::*;
use vstd::std_specs::iter::IteratorSpec;

verus! {

/// How one character is written inside a quoted string: the quote, the
/// backslash, newline, carriage return and tab are escaped, every other
/// character stands for itself.
pub open spec fn escape_char(c: char) -> Seq<char> {
    if c == '"' {
        seq!['\\', '"']
    } else if c == '\\' {
        seq!['\\', '\\']
    } else if c == '\n' {
        seq!['\\', 'n']
    } else if c == '\r' {
        seq!['\\', 'r']
    } else if c == '\t' {
        seq!['\\', 't']
    } else {
        seq![c]
    }
}

/// The character an escape letter stands for; `None` for an unknown escape.
pub open spec fn sp_unescape_char(c: char) -> Option<char> {
    if c == '"' {
        Some('"')
    } else if c == '\\' {
        Some('\\')
    } else if c == 'n' {
        Some('\n')
    } else if c == 'r' {
        Some('\r')
    } else if c == 't' {
        Some('\t')
    } else {
        None
    }
}

/// A whole string as it is written inside quotes.
pub open spec fn escape(v: Seq<char>) -> Seq<char>
    decreases v.len(),
{
    if v.len() == 0 {
        Seq::empty()
    } else {
        escape_char(v[0]) + escape(v.skip(1))
    }
}

/// Escaping distributes over appending one character.
pub proof fn lemma_escape_push(v: Seq<char>, c: char)
    ensures
        escape(v.push(c)) == escape(v) + escape_char(c),
    decreases v.len(),
{
    if v.len() == 0 {
        assert(v.push(c)[0] == c);
        assert(v.push(c).skip(1) =~= Seq::<char>::empty());
        assert(escape(Seq::<char>::empty()) == Seq::<char>::empty());
        assert(escape(v.push(c)) == escape_char(c) + escape(Seq::<char>::empty()));
        assert(escape(v.push(c)) =~= escape(v) + escape_char(c));
    } else {
        assert(v.push(c)[0] == v[0]);
        assert(v.push(c).skip(1) =~= v.skip(1).push(c));
        lemma_escape_push(v.skip(1), c);
        assert(escape(v.push(c)) == escape_char(v[0]) + escape(v.skip(1).push(c)));
        assert(escape(v.push(c)) =~= escape(v) + escape_char(c));
    }
}

/// What remains of a concatenation after its first part is consumed.
pub proof fn lemma_parts_of_add(a: Seq<char>, b: Seq<char>)
    ensures
        (a + b).skip(a.len() as int) == b,
        (a + b).take(a.len() as int) == a,
        (a + b).len() == a.len() + b.len(),
{
    assert((a + b).skip(a.len() as int) =~= b);
    assert((a + b).take(a.len() as int) =~= a);
}

/// Concatenation is associative.
pub proof fn lemma_add_assoc(a: Seq<char>, b: Seq<char>, c: Seq<char>)
    ensures
        (a + b) + c == a + (b + c),
{
    assert((a + b) + c =~= a + (b + c));
}

/// Consuming in two steps is consuming once.
pub proof fn lemma_skip_skip(s: Seq<char>, a: int, b: int)
    requires
        0 <= a,
        0 <= b,
        a + b <= s.len(),
    ensures
        s.skip(a).skip(b) == s.skip(a + b),
{
    assert(s.skip(a).skip(b) =~= s.skip(a + b));
}

/// Does `s` start with the token `t`? `Some` holds the token's length.
pub open spec fn sp_expect(s: Seq<char>, t: Seq<char>) -> Option<int> {
    if s.len() >= t.len() && s.take(t.len() as int) == t {
        Some(t.len() as int)
    } else {
        None
    }
}

/// A token at the front of a concatenation is found there.
pub proof fn lemma_expect_prefix(t: Seq<char>, rest: Seq<char>)
    ensures
        sp_expect(t + rest, t) == Some(t.len() as int),
{
    lemma_parts_of_add(t, rest);
}

/// A text whose character at position `k` differs from the token's (or which
/// ends before `k`) does not start with the token.
pub proof fn lemma_expect_mismatch(s: Seq<char>, t: Seq<char>, k: int)
    requires
        0 <= k < t.len(),
        k < s.len() ==> s[k] != t[k],
    ensures
        sp_expect(s, t) is None,
{
    if s.len() >= t.len() && s.take(t.len() as int) == t {
        assert(s.take(t.len() as int)[k] == s[k]);
    }
}

/// Check whether the token `t` stands at position `i` of `s`.
pub fn expect_at(s: &Vec<char>, i: usize, t: &Vec<char>) -> (r: Option<usize>)
    requires
        i <= s@.len(),
    ensures
        r is Some <==> sp_expect(s@.skip(i as int), t@) is Some,
        r matches Some(j) ==> j == i + t@.len() && j <= s@.len(),
{
    if s.len() - i < t.len() {
        proof {
            if sp_expect(s@.skip(i as int), t@) is Some {
                assert(s@.skip(i as int).len() >= t@.len());
            }
        }
        return None;
    }
    let mut j: usize = 0;
    while j < t.len()
        invariant
            j <= t@.len(),
            i <= s@.len(),
            s@.len() - i >= t@.len(),
            s@.len() <= usize::MAX,
            forall|k: int| 0 <= k < j ==> s@.skip(i as int)[k] == t@[k],
        decreases t@.len() - j,
    {
        if s[i + j] != t[j] {
            proof {
                assert(s@.skip(i as int)[j as int] == s@[i + j]);
                lemma_expect_mismatch(s@.skip(i as int), t@, j as int);
            }
            return None;
        }
        proof {
            assert(s@.skip(i as int)[j as int] == s@[i + j]);
        }
        j = j + 1;
    }
    proof {
        assert(s@.skip(i as int).take(t@.len() as int) =~= t@);
    }
    Some(i + t.len())
}

/// The characters of a string slice, in order.
pub fn str_to_chars(s: &str) -> (r: Vec<char>)
    ensures
        r@ == s@,
{
    broadcast use vstd::string::group_string_axioms;

    let mut it = s.chars();
    let mut out: Vec<char> = Vec::new();
    loop
        invariant
            it.obeys_prophetic_iter_laws(),
            out@ + IteratorSpec::remaining(&it) == s@,
        decreases s@.len() - out@.len(),
    {
        match it.next() {
            Some(c) => {
                out.push(c);
                proof {
                    assert(out@ + IteratorSpec::remaining(&it) =~= s@);
                }
            },
            None => {
                proof {
                    assert(out@ =~= s@);
                }
                return out;
            },
        }
    }
}

/// Check whether the literal token `t` stands at position `i` of `s`.
pub fn expect_str(s: &Vec<char>, i: usize, t: &str) -> (r: Option<usize>)
    requires
        i <= s@.len(),
    ensures
        r is Some <==> sp_expect(s@.skip(i as int), t@) is Some,
        r matches Some(j) ==> j == i + t@.len() && j <= s@.len(),
{
    let tv = str_to_chars(t);
    expect_at(s, i, &tv)
}

/// Append the characters of a string slice.
pub fn push_str_chars(out: &mut Vec<char>, s: &str)
    ensures
        final(out)@ == old(out)@ + s@,
{
    let cs = str_to_chars(s);
    let mut i: usize = 0;
    while i < cs.len()
        invariant
            i <= cs@.len(),
            cs@ == s@,
            out@ == old(out)@ + s@.take(i as int),
        decreases cs@.len() - i,
    {
        out.push(cs[i]);
        proof {
            assert(old(out)@ + s@.take(i as int) + seq![s@[i as int]] =~= old(out)@ + s@.take(
                i as int + 1,
            ));
        }
        i = i + 1;
    }
    proof {
        assert(old(out)@ + s@.take(i as int) =~= old(out)@ + s@);
    }
}

/// Append one character's escaped form.
fn push_escaped_char(out: &mut Vec<char>, c: char)
    ensures
        final(out)@ == old(out)@ + escape_char(c),
{
    if c == '"' {
        out.push('\\');
        out.push('"');
    } else if c == '\\' {
        out.push('\\');
        out.push('\\');
    } else if c == '\n' {
        out.push('\\');
        out.push('n');
    } else if c == '\r' {
        out.push('\\');
        out.push('r');
    } else if c == '\t' {
        out.push('\\');
        out.push('t');
    } else {
        out.push(c);
    }
    proof {
        assert(out@ =~= old(out)@ + escape_char(c));
    }
}

/// Append a string's escaped form.
pub fn push_escaped(out: &mut Vec<char>, s: &str)
    ensures
        final(out)@ == old(out)@ + escape(s@),
{
    let cs = str_to_chars(s);
    let mut i: usize = 0;
    while i < cs.len()
        invariant
            i <= cs@.len(),
            cs@ == s@,
            out@ == old(out)@ + escape(s@.take(i as int)),
        decreases cs@.len() - i,
    {
        proof {
            assert(escape(s@.take(0)) =~= Seq::<char>::empty());
        }
        push_escaped_char(out, cs[i]);
        proof {
            assert(s@.take(i as int).push(s@[i as int]) =~= s@.take(i as int + 1));
            lemma_escape_push(s@.take(i as int), s@[i as int]);
        }
        i = i + 1;
    }
    proof {
        assert(s@.take(i as int) =~= s@);
    }
}

/// The body of a quoted string: the characters up to an unescaped closing
/// quote, unescaped; `Some` carries the value and how many characters were
/// consumed, the closing quote included. A raw newline or an unknown escape
/// is malformed.
pub open spec fn sp_str_body(s: Seq<char>) -> Option<(Seq<char>, int)>
    decreases s.len(),
{
    if s.len() == 0 {
        None
    } else if s[0] == '"' {
        Some((Seq::empty(), 1))
    } else if s[0] == '\\' {
        if s.len() < 2 {
            None
        } else {
            match sp_unescape_char(s[1]) {
                Some(c) => match sp_str_body(s.skip(2)) {
                    Some((v, n)) => Some((seq![c] + v, n + 2)),
                    None => None,
                },
                None => None,
            }
        }
    } else if s[0] == '\n' {
        None
    } else {
        match sp_str_body(s.skip(1)) {
            Some((v, n)) => Some((seq![s[0]] + v, n + 1)),
            None => None,
        }
    }
}

/// A parsed string body consumes at least the closing quote and no more than
/// the whole text.
pub proof fn lemma_str_body_bounds(s: Seq<char>)
    ensures
        sp_str_body(s) matches Some((v, n)) ==> 1 <= n <= s.len(),
    decreases s.len(),
{
    if s.len() > 0 && s[0] == '\\' && s.len() >= 2 {
        lemma_str_body_bounds(s.skip(2));
    } else if s.len() > 0 {
        lemma_str_body_bounds(s.skip(1));
    }
}

/// The escaped form of any string, followed by the closing quote, parses
/// back to exactly that string.
pub proof fn lemma_str_body_of_escape(v: Seq<char>, rest: Seq<char>)
    ensures
        sp_str_body(escape(v) + seq!['"'] + rest) == Some((v, escape(v).len() as int + 1)),
    decreases v.len(),
{
    let q = seq!['"'];
    if v.len() == 0 {
        assert(escape(v) + q + rest =~= q + rest);
        assert((q + rest)[0] == '"');
        assert(sp_str_body(escape(v) + q + rest) == Some((Seq::<char>::empty(), 1int)));
        assert(v =~= Seq::<char>::empty());
    } else {
        let c = v[0];
        let e = escape_char(c);
        let tail = escape(v.skip(1));
        let s = escape(v) + q + rest;
        assert(escape(v) == e + tail);
        lemma_str_body_of_escape(v.skip(1), rest);
        let s1 = tail + q + rest;
        if c == '"' || c == '\\' || c == '\n' || c == '\r' || c == '\t' {
            assert(e.len() == 2);
            assert(s[0] == e[0] && s[1] == e[1]);
            assert(s[0] == '\\');
            assert(sp_unescape_char(e[1]) == Some(c));
            assert(s.len() >= 2);
            assert(s.skip(2) =~= s1);
            assert(seq![c] + v.skip(1) =~= v);
            assert(s.len() == escape(v).len() + 1 + rest.len());
        } else {
            assert(e =~= seq![c]);
            assert(s[0] == c);
            assert(s[0] != '"' && s[0] != '\\' && s[0] != '\n');
            assert(s.skip(1) =~= s1);
            assert(seq![c] + v.skip(1) =~= v);
        }
    }
}

/// Read a quoted string's body starting at position `i` (just past the
/// opening quote).
pub fn parse_string_body(s: &Vec<char>, i: usize) -> (r: Option<(Vec<char>, usize)>)
    requires
        i <= s@.len(),
    ensures
        r is Some <==> sp_str_body(s@.skip(i as int)) is Some,
        r matches Some(p) ==> {
            &&& sp_str_body(s@.skip(i as int)) matches Some((v, n)) && p.0@ == v && p.1 == i + n
            &&& i < p.1 <= s@.len()
        },
{
    let ghost s0 = s@.skip(i as int);
    let mut acc: Vec<char> = Vec::new();
    let mut j: usize = i;
    loop
        invariant
            i <= j <= s@.len(),
            s0 == s@.skip(i as int),
            match sp_str_body(s@.skip(j as int)) {
                Some((v, n)) => sp_str_body(s0) == Some::<(Seq<char>, int)>(
                    (acc@ + v, j - i + n),
                ),
                None => sp_str_body(s0) is None,
            },
        decreases s@.len() - j,
    {
        proof {
            lemma_str_body_bounds(s@.skip(j as int));
        }
        if j >= s.len() {
            return None;
        }
        let c = s[j];
        proof {
            assert(s@.skip(j as int)[0] == s@[j as int]);
        }
        if c == '"' {
            proof {
                assert(sp_str_body(s@.skip(j as int)) == Some((Seq::<char>::empty(), 1int)));
                assert(acc@ + Seq::<char>::empty() =~= acc@);
            }
            return Some((acc, j + 1));
        } else if c == '\\' {
            if j + 1 >= s.len() {
                proof {
                    assert(s@.skip(j as int).len() < 2);
                }
                return None;
            }
            let x = s[j + 1];
            proof {
                assert(s@.skip(j as int)[1] == s@[j + 1]);
            }
            let u: char;
            if x == '"' {
                u = '"';
            } else if x == '\\' {
                u = '\\';
            } else if x == 'n' {
                u = '\n';
            } else if x == 'r' {
                u = '\r';
            } else if x == 't' {
                u = '\t';
            } else {
                proof {
                    assert(sp_unescape_char(x) is None);
                }
                return None;
            }
            proof {
                assert(sp_unescape_char(x) == Some(u));
                lemma_skip_skip(s@, j as int, 2);
                match sp_str_body(s@.skip(j as int + 2)) {
                    Some((v2, n2)) => {
                        assert(acc@ + (seq![u] + v2) =~= acc@.push(u) + v2);
                    },
                    None => {},
                }
            }
            acc.push(u);
            j = j + 2;
        } else if c == '\n' {
            return None;
        } else {
            proof {
                lemma_skip_skip(s@, j as int, 1);
                match sp_str_body(s@.skip(j as int + 1)) {
                    Some((v2, n2)) => {
                        assert(acc@ + (seq![c] + v2) =~= acc@.push(c) + v2);
                    },
                    None => {},
                }
            }
            acc.push(c);
            j = j + 1;
        }
    }
}

/// The decimal digit characters.
pub open spec fn sp_digit_char(n: int) -> char {
    if n == 0 {
        '0'
    } else if n == 1 {
        '1'
    } else if n == 2 {
        '2'
    } else if n == 3 {
        '3'
    } else if n == 4 {
        '4'
    } else if n == 5 {
        '5'
    } else if n == 6 {
        '6'
    } else if n == 7 {
        '7'
    } else if n == 8 {
        '8'
    } else {
        '9'
    }
}

/// The value of a decimal digit character; `None` for any other character.
pub open spec fn sp_digit_of(c: char) -> Option<int> {
    if c == '0' {
        Some(0)
    } else if c == '1' {
        Some(1)
    } else if c == '2' {
        Some(2)
    } else if c == '3' {
        Some(3)
    } else if c == '4' {
        Some(4)
    } else if c == '5' {
        Some(5)
    } else if c == '6' {
        Some(6)
    } else if c == '7' {
        Some(7)
    } else if c == '8' {
        Some(8)
    } else if c == '9' {
        Some(9)
    } else {
        None
    }
}

/// Reading back a rendered digit yields the digit.
pub proof fn lemma_digit_roundtrip(n: int)
    requires
        0 <= n <= 9,
    ensures
        sp_digit_of(sp_digit_char(n)) == Some(n),
{
}

/// Render one decimal digit.
pub fn digit_char(n: u16) -> (r: char)
    requires
        n < 10,
    ensures
        r == sp_digit_char(n as int),
{
    match n {
        0 => '0',
        1 => '1',
        2 => '2',
        3 => '3',
        4 => '4',
        5 => '5',
        6 => '6',
        7 => '7',
        8 => '8',
        _ => '9',
    }
}

/// Read one decimal digit.
pub fn digit_of(c: char) -> (r: Option<u16>)
    ensures
        r is Some <==> sp_digit_of(c) is Some,
        r matches Some(d) ==> Some(d as int) == sp_digit_of(c) && d < 10,
{
    match c {
        '0' => Some(0),
        '1' => Some(1),
        '2' => Some(2),
        '3' => Some(3),
        '4' => Some(4),
        '5' => Some(5),
        '6' => Some(6),
        '7' => Some(7),
        '8' => Some(8),
        '9' => Some(9),
        _ => None,
    }
}

} // verus!
