//! Joining lines, and turning the lines of a text input into a list of
//! links.
use vstd::prelude::*;

verus! {

/// Whether a character has the Unicode White_Space property: the controls
/// U+0009 to U+000D, the space, U+0085, the no-break space, the Ogham space
/// mark, the spaces U+2000 to U+200A, the line and paragraph separators,
/// the narrow no-break space, the medium mathematical space and the
/// ideographic space.
pub open spec fn is_white_space(c: char) -> bool {
    let n = c as u32;
    ||| 0x09 <= n <= 0x0d
    ||| n == 0x20
    ||| n == 0x85
    ||| n == 0xa0
    ||| n == 0x1680
    ||| 0x2000 <= n <= 0x200a
    ||| n == 0x2028
    ||| n == 0x2029
    ||| n == 0x202f
    ||| n == 0x205f
    ||| n == 0x3000
}

/// Number of white space characters at the start of `s`.
pub open spec fn leading_blanks(s: Seq<char>) -> nat
    decreases s.len(),
{
    if s.len() > 0 && is_white_space(s[0]) {
        1 + leading_blanks(s.drop_first())
    } else {
        0
    }
}

/// Number of white space characters at the end of `s`.
pub open spec fn trailing_blanks(s: Seq<char>) -> nat
    decreases s.len(),
{
    if s.len() > 0 && is_white_space(s.last()) {
        1 + trailing_blanks(s.drop_last())
    } else {
        0
    }
}

/// `s` without the white space at its start and at its end.
pub open spec fn trimmed(s: Seq<char>) -> Seq<char> {
    let t = s.skip(leading_blanks(s) as int);
    t.take(t.len() - trailing_blanks(t))
}

/// Whether a character has the Unicode White_Space property.
fn is_whitespace(c: char) -> (b: bool)
    ensures
        b == is_white_space(c),
{
    let n = c as u32;
    (0x09 <= n && n <= 0x0d) || n == 0x20 || n == 0x85 || n == 0xa0 || n == 0x1680 || (0x2000 <= n
        && n <= 0x200a) || n == 0x2028 || n == 0x2029 || n == 0x202f || n == 0x205f || n == 0x3000
}

proof fn lemma_leading_step(s: Seq<char>, a: int)
    requires
        0 <= a < s.len(),
        is_white_space(s[a]),
    ensures
        leading_blanks(s.skip(a)) == 1 + leading_blanks(s.skip(a + 1)),
{
    assert(s.skip(a).drop_first() =~= s.skip(a + 1));
}

proof fn lemma_trailing_step(t: Seq<char>, b: int)
    requires
        0 < b <= t.len(),
        is_white_space(t[b - 1]),
    ensures
        trailing_blanks(t.take(b)) == 1 + trailing_blanks(t.take(b - 1)),
{
    assert(t.take(b).drop_last() =~= t.take(b - 1));
}

/// `s` without its leading and trailing white space, as `str::trim` does.
pub fn trim_text(s: &str) -> (t: String)
    ensures
        t@ == trimmed(s@),
{
    let n = s.unicode_len();
    let mut a: usize = 0;
    assert(s@.skip(0) =~= s@);
    while a < n && is_whitespace(s.get_char(a))
        invariant
            n == s@.len(),
            a <= n,
            leading_blanks(s@) == a + leading_blanks(s@.skip(a as int)),
        decreases n - a,
    {
        proof {
            lemma_leading_step(s@, a as int);
        }
        a = a + 1;
    }
    assert(leading_blanks(s@.skip(a as int)) == 0) by {
        if a < n {
            assert(s@.skip(a as int)[0] == s@[a as int]);
        }
    }
    let ghost u = s@.skip(a as int);
    let mut b: usize = n;
    assert(u.take(n - a) =~= u);
    while b > a && is_whitespace(s.get_char(b - 1))
        invariant
            n == s@.len(),
            a <= b <= n,
            u == s@.skip(a as int),
            trailing_blanks(u) == (n - b) + trailing_blanks(u.take(b - a)),
        decreases b,
    {
        proof {
            assert(u[b - a - 1] == s@[b - 1]);
            lemma_trailing_step(u, b - a);
        }
        b = b - 1;
    }
    assert(trailing_blanks(u.take(b - a)) == 0) by {
        if b > a {
            assert(u.take(b - a).last() == s@[b - 1]);
        }
    }
    let t = s.substring_char(a, b);
    assert(t@ =~= trimmed(s@));
    String::from_str(t)
}

/// The lines joined into one text, with `sep` between two lines.
pub open spec fn joined(lines: Seq<Seq<char>>, sep: Seq<char>) -> Seq<char>
    decreases lines.len(),
{
    if lines.len() == 0 {
        seq![]
    } else if lines.len() == 1 {
        lines[0]
    } else {
        joined(lines.drop_last(), sep) + sep + lines.last()
    }
}

/// The texts of a list of strings.
pub open spec fn texts(v: Seq<String>) -> Seq<Seq<char>> {
    v.map_values(|s: String| s@)
}

/// The links that lines of text hold: each line trimmed, empty ones left
/// out, in order.
pub open spec fn links_of(lines: Seq<Seq<char>>) -> Seq<Seq<char>>
    decreases lines.len(),
{
    if lines.len() == 0 {
        seq![]
    } else {
        let t = trimmed(lines.last());
        if t.len() > 0 {
            links_of(lines.drop_last()).push(t)
        } else {
            links_of(lines.drop_last())
        }
    }
}

/// `lines.join(sep)`.
pub fn join_lines(lines: &Vec<String>, sep: &str) -> (s: String)
    ensures
        s@ == joined(texts(lines@), sep@),
{
    let mut s = String::new();
    for i in 0..lines.len()
        invariant
            s@ == joined(texts(lines@.subrange(0, i as int)), sep@),
    {
        let ghost prev = texts(lines@.subrange(0, i as int));
        let ghost next = texts(lines@.subrange(0, i + 1));
        assert(next.drop_last() =~= prev);
        if i != 0 {
            s.append(sep);
        } else {
            assert(s@ =~= seq![]);
        }
        s.append(lines[i].as_str());
        assert(s@ =~= joined(next, sep@));
    }
    assert(lines@.subrange(0, lines@.len() as int) =~= lines@);
    s
}

/// The links that the lines hold: each line trimmed, empty ones left out.
pub fn link_list(lines: &Vec<String>) -> (links: Vec<String>)
    ensures
        texts(links@) == links_of(texts(lines@)),
{
    let mut links: Vec<String> = Vec::new();
    for i in 0..lines.len()
        invariant
            texts(links@) == links_of(texts(lines@.subrange(0, i as int))),
    {
        let ghost prev = texts(lines@.subrange(0, i as int));
        let ghost next = texts(lines@.subrange(0, i + 1));
        assert(next.drop_last() =~= prev);
        let t = trim_text(lines[i].as_str());
        if t.unicode_len() != 0 {
            links.push(t);
            assert(texts(links@) =~= links_of(next));
        }
    }
    assert(lines@.subrange(0, lines@.len() as int) =~= lines@);
    links
}

} // verus!
