//! Text helpers: substring search, HTML escaping, decimal digits and
//! search-token splitting.
use vstd::prelude::*;

verus! {

/// `needle` occurs in `hay` starting at index `i`
pub open spec fn contains_at(hay: Seq<char>, needle: Seq<char>, i: int) -> bool {
    0 <= i && i + needle.len() <= hay.len() && hay.subrange(i, i + needle.len()) == needle
}

/// `needle` occurs somewhere in `hay`
pub open spec fn contains(hay: Seq<char>, needle: Seq<char>) -> bool {
    exists|i: int| contains_at(hay, needle, i)
}

/// The lowercase form of a text, as std computes it
pub uninterp spec fn lower_of(s: Seq<char>) -> Seq<char>;

/// Relies on `str::to_lowercase`: the lowercase form of a text depends on
/// its characters alone, and the empty text stays empty.
#[verifier::external_body]
pub(crate) fn lowercase(s: &str) -> (r: String)
    ensures
        r@ == lower_of(s@),
        s@.len() == 0 ==> r@.len() == 0,
{
    s.to_lowercase()
}

/// Check whether `needle` occurs in `hay` at char index `i`
fn matches_at(hay: &str, needle: &str, i: usize) -> (r: bool)
    requires
        i + needle@.len() <= hay@.len(),
    ensures
        r == contains_at(hay@, needle@, i as int),
{
    let n = needle.unicode_len();
    let h = hay.unicode_len();
    let mut j: usize = 0;
    while j < n
        invariant
            n == needle@.len(),
            h == hay@.len(),
            i + n <= hay@.len(),
            j <= n,
            forall|k: int| 0 <= k < j ==> hay@[i + k] == needle@[k],
        decreases n - j,
    {
        if hay.get_char(i + j) != needle.get_char(j) {
            assert(hay@.subrange(i as int, i + n)[j as int] != needle@[j as int]);
            return false;
        }
        j += 1;
    }
    assert(hay@.subrange(i as int, i + n) =~= needle@);
    true
}

/// Check whether `needle` occurs anywhere in `hay`
pub fn contains_str(hay: &str, needle: &str) -> (r: bool)
    ensures
        r == contains(hay@, needle@),
{
    let h = hay.unicode_len();
    let n = needle.unicode_len();
    if n > h {
        assert forall|k: int| !contains_at(hay@, needle@, k) by {}
        return false;
    }
    let mut i: usize = 0;
    loop
        invariant
            h == hay@.len(),
            n == needle@.len(),
            n <= h,
            i <= h - n,
            forall|k: int| 0 <= k < i ==> !contains_at(hay@, needle@, k),
        ensures
            i == h - n,
            !contains_at(hay@, needle@, i as int),
        decreases h - n - i,
    {
        if matches_at(hay, needle, i) {
            return true;
        }
        if i == h - n {
            break;
        }
        i += 1;
    }
    assert forall|k: int| !contains_at(hay@, needle@, k) by {
        if 0 <= k <= i {
        }
    }
    false
}

/// Check whether `needle` occurs in the lowercase form of `hay`
pub fn contains_lower(hay: &str, needle: &str) -> (r: bool)
    ensures
        r == contains(lower_of(hay@), needle@),
{
    let lower = lowercase(hay);
    contains_str(lower.as_str(), needle)
}

/// The optional text, or nothing
pub open spec fn opt_text(s: Option<Seq<char>>) -> Seq<char> {
    match s {
        Some(t) => t,
        None => Seq::empty(),
    }
}

/// Does `needle` occur in the lowercase form of an optional text?
pub open spec fn opt_contains_lower_spec(hay: Option<Seq<char>>, needle: Seq<char>) -> bool {
    match hay {
        Some(h) => contains(lower_of(h), needle),
        None => false,
    }
}

/// Check whether `needle` occurs in the lowercase form of an optional text
pub fn opt_contains_lower(hay: &Option<String>, needle: &str) -> (r: bool)
    ensures
        r == opt_contains_lower_spec(opt_view(*hay), needle@),
{
    match hay {
        Some(h) => contains_lower(h.as_str(), needle),
        None => false,
    }
}

/// HTML form of one character
pub open spec fn escape_char(c: char) -> Seq<char> {
    if c == '&' {
        "&amp;"@
    } else if c == '<' {
        "&lt;"@
    } else if c == '>' {
        "&gt;"@
    } else if c == '"' {
        "&quot;"@
    } else if c == '\'' {
        "&#39;"@
    } else {
        seq![c]
    }
}

/// HTML form of a text: markup characters replaced by entities
pub open spec fn escape_html(s: Seq<char>) -> Seq<char>
    decreases s.len(),
{
    if s.len() == 0 {
        Seq::empty()
    } else {
        escape_html(s.drop_last()) + escape_char(s.last())
    }
}

/// A text cut to at most `len` characters
pub open spec fn cut(s: Seq<char>, len: nat) -> Seq<char> {
    if s.len() <= len {
        s
    } else {
        s.take(len as int)
    }
}

/// Escape the first `len` characters of a text for HTML
pub fn html_cut(s: &str, len: usize) -> (r: String)
    ensures
        r@ == escape_html(cut(s@, len as nat)),
{
    let total = s.unicode_len();
    let n = if total <= len {
        total
    } else {
        len
    };
    let mut out = String::new();
    let mut i: usize = 0;
    while i < n
        invariant
            total == s@.len(),
            n <= total,
            i <= n,
            out@ == escape_html(s@.take(i as int)),
        decreases n - i,
    {
        let c = s.get_char(i);
        if c == '&' {
            out.append("&amp;");
        } else if c == '<' {
            out.append("&lt;");
        } else if c == '>' {
            out.append("&gt;");
        } else if c == '"' {
            out.append("&quot;");
        } else if c == '\'' {
            out.append("&#39;");
        } else {
            let one = s.substring_char(i, i + 1);
            assert(one@ =~= seq![c]);
            out.append(one);
        }
        assert(s@.take(i + 1).drop_last() =~= s@.take(i as int));
        i += 1;
    }
    assert(cut(s@, len as nat) =~= s@.take(n as int));
    out
}

/// Escape a whole text for HTML
pub fn html_escape(s: &str) -> (r: String)
    ensures
        r@ == escape_html(s@),
{
    let n = s.unicode_len();
    let r = html_cut(s, n);
    assert(cut(s@, n as nat) == s@);
    r
}

/// Model of an optional text
pub open spec fn opt_view(s: Option<String>) -> Option<Seq<char>> {
    match s {
        Some(t) => Some(t@),
        None => None,
    }
}

/// Are two optional texts equal?
pub fn opt_str_eq(a: &Option<String>, b: &Option<String>) -> (r: bool)
    ensures
        r == (opt_view(*a) == opt_view(*b)),
{
    match (a, b) {
        (Some(x), Some(y)) => *x == *y,
        (None, None) => true,
        _ => false,
    }
}

/// HTML form of the first `len` characters of an optional text
pub open spec fn opt_html_cut(s: Option<Seq<char>>, len: nat) -> Seq<char> {
    match s {
        Some(t) => escape_html(cut(t, len)),
        None => Seq::empty(),
    }
}

/// Escape the first `len` characters of an optional text for HTML
pub fn html_opt_cut(s: &Option<String>, len: usize) -> (r: String)
    ensures
        r@ == opt_html_cut(opt_view(*s), len as nat),
{
    match s {
        Some(t) => html_cut(t.as_str(), len),
        None => String::new(),
    }
}

/// Escape an optional text for HTML
pub fn html_opt(s: &Option<String>) -> (r: String)
    ensures
        r@ == escape_html(opt_text(opt_view(*s))),
{
    match s {
        Some(t) => html_escape(t.as_str()),
        None => String::new(),
    }
}

/// The decimal digit for `d`
pub open spec fn digit_char(d: nat) -> char {
    "0123456789"@[d as int]
}

/// Decimal form of a number, without leading zeros
pub open spec fn decimal(n: nat) -> Seq<char>
    decreases n,
{
    if n < 10 {
        seq![digit_char(n)]
    } else {
        decimal(n / 10).push(digit_char(n % 10))
    }
}

/// Write a number in decimal
pub fn decimal_str(n: u32) -> (r: String)
    ensures
        r@ == decimal(n as nat),
    decreases n,
{
    let digits = "0123456789";
    proof {
        reveal_strlit("0123456789");
    }
    let d = (n % 10) as usize;
    let last = digits.substring_char(d, d + 1);
    assert(last@ =~= seq![digit_char(d as nat)]);
    if n < 10 {
        let mut s = String::new();
        s.append(last);
        assert(s@ =~= decimal(n as nat));
        s
    } else {
        let mut s = decimal_str(n / 10);
        s.append(last);
        assert(s@ =~= decimal(n as nat));
        s
    }
}

/// Tokens of a search text, split at each space
pub open spec fn split_spaces(s: Seq<char>) -> Seq<Seq<char>>
    decreases s.len(),
{
    if s.len() == 0 {
        seq![Seq::empty()]
    } else {
        let rest = split_spaces(s.drop_last());
        if s.last() == ' ' {
            rest.push(Seq::empty())
        } else {
            rest.update(rest.len() - 1, rest.last().push(s.last()))
        }
    }
}

/// Splitting never yields an empty list of tokens
pub proof fn lemma_split_nonempty(s: Seq<char>)
    ensures
        split_spaces(s).len() >= 1,
    decreases s.len(),
{
    if s.len() > 0 {
        lemma_split_nonempty(s.drop_last());
    }
}

/// Splitting a joined text: the tokens of `a + " " + b` are those of `a`
/// followed by those of `b`.
pub proof fn lemma_split_join(a: Seq<char>, b: Seq<char>)
    ensures
        split_spaces(a + seq![' '] + b) == split_spaces(a) + split_spaces(b),
    decreases b.len(),
{
    lemma_split_nonempty(a);
    lemma_split_nonempty(b);
    if b.len() == 0 {
        let j = a + seq![' '];
        assert(j.drop_last() =~= a);
        assert(a + seq![' '] + b =~= j);
        assert(split_spaces(b) =~= seq![Seq::<char>::empty()]);
        assert(split_spaces(j) =~= split_spaces(a) + split_spaces(b));
    } else {
        let j = a + seq![' '] + b;
        assert(j.drop_last() =~= a + seq![' '] + b.drop_last());
        assert(j.last() == b.last());
        lemma_split_join(a, b.drop_last());
        lemma_split_nonempty(b.drop_last());
        let sa = split_spaces(a);
        let sb = split_spaces(b.drop_last());
        if b.last() == ' ' {
            assert(split_spaces(j) =~= sa + split_spaces(b));
        } else {
            assert(split_spaces(j) =~= sa + split_spaces(b));
        }
    }
}

} // verus!
