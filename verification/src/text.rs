//! Character-level text operations on which command parsing is built.
//!
//! Every operation is stated over the character sequence that a string views
//! as (`s@`), which is how the parsing contracts of the crate speak of text.
use vstd::prelude::*;

verus! {

/// Whether a character has the Unicode `White_Space` property, which is what
/// `str::trim` removes.
pub open spec fn is_white_space(c: char) -> bool {
    ||| ('\u{9}' <= c && c <= '\u{d}')
    ||| c == ' '
    ||| c == '\u{85}'
    ||| c == '\u{a0}'
    ||| c == '\u{1680}'
    ||| ('\u{2000}' <= c && c <= '\u{200a}')
    ||| c == '\u{2028}'
    ||| c == '\u{2029}'
    ||| c == '\u{202f}'
    ||| c == '\u{205f}'
    ||| c == '\u{3000}'
}

/// The text with its leading white space removed.
pub open spec fn trim_start(s: Seq<char>) -> Seq<char>
    decreases s.len(),
{
    if s.len() > 0 && is_white_space(s[0]) {
        trim_start(s.drop_first())
    } else {
        s
    }
}

/// The text with its trailing white space removed.
pub open spec fn trim_end(s: Seq<char>) -> Seq<char>
    decreases s.len(),
{
    if s.len() > 0 && is_white_space(s.last()) {
        trim_end(s.drop_last())
    } else {
        s
    }
}

/// The text with white space removed from both ends.
pub open spec fn trimmed(s: Seq<char>) -> Seq<char> {
    trim_end(trim_start(s))
}

/// The pieces of `s` between the occurrences of `sep`, in order; `s` with no
/// occurrence is one piece, and two adjacent occurrences enclose an empty piece.
pub open spec fn split_on(s: Seq<char>, sep: char) -> Seq<Seq<char>>
    decreases s.len(),
{
    match s.index_of_first(sep) {
        Some(i) => {
            proof {
                s.index_of_first_ensures(sep);
            }
            seq![s.take(i)] + split_on(s.skip(i + 1), sep)
        },
        None => seq![s],
    }
}

/// The text of `s` before and after the first occurrence of `sep`, if any.
pub open spec fn split_at_first(s: Seq<char>, sep: char) -> Option<(Seq<char>, Seq<char>)> {
    match s.index_of_first(sep) {
        Some(i) => Some((s.take(i), s.skip(i + 1))),
        None => None,
    }
}

/// The text that follows `prefix` in `s`, if `s` begins with it.
pub open spec fn after_prefix(s: Seq<char>, prefix: Seq<char>) -> Option<Seq<char>> {
    if prefix.is_prefix_of(s) {
        Some(s.skip(prefix.len() as int))
    } else {
        None
    }
}

/// `s` with `p` removed from its start as many times as it occurs there.
pub open spec fn trim_start_all(s: Seq<char>, p: Seq<char>) -> Seq<char>
    decreases s.len(),
{
    if p.len() > 0 && p.is_prefix_of(s) {
        trim_start_all(s.skip(p.len() as int), p)
    } else {
        s
    }
}

/// `s` with `p` removed from its end as many times as it occurs there.
pub open spec fn trim_end_all(s: Seq<char>, p: Seq<char>) -> Seq<char>
    decreases s.len(),
{
    if p.len() > 0 && p.is_suffix_of(s) {
        trim_end_all(s.take(s.len() - p.len()), p)
    } else {
        s
    }
}

/// The characters of an optional string.
pub open spec fn opt_view(o: Option<String>) -> Option<Seq<char>> {
    match o {
        Some(s) => Some(s@),
        None => None,
    }
}

/// The character sequences that a list of strings holds.
pub open spec fn views(v: Seq<String>) -> Seq<Seq<char>> {
    v.map_values(|s: String| s@)
}

/// The texts of `parts` with `sep` between each two of them.
pub open spec fn join(parts: Seq<Seq<char>>, sep: Seq<char>) -> Seq<char>
    decreases parts.len(),
{
    if parts.len() == 0 {
        Seq::empty()
    } else if parts.len() == 1 {
        parts[0]
    } else {
        join(parts.drop_last(), sep) + sep + parts.last()
    }
}

/// `s` with every occurrence of the character `from` replaced by `to`.
pub open spec fn replaced(s: Seq<char>, from: char, to: Seq<char>) -> Seq<char> {
    join(split_on(s, from), to)
}

/// A character mapped to lower case the ASCII way: `A`..=`Z` become
/// `a`..=`z`, everything else stays.
pub open spec fn ascii_lower_char(c: char) -> char {
    if 'A' <= c && c <= 'Z' {
        ((c as u32) + 32) as char
    } else {
        c
    }
}

/// Whether every character of the text is ASCII.
pub open spec fn all_ascii(s: Seq<char>) -> bool {
    forall|i: int| 0 <= i < s.len() ==> (s[i] as u32) < 128
}

/// A text that neither begins nor ends with white space is left as it is by
/// trimming, also when a space comes before it.
pub proof fn lemma_trimmed_fixed(s: Seq<char>)
    requires
        s.len() > 0,
        !is_white_space(s[0]),
        !is_white_space(s.last()),
    ensures
        trimmed(s) == s,
        trimmed(" "@ + s) == s,
{
    reveal_strlit(" ");
    let t = " "@ + s;
    assert(t.drop_first() =~= s);
    assert(trim_start(t) == trim_start(s));
}

/// Splitting at a separator that joins two texts splits each of them.
pub proof fn lemma_split_concat(x: Seq<char>, y: Seq<char>, sep: char)
    ensures
        split_on(x + seq![sep] + y, sep) == split_on(x, sep) + split_on(y, sep),
    decreases x.len(),
{
    let t = x + seq![sep] + y;
    x.index_of_first_ensures(sep);
    t.index_of_first_ensures(sep);
    match x.index_of_first(sep) {
        Some(i) => {
            assert(t[i] == sep);
            assert(t.index_of_first(sep) == Some(i));
            assert(t.take(i) =~= x.take(i));
            assert(t.skip(i + 1) =~= x.skip(i + 1) + seq![sep] + y);
            lemma_split_concat(x.skip(i + 1), y, sep);
            assert(split_on(t, sep) =~= seq![x.take(i)] + split_on(t.skip(i + 1), sep));
            assert(split_on(x, sep) =~= seq![x.take(i)] + split_on(x.skip(i + 1), sep));
            assert(split_on(t, sep) =~= split_on(x, sep) + split_on(y, sep));
        },
        None => {
            assert(t[x.len() as int] == sep);
            assert(t.index_of_first(sep) == Some(x.len() as int));
            assert(t.take(x.len() as int) =~= x);
            assert(t.skip(x.len() + 1int) =~= y);
            assert(split_on(t, sep) =~= seq![x] + split_on(y, sep));
            assert(split_on(x, sep) =~= seq![x]);
        },
    }
}

/// Texts without the separator, joined with it, split back into themselves.
pub proof fn lemma_split_join(parts: Seq<Seq<char>>, sep: char)
    requires
        parts.len() > 0,
        forall|i: int| 0 <= i < parts.len() ==> !(#[trigger] parts[i]).contains(sep),
    ensures
        split_on(join(parts, seq![sep]), sep) == parts,
    decreases parts.len(),
{
    let last = parts.last();
    last.index_of_first_ensures(sep);
    assert(split_on(last, sep) =~= seq![last]);
    if parts.len() > 1 {
        let init = parts.drop_last();
        assert forall|i: int| 0 <= i < init.len() implies !(#[trigger] init[i]).contains(sep) by {
            assert(init[i] == parts[i]);
        }
        lemma_split_join(init, sep);
        lemma_split_concat(join(init, seq![sep]), last, sep);
        assert(parts =~= init + seq![last]);
    } else {
        assert(parts =~= seq![last]);
    }
}

/// Non-empty texts, joined, begin as the first one and end as the last one.
pub proof fn lemma_join_ends(parts: Seq<Seq<char>>, sep: Seq<char>)
    requires
        parts.len() > 0,
        forall|i: int| 0 <= i < parts.len() ==> (#[trigger] parts[i]).len() > 0,
    ensures
        join(parts, sep).len() > 0,
        join(parts, sep)[0] == parts[0][0],
        join(parts, sep).last() == parts.last().last(),
    decreases parts.len(),
{
    assert(parts[0].len() > 0);
    assert(parts.last().len() > 0);
    if parts.len() > 1 {
        let init = parts.drop_last();
        assert forall|i: int| 0 <= i < init.len() implies (#[trigger] init[i]).len() > 0 by {
            assert(init[i] == parts[i]);
        }
        lemma_join_ends(init, sep);
        assert(init[0] == parts[0]);
    }
}

/// Whether a character may stand in a value's name: a lower-case ASCII
/// letter, `_` or `-`.
pub open spec fn is_word_char(c: char) -> bool {
    ('a' <= c && c <= 'z') || c == '_' || c == '-'
}

/// Whether the text is a name as setting values have: not empty, and made of
/// lower-case ASCII letters, `_` and `-`.
pub open spec fn is_word(s: Seq<char>) -> bool {
    s.len() > 0 && forall|i: int| 0 <= i < s.len() ==> #[trigger] is_word_char(s[i])
}

/// A name is left as it is by lower-casing and by trimming, also when a
/// space comes before it.
pub proof fn lemma_word_fixed(s: Seq<char>)
    requires
        is_word(s),
    ensures
        lowercased(s) == s,
        trimmed(s) == s,
        trimmed(" "@ + s) == s,
{
    assert(is_word_char(s[0]));
    assert(is_word_char(s.last()));
    assert(all_ascii(s)) by {
        assert forall|i: int| 0 <= i < s.len() implies (s[i] as u32) < 128 by {
            assert(is_word_char(s[i]));
        }
    }
    assert(s.map_values(|c: char| ascii_lower_char(c)) =~= s) by {
        assert forall|i: int| 0 <= i < s.len() implies ascii_lower_char(s[i]) == s[i] by {
            assert(is_word_char(s[i]));
        }
    }
    lemma_trimmed_fixed(s);
}

/// What `str::to_lowercase` gives for a text: the Unicode lower-case mapping
/// of every character.
pub uninterp spec fn lowercase(s: Seq<char>) -> Seq<char>;

/// What lower-casing gives for a text: for an all-ASCII text, each ASCII
/// letter lower-cased; otherwise what `str::to_lowercase` gives.
pub open spec fn lowercased(s: Seq<char>) -> Seq<char> {
    if all_ascii(s) {
        s.map_values(|c: char| ascii_lower_char(c))
    } else {
        lowercase(s)
    }
}

/// Lower-cases a text (`str::to_lowercase`).
pub fn lowercase_of(s: &str) -> (r: String)
    ensures
        r@ == lowercased(s@),
{
    to_lowercase(s)
}

/// Calls `str::to_lowercase`.
///
/// Its contract claims that the result is the same for the same text (the
/// mapping is fixed by the Unicode tables that `std` carries) and that for an
/// all-ASCII text it is the ASCII lower-casing of each character, as the
/// documentation of `char::to_lowercase` states for ASCII letters.
#[verifier::external_body]
fn to_lowercase(s: &str) -> (r: String)
    ensures
        r@ == lowercase(s@),
        all_ascii(s@) ==> r@ == s@.map_values(|c: char| ascii_lower_char(c)),
{
    s.to_lowercase()
}

/// The characters of a string, in order.
pub fn chars_of(s: &str) -> (v: Vec<char>)
    ensures
        v@ == s@,
{
    let mut v: Vec<char> = Vec::new();
    for c in it: s.chars()
        invariant
            v@ == it.seq().take(it.index() as int),
    {
        v.push(c);
    }
    v
}

/// Whether a character has the Unicode `White_Space` property.
pub fn char_is_white_space(c: char) -> (r: bool)
    ensures
        r == is_white_space(c),
{
    ('\u{9}' <= c && c <= '\u{d}') || c == ' ' || c == '\u{85}' || c == '\u{a0}' || c
        == '\u{1680}' || ('\u{2000}' <= c && c <= '\u{200a}') || c == '\u{2028}' || c
        == '\u{2029}' || c == '\u{202f}' || c == '\u{205f}' || c == '\u{3000}'
}

proof fn lemma_trim_start(s: Seq<char>, a: int)
    requires
        0 <= a <= s.len(),
        forall|j: int| 0 <= j < a ==> is_white_space(#[trigger] s[j]),
        a == s.len() || !is_white_space(s[a]),
    ensures
        trim_start(s) == s.skip(a),
    decreases a,
{
    if a == 0 {
        assert(s.skip(0) =~= s);
    } else {
        assert(s.drop_first().skip(a - 1) =~= s.skip(a));
        assert forall|j: int| 0 <= j < a - 1 implies is_white_space(#[trigger] s.drop_first()[j]) by {
            assert(s.drop_first()[j] == s[j + 1]);
        }
        lemma_trim_start(s.drop_first(), a - 1);
    }
}

proof fn lemma_trim_end(t: Seq<char>, b: int)
    requires
        0 <= b <= t.len(),
        forall|j: int| b <= j < t.len() ==> is_white_space(#[trigger] t[j]),
        b == 0 || !is_white_space(t[b - 1]),
    ensures
        trim_end(t) == t.take(b),
    decreases t.len() - b,
{
    if b == t.len() {
        assert(t.take(b) =~= t);
    } else {
        assert(t.drop_last().take(b) =~= t.take(b));
        lemma_trim_end(t.drop_last(), b);
    }
}

/// `s` with the white space at both ends removed (`str::trim`).
pub fn trim(s: &str) -> (r: &str)
    ensures
        r@ == trimmed(s@),
{
    let v = chars_of(s);
    let n = v.len();
    let mut a: usize = 0;
    while a < n && char_is_white_space(v[a])
        invariant
            v@ == s@,
            n == v.len(),
            a <= n,
            forall|j: int| 0 <= j < a ==> is_white_space(#[trigger] s@[j]),
        decreases n - a,
    {
        a = a + 1;
    }
    proof {
        lemma_trim_start(s@, a as int);
    }
    let mut b: usize = n;
    while b > a && char_is_white_space(v[b - 1])
        invariant
            v@ == s@,
            n == v.len(),
            a <= b <= n,
            forall|j: int| b <= j < n ==> is_white_space(#[trigger] s@[j]),
        decreases b,
    {
        b = b - 1;
    }
    proof {
        let t = s@.skip(a as int);
        assert forall|j: int| (b - a) <= j < t.len() implies is_white_space(#[trigger] t[j]) by {
            assert(t[j] == s@[j + a]);
        }
        lemma_trim_end(t, (b - a) as int);
        assert(t.take((b - a) as int) =~= s@.subrange(a as int, b as int));
    }
    s.substring_char(a, b)
}

/// Whether the characters of `p` are the first characters of `v`.
fn has_prefix_at_start(v: &Vec<char>, p: &Vec<char>) -> (r: bool)
    ensures
        r == p@.is_prefix_of(v@),
{
    if p.len() > v.len() {
        return false;
    }
    let mut i: usize = 0;
    while i < p.len()
        invariant
            p.len() <= v.len(),
            i <= p.len(),
            forall|j: int| 0 <= j < i ==> p@[j] == v@[j],
        decreases p.len() - i,
    {
        if p[i] != v[i] {
            return false;
        }
        i = i + 1;
    }
    assert(p@ =~= v@.subrange(0, p@.len() as int));
    true
}

/// Whether `s` begins with `prefix` (`str::starts_with`).
pub fn starts_with(s: &str, prefix: &str) -> (r: bool)
    ensures
        r == prefix@.is_prefix_of(s@),
{
    let v = chars_of(s);
    let p = chars_of(prefix);
    has_prefix_at_start(&v, &p)
}

/// The rest of `s` after `prefix`, if `s` begins with it (`str::strip_prefix`).
pub fn strip_prefix<'a>(s: &'a str, prefix: &str) -> (r: Option<&'a str>)
    ensures
        match r {
            Some(rest) => after_prefix(s@, prefix@) == Some(rest@),
            None => after_prefix(s@, prefix@) is None,
        },
{
    let v = chars_of(s);
    let p = chars_of(prefix);
    if has_prefix_at_start(&v, &p) {
        Some(s.substring_char(p.len(), v.len()))
    } else {
        None
    }
}

/// The text of `s` before `suffix`, if `s` ends with it (`str::strip_suffix`).
pub fn strip_suffix<'a>(s: &'a str, suffix: &str) -> (r: Option<&'a str>)
    ensures
        match r {
            Some(rest) => suffix@.is_suffix_of(s@) && rest@ == s@.take(s@.len() - suffix@.len()),
            None => !suffix@.is_suffix_of(s@),
        },
{
    let v = chars_of(s);
    let p = chars_of(suffix);
    if p.len() > v.len() {
        return None;
    }
    let start = v.len() - p.len();
    let mut i: usize = 0;
    while i < p.len()
        invariant
            v@ == s@,
            p@ == suffix@,
            start + p.len() == v.len(),
            i <= p.len(),
            forall|j: int| 0 <= j < i ==> p@[j] == v@[start + j],
        decreases p.len() - i,
    {
        if p[i] != v[start + i] {
            proof {
                if p@.is_suffix_of(v@) {
                    assert(p@[i as int] == v@.subrange(start as int, v@.len() as int)[i as int]);
                }
            }
            return None;
        }
        i = i + 1;
    }
    assert(p@ =~= v@.subrange(start as int, v@.len() as int));
    Some(s.substring_char(0, start))
}

/// `s` with `p` removed from its start as often as it occurs there
/// (`str::trim_start_matches`).
pub fn trim_start_matches<'a>(s: &'a str, p: &str) -> (r: &'a str)
    ensures
        r@ == trim_start_all(s@, p@),
{
    if p.is_empty() {
        return s;
    }
    let mut cur = s;
    loop
        invariant
            p@.len() > 0,
            trim_start_all(cur@, p@) == trim_start_all(s@, p@),
        decreases cur@.len(),
    {
        match strip_prefix(cur, p) {
            Some(rest) => {
                cur = rest;
            },
            None => {
                return cur;
            },
        }
    }
}

/// `s` with `p` removed from its end as often as it occurs there
/// (`str::trim_end_matches`).
pub fn trim_end_matches<'a>(s: &'a str, p: &str) -> (r: &'a str)
    ensures
        r@ == trim_end_all(s@, p@),
{
    if p.is_empty() {
        return s;
    }
    let mut cur = s;
    loop
        invariant
            p@.len() > 0,
            trim_end_all(cur@, p@) == trim_end_all(s@, p@),
        decreases cur@.len(),
    {
        match strip_suffix(cur, p) {
            Some(rest) => {
                cur = rest;
            },
            None => {
                return cur;
            },
        }
    }
}

/// The first position of `c` in `v`, if any.
fn find_char(v: &Vec<char>, c: char) -> (r: Option<usize>)
    ensures
        match r {
            Some(i) => i < v@.len() && v@.index_of_first(c) == Some(i as int),
            None => v@.index_of_first(c) is None,
        },
{
    let mut i: usize = 0;
    while i < v.len()
        invariant
            i <= v.len(),
            forall|j: int| 0 <= j < i ==> v@[j] != c,
        decreases v.len() - i,
    {
        if v[i] == c {
            proof {
                v@.index_of_first_ensures(c);
            }
            return Some(i);
        }
        i = i + 1;
    }
    proof {
        v@.index_of_first_ensures(c);
    }
    None
}

/// Whether `s` holds the character `c` (`str::contains` with a `char`).
pub fn contains_char(s: &str, c: char) -> (r: bool)
    ensures
        r == s@.contains(c),
{
    let v = chars_of(s);
    proof {
        v@.index_of_first_ensures(c);
    }
    find_char(&v, c).is_some()
}

/// `s` split at the first `sep` (`str::split_once` with a `char`).
pub fn split_once_char<'a>(s: &'a str, sep: char) -> (r: Option<(&'a str, &'a str)>)
    ensures
        match r {
            Some((a, b)) => split_at_first(s@, sep) == Some((a@, b@)),
            None => split_at_first(s@, sep) is None,
        },
{
    let v = chars_of(s);
    let n = v.len();
    match find_char(&v, sep) {
        Some(i) => {
            proof {
                v@.index_of_first_ensures(sep);
            }
            Some((s.substring_char(0, i), s.substring_char(i + 1, n)))
        },
        None => None,
    }
}

proof fn lemma_split_step(s: Seq<char>, sep: char, start: int, i: int)
    requires
        0 <= start <= i < s.len(),
        s[i] == sep,
        forall|j: int| start <= j < i ==> s[j] != sep,
    ensures
        split_on(s.skip(start), sep) == seq![s.subrange(start, i)] + split_on(
            s.skip(i + 1),
            sep,
        ),
{
    let t = s.skip(start);
    t.index_of_first_ensures(sep);
    assert(t[i - start] == sep);
    assert(t.contains(sep));
    let k = t.index_of_first(sep).unwrap();
    if k < i - start {
        assert(t[k] == s[k + start]);
    }
    assert(k == i - start);
    assert(t.take(k) =~= s.subrange(start, i));
    assert(t.skip(k + 1) =~= s.skip(i + 1));
}

proof fn lemma_split_last(s: Seq<char>, sep: char, start: int)
    requires
        0 <= start <= s.len(),
        forall|j: int| start <= j < s.len() ==> s[j] != sep,
    ensures
        split_on(s.skip(start), sep) == seq![s.skip(start)],
{
    let t = s.skip(start);
    t.index_of_first_ensures(sep);
    if t.contains(sep) {
        let k = choose|k: int| 0 <= k < t.len() && t[k] == sep;
        assert(t[k] == s[k + start]);
    }
}

/// The pieces of `s` between the occurrences of `sep` (`str::split` with a
/// one-character pattern, collected).
pub fn split_char(s: &str, sep: char) -> (r: Vec<String>)
    ensures
        views(r@) == split_on(s@, sep),
{
    let v = chars_of(s);
    let n = v.len();
    let mut pieces: Vec<String> = Vec::new();
    let mut start: usize = 0;
    let mut i: usize = 0;
    assert(s@.skip(0) =~= s@);
    while i < n
        invariant
            v@ == s@,
            n == v.len(),
            start <= i <= n,
            forall|j: int| start <= j < i ==> s@[j] != sep,
            views(pieces@) + split_on(s@.skip(start as int), sep) == split_on(s@, sep),
        decreases n - i,
    {
        if v[i] == sep {
            proof {
                lemma_split_step(s@, sep, start as int, i as int);
            }
            let piece = s.substring_char(start, i).to_owned();
            let ghost old_pieces = pieces@;
            pieces.push(piece);
            proof {
                assert(views(pieces@) =~= views(old_pieces) + seq![s@.subrange(start as int, i as int)]);
                assert(views(pieces@) + split_on(s@.skip(i + 1), sep) =~= views(old_pieces)
                    + (seq![s@.subrange(start as int, i as int)] + split_on(s@.skip(i + 1), sep)));
            }
            start = i + 1;
        }
        i = i + 1;
    }
    proof {
        lemma_split_last(s@, sep, start as int);
    }
    let last = s.substring_char(start, n).to_owned();
    let ghost old_pieces = pieces@;
    pieces.push(last);
    proof {
        assert(s@.subrange(start as int, n as int) =~= s@.skip(start as int));
        assert(views(pieces@) =~= views(old_pieces) + seq![s@.skip(start as int)]);
    }
    pieces
}

/// Whether two strings hold the same characters (`==` on `str`).
pub fn equals(a: &str, b: &str) -> (r: bool)
    ensures
        r == (a@ == b@),
{
    let v = chars_of(a);
    let w = chars_of(b);
    if v.len() != w.len() {
        return false;
    }
    let r = has_prefix_at_start(&v, &w);
    proof {
        if r {
            assert(v@ =~= v@.subrange(0, w@.len() as int));
        }
    }
    r
}

/// The strings of `parts` with `sep` between each two of them.
pub fn join_strings(parts: &Vec<String>, sep: &str) -> (r: String)
    ensures
        r@ == join(views(parts@), sep@),
{
    let mut r = String::new();
    let mut i: usize = 0;
    while i < parts.len()
        invariant
            i <= parts.len(),
            r@ == join(views(parts@.take(i as int)), sep@),
        decreases parts.len() - i,
    {
        if i != 0 {
            r.append(sep);
        }
        r.append(parts[i].as_str());
        proof {
            let ps = views(parts@.take(i + 1));
            assert(ps.drop_last() =~= views(parts@.take(i as int)));
            assert(ps.last() == parts@[i as int]@);
            if i == 0 {
                assert(ps.len() == 1);
            }
        }
        i = i + 1;
    }
    assert(parts@.take(parts.len() as int) =~= parts@);
    r
}

/// `s` with every occurrence of the character `from` replaced by `to`
/// (`str::replace` with a one-character pattern).
pub fn replace_char(s: &str, from: char, to: &str) -> (r: String)
    ensures
        r@ == replaced(s@, from, to@),
{
    let parts = split_char(s, from);
    join_strings(&parts, to)
}

/// `a` followed by `b`, as a new string.
pub fn concat(a: &str, b: &str) -> (r: String)
    ensures
        r@ == a@ + b@,
{
    let mut r = a.to_owned();
    r.append(b);
    r
}

/// A setter command: the setter's word, one space, and the value.
pub open spec fn command_with_value(word: Seq<char>, value: Seq<char>) -> Seq<char> {
    word + " "@ + value
}

/// In a setter command whose value is a name, the word is a prefix of the
/// command, and the trimmed text after the word is the name.
pub proof fn lemma_command_with_value(word: Seq<char>, name: Seq<char>)
    requires
        is_word(name),
    ensures
        word.is_prefix_of(command_with_value(word, name)),
        trimmed(command_with_value(word, name).skip(word.len() as int)) == name,
        lowercased(name) == name,
{
    reveal_strlit(" ");
    let t = command_with_value(word, name);
    assert(t.subrange(0, word.len() as int) =~= word);
    assert(t.skip(word.len() as int) =~= " "@ + name);
    lemma_word_fixed(name);
}

/// A text that differs from `p` at a position within both is not prefixed
/// by `p`.
pub proof fn lemma_differs_at(p: Seq<char>, t: Seq<char>, i: int)
    requires
        0 <= i < p.len(),
        i < t.len(),
        p[i] != t[i],
    ensures
        !p.is_prefix_of(t),
{
    if p.is_prefix_of(t) {
        assert(t.subrange(0, p.len() as int)[i] == t[i]);
    }
}

} // verus!
