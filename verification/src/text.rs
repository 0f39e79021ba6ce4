//! Character-level text utilities with exact contracts.
use vstd::prelude::*;

verus! {

/// Appends one character to a `String` (std's `String::push`).
#[verifier::external_body]
pub(crate) fn push_char(s: &mut String, c: char)
    ensures
        final(s)@ == old(s)@.push(c),
{
    s.push(c);
}

/// The text of an optional string, by its characters.
pub open spec fn opt_view(o: Option<String>) -> Option<Seq<char>> {
    match o {
        Some(s) => Some(s@),
        None => None,
    }
}

/// The characters of `s`, in order.
pub fn chars_of(s: &str) -> (v: Vec<char>)
    ensures
        v@ == s@,
{
    let mut v: Vec<char> = Vec::new();
    for c in it: s.chars()
        invariant
            v@ == it.seq().take(it.index() as int),
    {
        v.push(c);
    }
    v
}

/// The string made of the characters `v[from..to]`.
pub fn string_of_range(v: &Vec<char>, from: usize, to: usize) -> (r: String)
    requires
        from <= to <= v.len(),
    ensures
        r@ == v@.subrange(from as int, to as int),
{
    let mut r = String::new();
    let mut i = from;
    while i < to
        invariant
            from <= i <= to <= v.len(),
            r@ == v@.subrange(from as int, i as int),
        decreases to - i,
    {
        push_char(&mut r, v[i]);
        assert(r@ =~= v@.subrange(from as int, i + 1));
        i += 1;
    }
    r
}

/// The string made of the characters of `v`.
pub fn string_of(v: &Vec<char>) -> (r: String)
    ensures
        r@ == v@,
{
    let r = string_of_range(v, 0, v.len());
    assert(v@.subrange(0, v@.len() as int) =~= v@);
    r
}

/// A copy of `s` as an owned `String`.
pub fn owned(s: &str) -> (r: String)
    ensures
        r@ == s@,
{
    let v = chars_of(s);
    string_of(&v)
}

/// `a` and `b` hold the same characters.
pub fn str_eq(a: &str, b: &str) -> (r: bool)
    ensures
        r == (a@ == b@),
{
    let av = chars_of(a);
    let bv = chars_of(b);
    if av.len() != bv.len() {
        return false;
    }
    let mut i: usize = 0;
    while i < av.len()
        invariant
            av@ == a@,
            bv@ == b@,
            av.len() == bv.len(),
            i <= av.len(),
            forall|j: int| 0 <= j < i ==> av@[j] == bv@[j],
        decreases av.len() - i,
    {
        if av[i] != bv[i] {
            assert(av@[i as int] != bv@[i as int]);
            return false;
        }
        i += 1;
    }
    assert(av@ =~= bv@);
    true
}

/// `p` is a prefix of `s`.
pub open spec fn has_prefix(s: Seq<char>, p: Seq<char>) -> bool {
    p.len() <= s.len() && s.take(p.len() as int) == p
}

/// `v[at..at + p.len()]` equals `p`.
fn matches_at(v: &Vec<char>, at: usize, p: &Vec<char>) -> (r: bool)
    requires
        at <= v.len(),
    ensures
        r == has_prefix(v@.skip(at as int), p@),
{
    if v.len() - at < p.len() {
        return false;
    }
    let mut j: usize = 0;
    while j < p.len()
        invariant
            at + p.len() <= v.len(),
            j <= p.len(),
            forall|k: int| 0 <= k < j ==> v@[at + k] == p@[k],
        decreases p.len() - j,
    {
        if v[at + j] != p[j] {
            assert(v@.skip(at as int).take(p.len() as int)[j as int] != p@[j as int]);
            return false;
        }
        j += 1;
    }
    assert(v@.skip(at as int).take(p.len() as int) =~= p@);
    true
}

/// Whether `s` starts with `p` (std's `str::starts_with` on a string pattern).
pub fn starts_with(s: &str, p: &str) -> (r: bool)
    ensures
        r == has_prefix(s@, p@),
{
    let sv = chars_of(s);
    let pv = chars_of(p);
    let r = matches_at(&sv, 0, &pv);
    assert(sv@.skip(0) =~= sv@);
    r
}

/// `needle` occurs somewhere in `s`.
pub open spec fn occurs_in(s: Seq<char>, needle: Seq<char>) -> bool {
    exists|i: int| 0 <= i <= s.len() && #[trigger] has_prefix(s.skip(i), needle)
}

/// Whether `needle` occurs in `s` (std's `str::contains` on a string pattern).
pub fn contains(s: &str, needle: &str) -> (r: bool)
    ensures
        r == occurs_in(s@, needle@),
{
    let sv = chars_of(s);
    let nv = chars_of(needle);
    let mut i: usize = 0;
    while i < sv.len()
        invariant
            sv@ == s@,
            nv@ == needle@,
            i <= sv.len(),
            forall|j: int| 0 <= j < i ==> !#[trigger] has_prefix(sv@.skip(j), nv@),
        decreases sv.len() - i,
    {
        if matches_at(&sv, i, &nv) {
            return true;
        }
        i += 1;
    }
    matches_at(&sv, i, &nv)
}

/// Leftmost, non-overlapping replacement of every occurrence of `from` by `to`
/// (std's `str::replace` with a non-empty string pattern).
pub open spec fn replace_all(s: Seq<char>, from: Seq<char>, to: Seq<char>) -> Seq<char>
    decreases s.len(),
{
    if from.len() == 0 || s.len() == 0 {
        s
    } else if has_prefix(s, from) {
        to + replace_all(s.skip(from.len() as int), from, to)
    } else {
        seq![s[0]] + replace_all(s.skip(1), from, to)
    }
}

/// Replaces every occurrence of `from` in `s` by `to`, scanning left to right.
pub fn replace(s: &str, from: &str, to: &str) -> (r: String)
    requires
        from@.len() > 0,
    ensures
        r@ == replace_all(s@, from@, to@),
{
    let sv = chars_of(s);
    let fv = chars_of(from);
    let mut out = String::new();
    let mut i: usize = 0;
    assert(sv@.skip(0) =~= sv@);
    while i < sv.len()
        invariant
            sv@ == s@,
            fv@ == from@,
            fv@.len() > 0,
            i <= sv.len(),
            out@ + replace_all(sv@.skip(i as int), fv@, to@) == replace_all(sv@, fv@, to@),
        decreases sv.len() - i,
    {
        let ghost t = sv@.skip(i as int);
        if matches_at(&sv, i, &fv) {
            let ghost before = out@;
            out.append(to);
            assert(t.skip(fv@.len() as int) =~= sv@.skip(i + fv@.len()));
            assert(before + (to@ + replace_all(t.skip(fv@.len() as int), fv@, to@))
                =~= out@ + replace_all(sv@.skip(i + fv@.len()), fv@, to@));
            i += fv.len();
        } else {
            let ghost before = out@;
            push_char(&mut out, sv[i]);
            assert(t.skip(1) =~= sv@.skip(i + 1));
            assert(before + (seq![t[0]] + replace_all(t.skip(1), fv@, to@))
                =~= out@ + replace_all(sv@.skip(i + 1), fv@, to@));
            i += 1;
        }
    }
    assert(out@ + replace_all(sv@.skip(i as int), fv@, to@) =~= out@);
    out
}


// ---------------------------------------------------------------------------
// White space, trimming and words
// ---------------------------------------------------------------------------

/// Unicode `White_Space` property, the one std's `char::is_whitespace` tests.
pub open spec fn is_white_space(c: char) -> bool {
    let n = c as u32;
    ||| 0x09 <= n <= 0x0D
    ||| n == 0x20
    ||| n == 0x85
    ||| n == 0xA0
    ||| n == 0x1680
    ||| 0x2000 <= n <= 0x200A
    ||| n == 0x2028
    ||| n == 0x2029
    ||| n == 0x202F
    ||| n == 0x205F
    ||| n == 0x3000
}

/// Whether `c` is white space.
pub fn is_whitespace(c: char) -> (r: bool)
    ensures
        r == is_white_space(c),
{
    let n = c as u32;
    (0x09 <= n && n <= 0x0D) || n == 0x20 || n == 0x85 || n == 0xA0 || n == 0x1680 || (0x2000
        <= n && n <= 0x200A) || n == 0x2028 || n == 0x2029 || n == 0x202F || n == 0x205F || n
        == 0x3000
}

/// `s` without its leading white space.
pub open spec fn trim_start_seq(s: Seq<char>) -> Seq<char>
    decreases s.len(),
{
    if s.len() > 0 && is_white_space(s[0]) {
        trim_start_seq(s.skip(1))
    } else {
        s
    }
}

/// `s` without its trailing white space.
pub open spec fn trim_end_seq(s: Seq<char>) -> Seq<char>
    decreases s.len(),
{
    if s.len() > 0 && is_white_space(s.last()) {
        trim_end_seq(s.drop_last())
    } else {
        s
    }
}

/// `s` without leading and trailing white space (std's `str::trim`).
pub open spec fn trim_seq(s: Seq<char>) -> Seq<char> {
    trim_end_seq(trim_start_seq(s))
}

/// Removes leading and trailing white space.
pub fn trim(s: &str) -> (r: String)
    ensures
        r@ == trim_seq(s@),
{
    let v = chars_of(s);
    let mut i: usize = 0;
    assert(v@.skip(0) =~= v@);
    while i < v.len() && is_whitespace(v[i])
        invariant
            v@ == s@,
            i <= v.len(),
            trim_start_seq(v@.skip(i as int)) == trim_start_seq(v@),
        decreases v.len() - i,
    {
        assert(v@.skip(i as int).skip(1) =~= v@.skip(i + 1));
        i += 1;
    }
    let mut j: usize = v.len();
    assert(v@.subrange(i as int, j as int) =~= v@.skip(i as int));
    while j > i && is_whitespace(v[j - 1])
        invariant
            v@ == s@,
            i <= j <= v.len(),
            trim_start_seq(v@) == v@.skip(i as int),
            trim_end_seq(v@.subrange(i as int, j as int)) == trim_seq(v@),
        decreases j,
    {
        assert(v@.subrange(i as int, j as int).drop_last() =~= v@.subrange(i as int, j - 1));
        j -= 1;
    }
    string_of_range(&v, i, j)
}

/// Length of the leading run of characters that are not white space.
pub open spec fn word_len(s: Seq<char>) -> nat
    decreases s.len(),
{
    if s.len() > 0 && !is_white_space(s[0]) {
        1 + word_len(s.skip(1))
    } else {
        0
    }
}

pub proof fn lemma_word_len_bound(s: Seq<char>)
    ensures
        word_len(s) <= s.len(),
        s.len() > 0 && !is_white_space(s[0]) ==> word_len(s) >= 1,
    decreases s.len(),
{
    if s.len() > 0 && !is_white_space(s[0]) {
        lemma_word_len_bound(s.skip(1));
    }
}

proof fn lemma_word_len_exact(s: Seq<char>, m: int)
    requires
        0 <= m <= s.len(),
        forall|k: int| 0 <= k < m ==> !is_white_space(#[trigger] s[k]),
        m == s.len() || is_white_space(s[m]),
    ensures
        word_len(s) == m,
    decreases m,
{
    if m > 0 {
        lemma_word_len_exact(s.skip(1), m - 1);
    }
}

/// The white-space separated words of `s`, in order (std's `str::split_whitespace`).
pub open spec fn words(s: Seq<char>) -> Seq<Seq<char>>
    decreases s.len(),
{
    if s.len() == 0 {
        seq![]
    } else if is_white_space(s[0]) {
        words(s.skip(1))
    } else {
        proof {
            lemma_word_len_bound(s);
        }
        seq![s.take(word_len(s) as int)] + words(s.skip(word_len(s) as int))
    }
}

/// Every word of `s` is non-empty and holds no white space.
pub proof fn lemma_words_nonempty(s: Seq<char>)
    ensures
        forall|i: int| 0 <= i < words(s).len() ==> (#[trigger] words(s)[i]).len() > 0,
    decreases s.len(),
{
    if s.len() > 0 {
        if is_white_space(s[0]) {
            lemma_words_nonempty(s.skip(1));
            assert(words(s) == words(s.skip(1)));
        } else {
            lemma_word_len_bound(s);
            let rest = s.skip(word_len(s) as int);
            lemma_words_nonempty(rest);
            let ws = words(s);
            let first = s.take(word_len(s) as int);
            assert(first.len() == word_len(s));
            assert(ws == seq![first] + words(rest));
            assert forall|i: int| 0 <= i < ws.len() implies (#[trigger] ws[i]).len() > 0 by {
                if i == 0 {
                    assert(ws[0] == first);
                } else {
                    assert(ws[i] == words(rest)[i - 1]);
                }
            }
        }
    }
}

/// The words of `s` separated by `sep` (std's `[&str]::join`).
pub open spec fn join(ws: Seq<Seq<char>>, sep: Seq<char>) -> Seq<char>
    decreases ws.len(),
{
    if ws.len() == 0 {
        seq![]
    } else if ws.len() == 1 {
        ws[0]
    } else {
        ws[0] + sep + join(ws.skip(1), sep)
    }
}

/// Splits `s` into its white-space separated words.
pub fn split_whitespace(s: &str) -> (r: Vec<String>)
    ensures
        r.len() == words(s@).len(),
        forall|k: int| 0 <= k < r.len() ==> #[trigger] r[k]@ == words(s@)[k],
{
    let v = chars_of(s);
    let mut out: Vec<String> = Vec::new();
    let ghost mut acc: Seq<Seq<char>> = seq![];
    let mut i: usize = 0;
    assert(v@.skip(0) =~= v@);
    while i < v.len()
        invariant
            v@ == s@,
            i <= v.len(),
            words(v@) == acc + words(v@.skip(i as int)),
            out.len() == acc.len(),
            forall|k: int| 0 <= k < out.len() ==> #[trigger] out[k]@ == acc[k],
        decreases v.len() - i,
    {
        let ghost t = v@.skip(i as int);
        if is_whitespace(v[i]) {
            assert(t.skip(1) =~= v@.skip(i + 1));
            i += 1;
        } else {
            let mut j: usize = i;
            while j < v.len() && !is_whitespace(v[j])
                invariant
                    i <= j <= v.len(),
                    forall|k: int| i <= k < j ==> !is_white_space(#[trigger] v@[k]),
                decreases v.len() - j,
            {
                j += 1;
            }
            proof {
                assert forall|k: int| 0 <= k < j - i implies !is_white_space(#[trigger] t[k]) by {
                    assert(t[k] == v@[i + k]);
                }
                lemma_word_len_exact(t, j - i);
                assert(t.take(j - i) =~= v@.subrange(i as int, j as int));
                assert(t.skip(j - i) =~= v@.skip(j as int));
            }
            let w = string_of_range(&v, i, j);
            out.push(w);
            proof {
                assert(words(v@) =~= acc.push(v@.subrange(i as int, j as int)) + words(
                    v@.skip(j as int),
                ));
                acc = acc.push(v@.subrange(i as int, j as int));
            }
            i = j;
        }
    }
    assert(acc + words(v@.skip(i as int)) =~= acc);
    out
}

/// Joins `ws[from..]` with `sep` between consecutive words.
pub fn join_from(ws: &Vec<String>, from: usize, sep: &str) -> (r: String)
    requires
        from <= ws.len(),
    ensures
        r@ == join(ws@.map_values(|w: String| w@).skip(from as int), sep@),
    decreases ws.len() - from,
{
    let ghost views = ws@.map_values(|w: String| w@);
    if from == ws.len() {
        return String::new();
    }
    if from + 1 == ws.len() {
        let r = owned(ws[from].as_str());
        return r;
    }
    let rest = join_from(ws, from + 1, sep);
    let mut r = owned(ws[from].as_str());
    r.append(sep);
    r.append(rest.as_str());
    assert(views.skip(from as int).skip(1) =~= views.skip(from + 1));
    r
}


/// Replacing a pattern whose first character never occurs leaves the text unchanged.
pub proof fn lemma_replace_absent(s: Seq<char>, from: Seq<char>, to: Seq<char>)
    requires
        from.len() > 0,
        forall|i: int| 0 <= i < s.len() ==> s[i] != from[0],
    ensures
        replace_all(s, from, to) == s,
    decreases s.len(),
{
    if s.len() > 0 {
        assert(!has_prefix(s, from)) by {
            if has_prefix(s, from) {
                assert(s.take(from.len() as int)[0] == s[0]);
            }
        }
        lemma_replace_absent(s.skip(1), from, to);
        assert(seq![s[0]] + s.skip(1) =~= s);
    }
}

/// Replacing a pattern that occurs nowhere in the text leaves the text unchanged.
pub proof fn lemma_replace_unmatched(s: Seq<char>, from: Seq<char>, to: Seq<char>)
    requires
        from.len() > 0,
        forall|i: int| 0 <= i < s.len() ==> !has_prefix(#[trigger] s.skip(i), from),
    ensures
        replace_all(s, from, to) == s,
    decreases s.len(),
{
    if s.len() > 0 {
        assert(s.skip(0) =~= s);
        assert forall|i: int| 0 <= i < s.skip(1).len() implies !has_prefix(#[trigger] s.skip(1).skip(i), from) by {
            assert(s.skip(1).skip(i) =~= s.skip(i + 1));
        }
        lemma_replace_unmatched(s.skip(1), from, to);
        assert(seq![s[0]] + s.skip(1) =~= s);
    }
}

/// Decimal digits of `n`, most significant first (std's `Display` for unsigned integers).
pub open spec fn decimal_text(n: nat) -> Seq<char>
    decreases n,
{
    if n < 10 {
        seq![(48 + n) as char]
    } else {
        decimal_text(n / 10).push((48 + n % 10) as char)
    }
}

/// Decimal text of `n`.
pub fn u64_to_text(n: u64) -> (r: String)
    ensures
        r@ == decimal_text(n as nat),
    decreases n,
{
    if n < 10 {
        let mut r = String::new();
        push_char(&mut r, char_of_digit(n));
        assert(r@ =~= decimal_text(n as nat));
        r
    } else {
        let mut r = u64_to_text(n / 10);
        push_char(&mut r, char_of_digit(n % 10));
        r
    }
}

fn char_of_digit(d: u64) -> (c: char)
    requires
        d < 10,
    ensures
        c == (48 + d) as char,
{
    match d {
        0 => '0',
        1 => '1',
        2 => '2',
        3 => '3',
        4 => '4',
        5 => '5',
        6 => '6',
        7 => '7',
        8 => '8',
        _ => '9',
    }
}

} // verus!
