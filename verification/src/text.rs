//! Text primitives over the character view of strings: searching,
//! splitting, trimming and decimal rendering.

use vstd::prelude::*;

verus! {

/// Pattern `p` occurs in `s` at position `i`.
pub open spec fn matches_at(s: Seq<char>, p: Seq<char>, i: int) -> bool {
    &&& 0 <= i
    &&& i + p.len() <= s.len()
    &&& s.subrange(i, i + p.len()) == p
}

/// First position at or after `i` where `p` occurs in `s`.
pub open spec fn find_from(s: Seq<char>, p: Seq<char>, i: int) -> Option<int>
    decreases s.len() + 1 - i,
{
    if i < 0 || i + p.len() > s.len() {
        None
    } else if matches_at(s, p, i) {
        Some(i)
    } else {
        find_from(s, p, i + 1)
    }
}

/// First position where `p` occurs in `s` (`str::find`).
pub open spec fn find(s: Seq<char>, p: Seq<char>) -> Option<int> {
    find_from(s, p, 0)
}

/// `s` contains `p` (`str::contains`).
pub open spec fn contains(s: Seq<char>, p: Seq<char>) -> bool {
    find(s, p) is Some
}

/// Whether `p` matches `s` at `i`, computed.
fn matches_here(s: &Vec<char>, p: &Vec<char>, i: usize) -> (r: bool)
    requires
        i + p@.len() <= s@.len(),
    ensures
        r == matches_at(s@, p@, i as int),
{
    let n = s.len();
    let mut k: usize = 0;
    while k < p.len()
        invariant
            i + p@.len() <= s@.len(),
            n == s@.len(),
            k <= p@.len(),
            forall|m: int| 0 <= m < k ==> s@[i + m] == p@[m],
        decreases p@.len() - k,
    {
        if s[i + k] != p[k] {
            assert(s@.subrange(i as int, i + p@.len())[k as int] != p@[k as int]);
            return false;
        }
        k = k + 1;
    }
    assert(s@.subrange(i as int, i + p@.len()) =~= p@);
    true
}

/// First position at or after `start` where `p` occurs in `s`.
pub fn find_chars_from(s: &Vec<char>, p: &Vec<char>, start: usize) -> (r: Option<usize>)
    ensures
        r matches Some(i) ==> find_from(s@, p@, start as int) == Some(i as int),
        r is None ==> find_from(s@, p@, start as int) is None,
{
    if p.len() > s.len() || start > s.len() - p.len() {
        return None;
    }
    if p.len() == 0 {
        assert(s@.subrange(start as int, start as int) =~= p@);
        return Some(start);
    }
    let mut i = start;
    while i <= s.len() - p.len()
        invariant
            1 <= p@.len() <= s@.len(),
            start <= i,
            find_from(s@, p@, start as int) == find_from(s@, p@, i as int),
        decreases s@.len() - i,
    {
        if matches_here(s, p, i) {
            return Some(i);
        }
        i = i + 1;
    }
    None
}

} // verus!

verus! {

broadcast use vstd::string::group_string_axioms;

/// Appends one character to a string (`String::push`).
#[verifier::external_body]
pub(crate) fn push_char(s: &mut String, c: char)
    ensures
        final(s)@ == old(s)@.push(c),
{
    s.push(c);
}

/// The characters of `s`, in order.
pub fn chars_of(s: &str) -> (v: Vec<char>)
    ensures
        v@ == s@,
{
    let mut v: Vec<char> = Vec::new();
    for c in it: s.chars()
        invariant
            v@ == it.seq().take(it.index() as int),
            it.seq() == s@,
    {
        v.push(c);
    }
    v
}

/// A string made of the characters of `v`.
pub fn string_of(v: &[char]) -> (s: String)
    ensures
        s@ == v@,
{
    let mut s = String::new();
    let mut i: usize = 0;
    while i < v.len()
        invariant
            i <= v@.len(),
            s@ == v@.take(i as int),
        decreases v@.len() - i,
    {
        push_char(&mut s, v[i]);
        assert(v@.take(i + 1) =~= v@.take(i as int).push(v@[i as int]));
        i = i + 1;
    }
    assert(v@.take(v@.len() as int) =~= v@);
    s
}

} // verus!

verus! {

/// The text that follows the first occurrence of `p` in `s`, up to the next
/// occurrence of `p` (the second piece of `str::split`), if `p` occurs.
pub open spec fn split_second(s: Seq<char>, p: Seq<char>) -> Option<Seq<char>> {
    match find(s, p) {
        None => None,
        Some(i) => {
            let rest = s.subrange(i + p.len(), s.len() as int);
            match find(rest, p) {
                None => Some(rest),
                Some(j) => Some(rest.subrange(0, j)),
            }
        },
    }
}

/// The text before the first occurrence of `p` in `s`, or all of `s`
/// (the first piece of `str::split`).
pub open spec fn split_first(s: Seq<char>, p: Seq<char>) -> Seq<char> {
    match find(s, p) {
        None => s,
        Some(i) => s.subrange(0, i),
    }
}

/// The text after the first occurrence of `p` in `s`.
pub open spec fn after_first(s: Seq<char>, p: Seq<char>) -> Option<Seq<char>> {
    match find(s, p) {
        None => None,
        Some(i) => Some(s.subrange(i + p.len(), s.len() as int)),
    }
}

proof fn lemma_find_from_bounds(s: Seq<char>, p: Seq<char>, i: int)
    ensures
        find_from(s, p, i) matches Some(k) ==> i <= k && matches_at(s, p, k),
    decreases s.len() + 1 - i,
{
    if i < 0 || i + p.len() > s.len() {
    } else if matches_at(s, p, i) {
    } else {
        lemma_find_from_bounds(s, p, i + 1);
    }
}

/// Position of the first occurrence of `p` in `s`.
pub fn find_chars(s: &Vec<char>, p: &Vec<char>) -> (r: Option<usize>)
    ensures
        r matches Some(i) ==> find(s@, p@) == Some(i as int) && i + p@.len() <= s@.len(),
        r is None ==> find(s@, p@) is None,
{
    let r = find_chars_from(s, p, 0);
    proof {
        lemma_find_from_bounds(s@, p@, 0);
    }
    r
}

/// Whether `p` occurs in `s` (`str::contains`).
pub fn contains_chars(s: &Vec<char>, p: &Vec<char>) -> (r: bool)
    ensures
        r == contains(s@, p@),
{
    find_chars(s, p).is_some()
}

/// A copy of `v[lo..hi]`.
pub fn slice_chars(v: &Vec<char>, lo: usize, hi: usize) -> (r: Vec<char>)
    requires
        lo <= hi <= v@.len(),
    ensures
        r@ == v@.subrange(lo as int, hi as int),
{
    let mut r: Vec<char> = Vec::new();
    let mut i = lo;
    while i < hi
        invariant
            lo <= i <= hi <= v@.len(),
            r@ == v@.subrange(lo as int, i as int),
        decreases hi - i,
    {
        r.push(v[i]);
        assert(v@.subrange(lo as int, i + 1) =~= v@.subrange(lo as int, i as int).push(v@[i as int]));
        i = i + 1;
    }
    r
}

/// The second piece of `s.split(p)`, if there is one.
pub fn split_second_chars(s: &Vec<char>, p: &Vec<char>) -> (r: Option<Vec<char>>)
    ensures
        r matches Some(v) ==> split_second(s@, p@) == Some(v@),
        r is None ==> split_second(s@, p@) is None,
{
    let n = s.len();
    match find_chars(s, p) {
        None => None,
        Some(i) => {
            let rest = slice_chars(s, i + p.len(), s.len());
            match find_chars(&rest, p) {
                None => Some(rest),
                Some(j) => Some(slice_chars(&rest, 0, j)),
            }
        },
    }
}

/// The first piece of `s.split(p)`.
pub fn split_first_chars(s: &Vec<char>, p: &Vec<char>) -> (r: Vec<char>)
    ensures
        r@ == split_first(s@, p@),
{
    match find_chars(s, p) {
        None => slice_chars(s, 0, s.len()),
        Some(i) => slice_chars(s, 0, i),
    }
}

/// The text after the first occurrence of `p` in `s`.
pub fn after_first_chars(s: &Vec<char>, p: &Vec<char>) -> (r: Option<Vec<char>>)
    ensures
        r matches Some(v) ==> after_first(s@, p@) == Some(v@),
        r is None ==> after_first(s@, p@) is None,
{
    let n = s.len();
    match find_chars(s, p) {
        None => None,
        Some(i) => Some(slice_chars(s, i + p.len(), s.len())),
    }
}

/// Unicode White_Space, as `char::is_whitespace` documents it.
pub open spec fn is_ws(c: char) -> bool {
    ||| ('\u{9}' <= c && c <= '\u{d}')
    ||| c == ' '
    ||| c == '\u{85}'
    ||| c == '\u{a0}'
    ||| c == '\u{1680}'
    ||| ('\u{2000}' <= c && c <= '\u{200a}')
    ||| c == '\u{2028}'
    ||| c == '\u{2029}'
    ||| c == '\u{202f}'
    ||| c == '\u{205f}'
    ||| c == '\u{3000}'
}

/// `char::is_whitespace`, computed.
pub fn is_whitespace(c: char) -> (r: bool)
    ensures
        r == is_ws(c),
{
    ('\u{9}' <= c && c <= '\u{d}') || c == ' ' || c == '\u{85}' || c == '\u{a0}' || c == '\u{1680}'
        || ('\u{2000}' <= c && c <= '\u{200a}') || c == '\u{2028}' || c == '\u{2029}' || c
        == '\u{202f}' || c == '\u{205f}' || c == '\u{3000}'
}

/// `s` without the leading characters that satisfy `f`.
pub open spec fn strip_start(s: Seq<char>, f: spec_fn(char) -> bool) -> Seq<char>
    decreases s.len(),
{
    if s.len() > 0 && f(s[0]) {
        strip_start(s.drop_first(), f)
    } else {
        s
    }
}

/// `s` without the trailing characters that satisfy `f`.
pub open spec fn strip_end(s: Seq<char>, f: spec_fn(char) -> bool) -> Seq<char>
    decreases s.len(),
{
    if s.len() > 0 && f(s.last()) {
        strip_end(s.drop_last(), f)
    } else {
        s
    }
}

/// `s` without leading and trailing whitespace (`str::trim`).
pub open spec fn trim(s: Seq<char>) -> Seq<char> {
    strip_end(strip_start(s, |c: char| is_ws(c)), |c: char| is_ws(c))
}

/// `s` without leading and trailing `'"'` (`str::trim_matches('"')`).
pub open spec fn trim_quotes(s: Seq<char>) -> Seq<char> {
    strip_end(strip_start(s, |c: char| c == '"'), |c: char| c == '"')
}

/// `s` without trailing `'%'` (`str::trim_end_matches('%')`).
pub open spec fn trim_end_percent(s: Seq<char>) -> Seq<char> {
    strip_end(s, |c: char| c == '%')
}

/// Which characters a trimming removes.
pub enum Strip {
    Whitespace,
    Quote,
    Percent,
}

/// The predicate that `Strip` names.
pub open spec fn strip_pred(k: Strip) -> spec_fn(char) -> bool {
    match k {
        Strip::Whitespace => |c: char| is_ws(c),
        Strip::Quote => |c: char| c == '"',
        Strip::Percent => |c: char| c == '%',
    }
}

fn strip_test(k: &Strip, c: char) -> (r: bool)
    ensures
        r == strip_pred(*k)(c),
{
    match k {
        Strip::Whitespace => is_whitespace(c),
        Strip::Quote => c == '"',
        Strip::Percent => c == '%',
    }
}

proof fn lemma_strip_start_skip(s: Seq<char>, f: spec_fn(char) -> bool, i: int)
    requires
        0 <= i <= s.len(),
        forall|m: int| 0 <= m < i ==> f(s[m]),
    ensures
        strip_start(s, f) == strip_start(s.subrange(i, s.len() as int), f),
    decreases i,
{
    if i > 0 {
        assert(s.drop_first().subrange(i - 1, s.drop_first().len() as int) =~= s.subrange(
            i,
            s.len() as int,
        ));
        lemma_strip_start_skip(s.drop_first(), f, i - 1);
    } else {
        assert(s.subrange(0, s.len() as int) =~= s);
    }
}

proof fn lemma_strip_end_take(s: Seq<char>, f: spec_fn(char) -> bool, j: int)
    requires
        0 <= j <= s.len(),
        forall|m: int| j <= m < s.len() ==> f(s[m]),
    ensures
        strip_end(s, f) == strip_end(s.subrange(0, j), f),
    decreases s.len() - j,
{
    if j < s.len() {
        assert(s.drop_last().subrange(0, j) =~= s.subrange(0, j));
        lemma_strip_end_take(s.drop_last(), f, j);
    } else {
        assert(s.subrange(0, s.len() as int) =~= s);
    }
}

/// Stripping the start leaves a suffix, which does not begin with a
/// stripped character.
pub proof fn lemma_strip_start_suffix(s: Seq<char>, f: spec_fn(char) -> bool) -> (i: int)
    ensures
        0 <= i <= s.len(),
        strip_start(s, f) == s.subrange(i, s.len() as int),
        strip_start(s, f).len() > 0 ==> !f(strip_start(s, f)[0]),
    decreases s.len(),
{
    if s.len() > 0 && f(s[0]) {
        let j = lemma_strip_start_suffix(s.drop_first(), f);
        assert(s.drop_first().subrange(j, s.drop_first().len() as int) =~= s.subrange(
            j + 1,
            s.len() as int,
        ));
        j + 1
    } else {
        assert(s.subrange(0, s.len() as int) =~= s);
        0
    }
}

/// Stripping the end leaves a prefix, which does not end with a stripped
/// character.
pub proof fn lemma_strip_end_prefix(s: Seq<char>, f: spec_fn(char) -> bool) -> (j: int)
    ensures
        0 <= j <= s.len(),
        strip_end(s, f) == s.subrange(0, j),
        strip_end(s, f).len() > 0 ==> !f(strip_end(s, f).last()),
    decreases s.len(),
{
    if s.len() > 0 && f(s.last()) {
        let j = lemma_strip_end_prefix(s.drop_last(), f);
        assert(s.drop_last().subrange(0, j) =~= s.subrange(0, j));
        j
    } else {
        assert(s.subrange(0, s.len() as int) =~= s);
        s.len() as int
    }
}

/// Trimming leaves a piece of the text, with no whitespace at either end;
/// trimming again changes nothing.
pub proof fn lemma_trim(s: Seq<char>) -> (r: (int, int))
    ensures
        0 <= r.0 <= r.1 <= s.len(),
        trim(s) == s.subrange(r.0, r.1),
        trim(s).len() > 0 ==> !is_ws(trim(s)[0]) && !is_ws(trim(s).last()),
        trim(trim(s)) == trim(s),
{
    let f = |c: char| is_ws(c);
    let a = strip_start(s, f);
    let i = lemma_strip_start_suffix(s, f);
    let j = lemma_strip_end_prefix(a, f);
    let t = trim(s);
    assert(t =~= s.subrange(i, i + j));
    if t.len() > 0 {
        assert(t[0] == a[0]);
    }
    let k = lemma_strip_start_suffix(t, f);
    if t.len() > 0 {
        assert(k == 0);
    }
    assert(strip_start(t, f) =~= t);
    let m = lemma_strip_end_prefix(t, f);
    assert(strip_end(t, f) =~= t);
    (i, i + j)
}

/// `s` with the characters that `k` names removed from both ends.
pub fn strip_both(s: &Vec<char>, k: Strip) -> (r: Vec<char>)
    ensures
        r@ == strip_end(strip_start(s@, strip_pred(k)), strip_pred(k)),
{
    let n = s.len();
    let mut i: usize = 0;
    while i < n && strip_test(&k, s[i])
        invariant
            n == s@.len(),
            i <= n,
            forall|m: int| 0 <= m < i ==> strip_pred(k)(s@[m]),
        decreases n - i,
    {
        i = i + 1;
    }
    proof {
        lemma_strip_start_skip(s@, strip_pred(k), i as int);
    }
    let ghost t = s@.subrange(i as int, n as int);
    assert(strip_start(t, strip_pred(k)) == t) by {
        if t.len() > 0 {
            assert(t[0] == s@[i as int]);
        }
    }
    let mut j: usize = n;
    while j > i && strip_test(&k, s[j - 1])
        invariant
            n == s@.len(),
            i <= j <= n,
            forall|m: int| j <= m < n ==> strip_pred(k)(s@[m]),
        decreases j,
    {
        j = j - 1;
    }
    proof {
        lemma_strip_end_take(t, strip_pred(k), j - i);
        assert(t.subrange(0, j - i) =~= s@.subrange(i as int, j as int));
        let u = s@.subrange(i as int, j as int);
        if u.len() > 0 {
            assert(u.last() == s@[j - 1]);
        }
    }
    slice_chars(s, i, j)
}

/// `s` with the trailing characters that `k` names removed.
pub fn strip_end_chars(s: &Vec<char>, k: Strip) -> (r: Vec<char>)
    ensures
        r@ == strip_end(s@, strip_pred(k)),
{
    let n = s.len();
    let mut j: usize = n;
    while j > 0 && strip_test(&k, s[j - 1])
        invariant
            n == s@.len(),
            j <= n,
            forall|m: int| j <= m < n ==> strip_pred(k)(s@[m]),
        decreases j,
    {
        j = j - 1;
    }
    proof {
        lemma_strip_end_take(s@, strip_pred(k), j as int);
        let u = s@.subrange(0, j as int);
        if u.len() > 0 {
            assert(u.last() == s@[j - 1]);
        }
    }
    slice_chars(s, 0, j)
}

/// `s.trim()`.
pub fn trim_chars(s: &Vec<char>) -> (r: Vec<char>)
    ensures
        r@ == trim(s@),
{
    let r = strip_both(s, Strip::Whitespace);
    assert(strip_pred(Strip::Whitespace) == (|c: char| is_ws(c)));
    r
}

/// `s.trim()`, as a `String`.
pub fn trim_str(s: &str) -> (r: String)
    ensures
        r@ == trim(s@),
{
    let v = chars_of(s);
    let t = trim_chars(&v);
    string_of(t.as_slice())
}

} // verus!

verus! {

/// The words of `s`, separated by whitespace, scanning from `s` with the
/// word `cur` already begun (`str::split_whitespace`).
pub open spec fn words_from(s: Seq<char>, cur: Seq<char>) -> Seq<Seq<char>>
    decreases s.len(),
{
    if s.len() == 0 {
        if cur.len() > 0 {
            seq![cur]
        } else {
            seq![]
        }
    } else if is_ws(s[0]) {
        let rest = words_from(s.drop_first(), seq![]);
        if cur.len() > 0 {
            seq![cur] + rest
        } else {
            rest
        }
    } else {
        words_from(s.drop_first(), cur.push(s[0]))
    }
}

/// The whitespace-separated words of `s`.
pub open spec fn words(s: Seq<char>) -> Seq<Seq<char>> {
    words_from(s, seq![])
}

/// The first of `ws` that ends with `c`.
pub open spec fn first_ending_with(ws: Seq<Seq<char>>, c: char) -> Option<Seq<char>>
    decreases ws.len(),
{
    if ws.len() == 0 {
        None
    } else if ws[0].len() > 0 && ws[0].last() == c {
        Some(ws[0])
    } else {
        first_ending_with(ws.drop_first(), c)
    }
}

proof fn lemma_first_ending_with_add(a: Seq<Seq<char>>, b: Seq<Seq<char>>, c: char)
    ensures
        first_ending_with(a + b, c) == (match first_ending_with(a, c) {
            Some(x) => Some(x),
            None => first_ending_with(b, c),
        }),
    decreases a.len(),
{
    if a.len() == 0 {
        assert(a + b =~= b);
    } else {
        assert((a + b)[0] == a[0]);
        assert((a + b).drop_first() =~= a.drop_first() + b);
        lemma_first_ending_with_add(a.drop_first(), b, c);
    }
}

/// The first whitespace-separated word of `s` that ends with `c`.
pub fn first_word_ending_with(s: &Vec<char>, c: char) -> (r: Option<Vec<char>>)
    ensures
        r matches Some(w) ==> first_ending_with(words(s@), c) == Some(w@),
        r is None ==> first_ending_with(words(s@), c) is None,
{
    let n = s.len();
    let mut i: usize = 0;
    let mut cur: Vec<char> = Vec::new();
    let ghost mut done: Seq<Seq<char>> = seq![];
    assert(s@.skip(0) =~= s@);
    while i < n
        invariant
            n == s@.len(),
            i <= n,
            words(s@) == done + words_from(s@.skip(i as int), cur@),
            first_ending_with(done, c) is None,
        decreases n - i,
    {
        let ch = s[i];
        let ghost t = s@.skip(i as int);
        assert(t[0] == ch);
        assert(t.drop_first() =~= s@.skip(i + 1));
        if is_whitespace(ch) {
            if cur.len() > 0 {
                proof {
                    assert(words_from(t, cur@) == seq![cur@] + words_from(t.drop_first(), seq![]));
                    assert(done + (seq![cur@] + words_from(t.drop_first(), seq![])) =~= done
                        + seq![cur@] + words_from(t.drop_first(), seq![]));
                    lemma_first_ending_with_add(done + seq![cur@], words_from(t.drop_first(), seq![]), c);
                    lemma_first_ending_with_add(done, seq![cur@], c);
                    reveal_with_fuel(first_ending_with, 2);
                }
                if cur[cur.len() - 1] == c {
                    return Some(cur);
                }
                proof {
                    done = done + seq![cur@];
                }
                cur = Vec::new();
            } else {
                assert(words_from(t, cur@) == words_from(t.drop_first(), seq![]));
                assert(cur@ =~= seq![]);
            }
        } else {
            assert(words_from(t, cur@) == words_from(t.drop_first(), cur@.push(ch)));
            cur.push(ch);
        }
        i = i + 1;
    }
    proof {
        assert(s@.skip(n as int) =~= seq![]);
        lemma_first_ending_with_add(done, words_from(s@.skip(n as int), cur@), c);
        reveal_with_fuel(first_ending_with, 2);
    }
    if cur.len() > 0 && cur[cur.len() - 1] == c {
        return Some(cur);
    }
    None
}

/// The decimal digit `d`.
pub open spec fn digit_char(d: nat) -> char {
    if d == 0 {
        '0'
    } else if d == 1 {
        '1'
    } else if d == 2 {
        '2'
    } else if d == 3 {
        '3'
    } else if d == 4 {
        '4'
    } else if d == 5 {
        '5'
    } else if d == 6 {
        '6'
    } else if d == 7 {
        '7'
    } else if d == 8 {
        '8'
    } else {
        '9'
    }
}

/// The decimal rendering of `n`, without leading zeros (`{}`).
pub open spec fn decimal(n: nat) -> Seq<char>
    decreases n,
{
    if n < 10 {
        seq![digit_char(n)]
    } else {
        decimal(n / 10).push(digit_char(n % 10))
    }
}

/// The decimal rendering of `n`, padded with zeros to two digits (`{:02}`).
pub open spec fn decimal2(n: nat) -> Seq<char> {
    if n < 10 {
        seq!['0', digit_char(n)]
    } else {
        decimal(n)
    }
}

fn digit(d: u64) -> (c: char)
    requires
        d < 10,
    ensures
        c == digit_char(d as nat),
{
    if d == 0 {
        '0'
    } else if d == 1 {
        '1'
    } else if d == 2 {
        '2'
    } else if d == 3 {
        '3'
    } else if d == 4 {
        '4'
    } else if d == 5 {
        '5'
    } else if d == 6 {
        '6'
    } else if d == 7 {
        '7'
    } else if d == 8 {
        '8'
    } else {
        '9'
    }
}

/// Appends the decimal rendering of `n` to `out`.
pub fn push_decimal(out: &mut String, n: u64)
    ensures
        final(out)@ == old(out)@ + decimal(n as nat),
    decreases n,
{
    if n >= 10 {
        push_decimal(out, n / 10);
    }
    push_char(out, digit(n % 10));
    assert(n < 10 ==> seq![digit_char(n as nat)] =~= seq![].push(digit_char(n as nat)));
}

/// Appends `n` padded with zeros to two digits.
pub fn push_decimal2(out: &mut String, n: u64)
    ensures
        final(out)@ == old(out)@ + decimal2(n as nat),
{
    if n < 10 {
        push_char(out, '0');
        push_char(out, digit(n));
        assert(old(out)@.push('0').push(digit_char(n as nat)) =~= old(out)@ + seq![
            '0',
            digit_char(n as nat),
        ]);
    } else {
        push_decimal(out, n);
    }
}

/// Appends `t` to `out`.
pub fn push_str(out: &mut String, t: &str)
    ensures
        final(out)@ == old(out)@ + t@,
{
    let v = chars_of(t);
    let mut i: usize = 0;
    while i < v.len()
        invariant
            i <= v@.len(),
            v@ == t@,
            out@ == old(out)@ + v@.take(i as int),
        decreases v@.len() - i,
    {
        push_char(out, v[i]);
        assert(v@.take(i + 1) =~= v@.take(i as int).push(v@[i as int]));
        i = i + 1;
    }
    assert(v@.take(v@.len() as int) =~= v@);
}

} // verus!

verus! {

/// Whether two strings hold the same characters.
pub fn str_eq(a: &str, b: &str) -> (r: bool)
    ensures
        r == (a@ == b@),
{
    let x = chars_of(a);
    let y = chars_of(b);
    if x.len() != y.len() {
        return false;
    }
    let mut i: usize = 0;
    while i < x.len()
        invariant
            x@ == a@,
            y@ == b@,
            x@.len() == y@.len(),
            i <= x@.len(),
            forall|m: int| 0 <= m < i ==> x@[m] == y@[m],
        decreases x@.len() - i,
    {
        if x[i] != y[i] {
            return false;
        }
        i = i + 1;
    }
    assert(x@ =~= y@);
    true
}

/// `a / b` rounded to the nearest integer, ties to even.
pub open spec fn div_round_even(a: nat, b: nat) -> nat
    recommends
        b > 0,
{
    let q = a / b;
    let r = a % b;
    if 2 * r > b || (2 * r == b && q % 2 == 1) {
        q + 1
    } else {
        q
    }
}

/// `a / b` rounded to the nearest integer, ties to even.
pub fn div_round_even_u128(a: u128, b: u128) -> (r: u128)
    requires
        b > 0,
        a / b < u128::MAX,
    ensures
        r == div_round_even(a as nat, b as nat),
{
    let q = a / b;
    let rem = a % b;
    if rem > b - rem || (rem == b - rem && q % 2 == 1) {
        q + 1
    } else {
        q
    }
}

/// A number of tenths, with one decimal place (`{:.1}` of `t / 10`).
pub open spec fn tenths_text(t: nat) -> Seq<char> {
    decimal(t / 10) + seq!['.', digit_char(t % 10)]
}

/// Appends `t / 10` with one decimal place.
pub fn push_tenths(out: &mut String, t: u64)
    ensures
        final(out)@ == old(out)@ + tenths_text(t as nat),
{
    push_decimal(out, t / 10);
    push_char(out, '.');
    push_char(out, digit(t % 10));
    assert(old(out)@ + decimal((t / 10) as nat) + seq!['.', digit_char((t % 10) as nat)]
        =~= (old(out)@ + decimal((t / 10) as nat)).push('.').push(digit_char((t % 10) as nat)));
}

} // verus!

verus! {

/// The characters of an optional string.
pub open spec fn opt_view(o: Option<String>) -> Option<Seq<char>> {
    match o {
        Some(s) => Some(s@),
        None => None,
    }
}

/// The characters of each string.
pub open spec fn strings_view(v: Seq<String>) -> Seq<Seq<char>> {
    v.map_values(|s: String| s@)
}

/// The text of `o`, else `default`.
pub open spec fn text_or(o: Option<String>, default: Seq<char>) -> Seq<char> {
    match o {
        Some(t) => t@,
        None => default,
    }
}

/// `o`, or the empty text.
pub open spec fn or_empty(o: Option<Seq<char>>) -> Seq<char> {
    match o {
        Some(s) => s,
        None => Seq::<char>::empty(),
    }
}

/// `a` followed by `b`, as a new string.
pub fn concat(a: &str, b: &str) -> (r: String)
    ensures
        r@ == a@ + b@,
{
    let mut s = String::new();
    push_str(&mut s, a);
    push_str(&mut s, b);
    assert(Seq::<char>::empty() + a@ + b@ =~= a@ + b@);
    s
}


/// `c` is one of the digits 0 to 9.
pub open spec fn is_digit(c: char) -> bool {
    '0' <= c && c <= '9'
}

/// Every character of `s` is a digit.
pub open spec fn all_digits(s: Seq<char>) -> bool {
    forall|i: int| 0 <= i < s.len() ==> is_digit(#[trigger] s[i])
}

/// The number that the digits `s` read as, most significant first.
pub open spec fn digits_value(s: Seq<char>) -> int
    decreases s.len(),
{
    if s.len() == 0 {
        0
    } else {
        digits_value(s.drop_last()) * 10 + (s.last() as int - '0' as int)
    }
}

proof fn lemma_digit_char(d: nat)
    requires
        d < 10,
    ensures
        is_digit(digit_char(d)),
        digit_char(d) as int - '0' as int == d,
{
}

/// `decimal(n)` is a non-empty run of digits that reads back as `n`.
pub proof fn lemma_decimal_reads_back(n: nat)
    ensures
        decimal(n).len() >= 1,
        all_digits(decimal(n)),
        digits_value(decimal(n)) == n,
        n < 10 ==> decimal(n).len() == 1,
        10 <= n < 100 ==> decimal(n).len() == 2,
    decreases n,
{
    if n < 10 {
        lemma_digit_char(n);
        let t = seq![digit_char(n)];
        assert(t.drop_last() =~= Seq::<char>::empty());
        assert(digits_value(Seq::<char>::empty()) == 0);
        assert(digits_value(t) == digits_value(t.drop_last()) * 10 + (t.last() as int - '0' as int));
    } else {
        lemma_decimal_reads_back(n / 10);
        lemma_digit_char(n % 10);
        let d = decimal(n / 10);
        let t = decimal(n);
        assert(t.drop_last() =~= d);
        assert(t.last() == digit_char(n % 10));
        assert(digits_value(t) == digits_value(t.drop_last()) * 10 + (t.last() as int - '0' as int));
        assert(digits_value(t) == (n / 10) * 10 + n % 10);
        assert forall|i: int| 0 <= i < decimal(n).len() implies is_digit(#[trigger] decimal(n)[i]) by {
            if i < d.len() {
                assert(decimal(n)[i] == d[i]);
            }
        }
    }
}

/// `decimal2(n)` of a number below 100 is exactly two digits that read back
/// as `n`.
pub proof fn lemma_decimal2_reads_back(n: nat)
    requires
        n < 100,
    ensures
        decimal2(n).len() == 2,
        all_digits(decimal2(n)),
        digits_value(decimal2(n)) == n,
{
    if n < 10 {
        lemma_digit_char(n);
        let t = seq!['0', digit_char(n)];
        assert(t.drop_last() =~= seq!['0']);
        assert(seq!['0'].drop_last() =~= Seq::<char>::empty());
        assert(digits_value(Seq::<char>::empty()) == 0);
        assert(digits_value(seq!['0']) == digits_value(seq!['0'].drop_last()) * 10 + ('0' as int - '0' as int));
        assert(digits_value(t) == digits_value(t.drop_last()) * 10 + (t.last() as int - '0' as int));
    } else {
        lemma_decimal_reads_back(n);
    }
}


/// When `p` starts nowhere in `s` from `i` on, it is not found from `i`.
pub proof fn lemma_find_from_none(s: Seq<char>, p: Seq<char>, i: int)
    requires
        forall|j: int| i <= j ==> !#[trigger] matches_at(s, p, j),
    ensures
        find_from(s, p, i) is None,
    decreases s.len() + 1 - i,
{
    if i < 0 || i + p.len() > s.len() {
    } else {
        lemma_find_from_none(s, p, i + 1);
    }
}

/// The first place from `i` on where `p` starts in `s` is where it is found.
pub proof fn lemma_find_from_first(s: Seq<char>, p: Seq<char>, i: int, k: int)
    requires
        0 <= i <= k,
        matches_at(s, p, k),
        forall|j: int| i <= j < k ==> !#[trigger] matches_at(s, p, j),
    ensures
        find_from(s, p, i) == Some(k),
    decreases k - i,
{
    if i < k {
        lemma_find_from_first(s, p, i + 1, k);
    }
}

/// When `s` does not contain `p`, `p` starts nowhere in `s`.
pub proof fn lemma_not_contains(s: Seq<char>, p: Seq<char>)
    requires
        !contains(s, p),
    ensures
        forall|j: int| !#[trigger] matches_at(s, p, j),
{
    assert forall|j: int| !#[trigger] matches_at(s, p, j) by {
        if matches_at(s, p, j) {
            lemma_find_from_none_inv(s, p, 0, j);
        }
    }
}

proof fn lemma_find_from_none_inv(s: Seq<char>, p: Seq<char>, i: int, j: int)
    requires
        0 <= i <= j,
        find_from(s, p, i) is None,
    ensures
        !matches_at(s, p, j),
    decreases j - i,
{
    if i + p.len() > s.len() {
    } else if i < j {
        lemma_find_from_none_inv(s, p, i + 1, j);
    }
}

/// `p` does not start at `j` in `s` when one of its characters differs.
pub proof fn lemma_mismatch(s: Seq<char>, p: Seq<char>, j: int, t: int)
    requires
        0 <= t < p.len(),
        0 <= j + t < s.len(),
        s[j + t] != p[t],
    ensures
        !matches_at(s, p, j),
{
    if matches_at(s, p, j) {
        assert(s.subrange(j, j + p.len())[t] == s[j + t]);
    }
}

/// A match of `p` lying wholly within a stretch `a` of `s` that starts at
/// `off` is a match of `p` in `a`.
pub proof fn lemma_match_within(s: Seq<char>, a: Seq<char>, p: Seq<char>, off: int, j: int)
    requires
        0 <= off,
        off + a.len() <= s.len(),
        s.subrange(off, off + a.len()) == a,
        off <= j,
        j + p.len() <= off + a.len(),
        matches_at(s, p, j),
    ensures
        matches_at(a, p, j - off),
{
    assert(a.subrange(j - off, j - off + p.len()) =~= s.subrange(j, j + p.len()));
}

/// Trimming a text that has no whitespace at either end, with one space
/// added at each end, gives back the text.
pub proof fn lemma_trim_padded(f: Seq<char>)
    requires
        f.len() > 0 ==> !is_ws(f[0]) && !is_ws(f.last()),
    ensures
        trim(seq![' '] + f + seq![' ']) == f,
{
    let w = |c: char| is_ws(c);
    let s = seq![' '] + f + seq![' '];
    let n = f.len() as int;
    if n == 0 {
        lemma_strip_start_skip(s, w, 2);
        assert(s.subrange(2, 2) =~= Seq::<char>::empty());
        assert(f =~= Seq::<char>::empty());
    } else {
        lemma_strip_start_skip(s, w, 1);
        let g = f + seq![' '];
        assert(s.subrange(1, s.len() as int) =~= g);
        assert(g[0] == f[0]);
        assert(strip_start(g, w) == g);
        lemma_strip_end_take(g, w, n);
        assert(g.subrange(0, n) =~= f);
        assert(strip_end(f, w) == f);
    }
}

} // verus!
