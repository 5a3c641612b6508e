//! Character-level text utilities with mathematical specifications.
//!
//! Strings are modelled by their view, a `Seq<char>`; every index used in
//! this module is a character index.

use vstd::prelude::*;

verus! {

/// Unicode `White_Space` property, the set that `char::is_whitespace` tests.
pub open spec fn is_ws(c: char) -> bool {
    ||| ('\u{9}' <= c && c <= '\u{d}')
    ||| c == ' '
    ||| c == '\u{85}'
    ||| c == '\u{a0}'
    ||| c == '\u{1680}'
    ||| ('\u{2000}' <= c && c <= '\u{200a}')
    ||| c == '\u{2028}'
    ||| c == '\u{2029}'
    ||| c == '\u{202f}'
    ||| c == '\u{205f}'
    ||| c == '\u{3000}'
}

/// Tests whether `c` is a Unicode white-space character.
pub fn is_whitespace(c: char) -> (b: bool)
    ensures
        b == is_ws(c),
{
    ('\u{9}' <= c && c <= '\u{d}') || c == ' ' || c == '\u{85}' || c == '\u{a0}' || c
        == '\u{1680}' || ('\u{2000}' <= c && c <= '\u{200a}') || c == '\u{2028}' || c
        == '\u{2029}' || c == '\u{202f}' || c == '\u{205f}' || c == '\u{3000}'
}

/// `s` without its leading white space.
pub open spec fn trim_start(s: Seq<char>) -> Seq<char>
    decreases s.len(),
{
    if s.len() > 0 && is_ws(s[0]) {
        trim_start(s.drop_first())
    } else {
        s
    }
}

/// `s` without its trailing white space.
pub open spec fn trim_end(s: Seq<char>) -> Seq<char>
    decreases s.len(),
{
    if s.len() > 0 && is_ws(s.last()) {
        trim_end(s.drop_last())
    } else {
        s
    }
}

/// `s` without leading and trailing white space.
pub open spec fn trim(s: Seq<char>) -> Seq<char> {
    trim_end(trim_start(s))
}

proof fn lemma_trim_start_skip(s: Seq<char>, i: int)
    requires
        0 <= i <= s.len(),
        forall|j: int| 0 <= j < i ==> is_ws(#[trigger] s[j]),
    ensures
        trim_start(s) == trim_start(s.skip(i)),
    decreases i,
{
    if i > 0 {
        assert(s.skip(1) == s.drop_first());
        assert forall|j: int| 0 <= j < i - 1 implies is_ws(#[trigger] s.drop_first()[j]) by {
            assert(s.drop_first()[j] == s[j + 1]);
        }
        lemma_trim_start_skip(s.drop_first(), i - 1);
        assert(s.drop_first().skip(i - 1) == s.skip(i));
    } else {
        assert(s.skip(0) == s);
    }
}

proof fn lemma_trim_end_take(s: Seq<char>, k: int)
    requires
        0 <= k <= s.len(),
        forall|j: int| k <= j < s.len() ==> is_ws(#[trigger] s[j]),
    ensures
        trim_end(s) == trim_end(s.take(k)),
    decreases s.len() - k,
{
    if k < s.len() {
        assert(is_ws(s[s.len() - 1]));
        assert forall|j: int| k <= j < s.drop_last().len() implies is_ws(
            #[trigger] s.drop_last()[j],
        ) by {
            assert(s.drop_last()[j] == s[j]);
        }
        lemma_trim_end_take(s.drop_last(), k);
        assert(s.drop_last().take(k) == s.take(k));
    } else {
        assert(s.take(k) == s);
    }
}

/// Returns `s` without leading and trailing white space.
pub fn trim_str(s: &str) -> (r: &str)
    ensures
        r@ == trim(s@),
{
    let n = s.unicode_len();
    let mut start: usize = 0;
    while start < n && is_whitespace(s.get_char(start))
        invariant
            n == s@.len(),
            start <= n,
            forall|j: int| 0 <= j < start ==> is_ws(#[trigger] s@[j]),
        decreases n - start,
    {
        start = start + 1;
    }
    proof {
        lemma_trim_start_skip(s@, start as int);
    }
    let mut end: usize = n;
    while end > start && is_whitespace(s.get_char(end - 1))
        invariant
            n == s@.len(),
            start <= end <= n,
            forall|j: int| end <= j < n ==> is_ws(#[trigger] s@[j]),
        decreases end,
    {
        end = end - 1;
    }
    let ghost rest = s@.skip(start as int);
    proof {
        if start < n {
            assert(!is_ws(rest[0]));
            assert(trim_start(rest) == rest);
        } else {
            assert(rest.len() == 0);
        }
        assert forall|j: int| end - start <= j < rest.len() implies is_ws(#[trigger] rest[j]) by {
            assert(rest[j] == s@[j + start]);
        }
        lemma_trim_end_take(rest, end - start);
        let t = rest.take(end - start);
        if end > start {
            assert(t.last() == s@[end - 1]);
            assert(trim_end(t) == t);
        } else {
            assert(t.len() == 0);
        }
        assert(t == s@.subrange(start as int, end as int));
    }
    s.substring_char(start, end)
}

/// The characters of `s`, in order.
pub fn chars_of(s: &str) -> (v: Vec<char>)
    ensures
        v@ == s@,
{
    broadcast use vstd::string::group_string_axioms;
    let mut v: Vec<char> = Vec::new();
    for c in it: s.chars()
        invariant
            v@ == it.seq().take(it.index() as int),
            it.seq() == s@,
    {
        v.push(c);
    }
    v
}

/// Appends the character `c` to `s` (`String::push`).
#[verifier::external_body]
pub(crate) fn push_char(s: &mut String, c: char)
    ensures
        final(s)@ == old(s)@.push(c),
{
    s.push(c);
}

/// The views of a sequence of strings.
pub open spec fn views(v: Seq<String>) -> Seq<Seq<char>> {
    v.map_values(|x: String| x@)
}

/// The pieces of `s` between occurrences of the separator `c` (an empty
/// string gives one empty piece, as `str::split` does).
pub open spec fn split_char(s: Seq<char>, c: char) -> Seq<Seq<char>>
    decreases s.len(),
{
    if s.len() == 0 {
        seq![Seq::empty()]
    } else {
        let p = split_char(s.drop_last(), c);
        if s.last() == c {
            p.push(Seq::empty())
        } else {
            p.update(p.len() - 1, p.last().push(s.last()))
        }
    }
}

/// The pieces of `s` between white-space characters.
pub open spec fn split_ws(s: Seq<char>) -> Seq<Seq<char>>
    decreases s.len(),
{
    if s.len() == 0 {
        seq![Seq::empty()]
    } else {
        let p = split_ws(s.drop_last());
        if is_ws(s.last()) {
            p.push(Seq::empty())
        } else {
            p.update(p.len() - 1, p.last().push(s.last()))
        }
    }
}

/// The non-empty members of `ps`, in order.
pub open spec fn non_empty(ps: Seq<Seq<char>>) -> Seq<Seq<char>>
    decreases ps.len(),
{
    if ps.len() == 0 {
        ps
    } else if ps.last().len() > 0 {
        non_empty(ps.drop_last()).push(ps.last())
    } else {
        non_empty(ps.drop_last())
    }
}

/// The white-space separated words of `s` (`str::split_whitespace`).
pub open spec fn words(s: Seq<char>) -> Seq<Seq<char>> {
    non_empty(split_ws(s))
}

/// The members of `parts` with `sep` between each two neighbours.
pub open spec fn join(parts: Seq<Seq<char>>, sep: Seq<char>) -> Seq<char>
    decreases parts.len(),
{
    if parts.len() == 0 {
        Seq::empty()
    } else if parts.len() == 1 {
        parts[0]
    } else {
        join(parts.drop_last(), sep) + sep + parts.last()
    }
}

/// Splitting at a character gives at least one piece.
pub proof fn lemma_split_char_len(s: Seq<char>, c: char)
    ensures
        split_char(s, c).len() >= 1,
    decreases s.len(),
{
    if s.len() > 0 {
        lemma_split_char_len(s.drop_last(), c);
    }
}

/// Splitting at white space gives at least one piece.
pub proof fn lemma_split_ws_len(s: Seq<char>)
    ensures
        split_ws(s).len() >= 1,
    decreases s.len(),
{
    if s.len() > 0 {
        lemma_split_ws_len(s.drop_last());
    }
}

/// Splits `s` at every occurrence of `c`.
pub fn split_on_char(s: &str, c: char) -> (r: Vec<String>)
    ensures
        views(r@) == split_char(s@, c),
{
    let cs = chars_of(s);
    let mut out: Vec<String> = Vec::new();
    let mut cur = String::new();
    let mut i: usize = 0;
    assert(s@.take(0) == Seq::<char>::empty());
    while i < cs.len()
        invariant
            cs@ == s@,
            i <= cs.len(),
            views(out@).push(cur@) == split_char(s@.take(i as int), c),
        decreases cs.len() - i,
    {
        let ghost before = views(out@).push(cur@);
        let ch = cs[i];
        assert(s@.take(i + 1).drop_last() == s@.take(i as int));
        assert(s@.take(i + 1).last() == ch);
        if ch == c {
            let done = cur;
            out.push(done);
            cur = String::new();
            assert(views(out@).push(cur@) == before.push(Seq::empty()));
        } else {
            push_char(&mut cur, ch);
            assert(views(out@).push(cur@) == before.update(
                before.len() - 1,
                before.last().push(ch),
            ));
        }
        i = i + 1;
    }
    assert(s@.take(cs.len() as int) == s@);
    out.push(cur);
    assert(views(out@) == split_char(s@, c));
    out
}

/// Splits `s` into its white-space separated words.
pub fn split_whitespace(s: &str) -> (r: Vec<String>)
    ensures
        views(r@) == words(s@),
{
    let cs = chars_of(s);
    let mut out: Vec<String> = Vec::new();
    let mut cur = String::new();
    let mut i: usize = 0;
    assert(s@.take(0) == Seq::<char>::empty());
    while i < cs.len()
        invariant
            cs@ == s@,
            i <= cs.len(),
            split_ws(s@.take(i as int)).len() >= 1,
            split_ws(s@.take(i as int)).last() == cur@,
            non_empty(split_ws(s@.take(i as int)).drop_last()) == views(out@),
        decreases cs.len() - i,
    {
        let ghost p = split_ws(s@.take(i as int));
        let ch = cs[i];
        assert(s@.take(i + 1).drop_last() == s@.take(i as int));
        assert(s@.take(i + 1).last() == ch);
        proof {
            lemma_split_ws_len(s@.take(i + 1));
        }
        if is_whitespace(ch) {
            if cur.as_str().is_empty() {
                assert(p.push(Seq::empty()).drop_last() == p);
                assert(p == p.drop_last().push(p.last()));
            } else {
                let done = cur;
                out.push(done);
                assert(p.push(Seq::empty()).drop_last() == p);
                assert(p == p.drop_last().push(p.last()));
                assert(views(out@) == views(out@).drop_last().push(done@));
            }
            cur = String::new();
        } else {
            push_char(&mut cur, ch);
            let ghost q = p.update(p.len() - 1, p.last().push(ch));
            assert(q.drop_last() == p.drop_last());
        }
        i = i + 1;
    }
    assert(s@.take(cs.len() as int) == s@);
    let ghost p = split_ws(s@);
    assert(p == p.drop_last().push(p.last()));
    if !cur.as_str().is_empty() {
        out.push(cur);
    }
    out
}

/// Joins `parts` with `sep` between each two neighbours (`[String]::join`).
pub fn join_strings(parts: &Vec<String>, sep: &str) -> (r: String)
    ensures
        r@ == join(views(parts@), sep@),
{
    let mut r = String::new();
    let mut i: usize = 0;
    while i < parts.len()
        invariant
            i <= parts.len(),
            r@ == join(views(parts@).take(i as int), sep@),
        decreases parts.len() - i,
    {
        assert(views(parts@).take(i + 1).drop_last() == views(parts@).take(i as int));
        if i > 0 {
            r.append(sep);
        }
        r.append(parts[i].as_str());
        i = i + 1;
    }
    assert(views(parts@).take(parts.len() as int) == views(parts@));
    r
}

/// `t` occurs in `s` starting at character `i`.
pub open spec fn occurs_at(s: Seq<char>, t: Seq<char>, i: int) -> bool {
    0 <= i && i + t.len() <= s.len() && s.subrange(i, i + t.len()) == t
}

/// `t` occurs somewhere in `s`.
pub open spec fn contains(s: Seq<char>, t: Seq<char>) -> bool {
    exists|i: int| occurs_at(s, t, i)
}

/// `s` begins with `p`.
pub open spec fn starts_with(s: Seq<char>, p: Seq<char>) -> bool {
    occurs_at(s, p, 0)
}

/// `s` ends with `p`.
pub open spec fn ends_with(s: Seq<char>, p: Seq<char>) -> bool {
    occurs_at(s, p, s.len() - p.len())
}

/// `s` without the prefix `p`, when it has it.
pub open spec fn strip_prefix(s: Seq<char>, p: Seq<char>) -> Option<Seq<char>> {
    if starts_with(s, p) {
        Some(s.skip(p.len() as int))
    } else {
        None
    }
}

/// `s` without the suffix `p`, when it has it.
pub open spec fn strip_suffix(s: Seq<char>, p: Seq<char>) -> Option<Seq<char>> {
    if ends_with(s, p) {
        Some(s.take(s.len() - p.len()))
    } else {
        None
    }
}

/// Tests whether `t` occurs in `s` at character index `i`.
fn occurs_at_exec(s: &Vec<char>, t: &Vec<char>, i: usize) -> (b: bool)
    requires
        i <= s.len(),
    ensures
        b == occurs_at(s@, t@, i as int),
{
    if t.len() > s.len() - i {
        return false;
    }
    let mut k: usize = 0;
    while k < t.len()
        invariant
            i + t.len() <= s.len(),
            k <= t.len(),
            forall|j: int| 0 <= j < k ==> s@[i + j] == t@[j],
        decreases t.len() - k,
    {
        if s[i + k] != t[k] {
            assert(s@.subrange(i as int, i + t.len())[k as int] != t@[k as int]);
            return false;
        }
        k = k + 1;
    }
    assert(s@.subrange(i as int, i + t.len()) == t@);
    true
}

/// The first character index at which `t` occurs in `s`.
pub fn find_chars(s: &Vec<char>, t: &Vec<char>) -> (r: Option<usize>)
    ensures
        r matches Some(i) ==> occurs_at(s@, t@, i as int) && forall|j: int|
            0 <= j < i ==> !occurs_at(s@, t@, j),
        r is None ==> !contains(s@, t@),
{
    if t.len() > s.len() {
        return None;
    }
    let last = s.len() - t.len();
    let mut i: usize = 0;
    loop
        invariant
            t.len() <= s.len(),
            last == s.len() - t.len(),
            i <= last,
            forall|j: int| 0 <= j < i ==> !occurs_at(s@, t@, j),
        decreases last - i,
    {
        if occurs_at_exec(s, t, i) {
            return Some(i);
        }
        if i == last {
            return None;
        }
        i = i + 1;
    }
}

/// Tests whether `t` occurs in `s` (`str::contains`).
pub fn str_contains(s: &str, t: &str) -> (b: bool)
    ensures
        b == contains(s@, t@),
{
    let cs = chars_of(s);
    let ct = chars_of(t);
    find_chars(&cs, &ct).is_some()
}

/// `s` without the prefix `p`, when it has it (`str::strip_prefix`).
pub fn str_strip_prefix<'a>(s: &'a str, p: &str) -> (r: Option<&'a str>)
    ensures
        r matches Some(x) ==> strip_prefix(s@, p@) == Some(x@),
        r is None ==> strip_prefix(s@, p@) is None,
{
    let cs = chars_of(s);
    let cp = chars_of(p);
    if cp.len() <= cs.len() && occurs_at_exec(&cs, &cp, 0) {
        Some(s.substring_char(cp.len(), cs.len()))
    } else {
        None
    }
}

/// `s` without the suffix `p`, when it has it (`str::strip_suffix`).
pub fn str_strip_suffix<'a>(s: &'a str, p: &str) -> (r: Option<&'a str>)
    ensures
        r matches Some(x) ==> strip_suffix(s@, p@) == Some(x@),
        r is None ==> strip_suffix(s@, p@) is None,
{
    let cs = chars_of(s);
    let cp = chars_of(p);
    if cp.len() <= cs.len() && occurs_at_exec(&cs, &cp, cs.len() - cp.len()) {
        Some(s.substring_char(0, cs.len() - cp.len()))
    } else {
        None
    }
}

/// What `str::to_lowercase` returns for a string (Unicode lower-case mapping).
pub uninterp spec fn lowercase(s: Seq<char>) -> Seq<char>;

/// What `str::to_uppercase` returns for a string (Unicode upper-case mapping).
pub uninterp spec fn uppercase(s: Seq<char>) -> Seq<char>;

/// `s` holds ASCII characters only.
pub open spec fn is_ascii_text(s: Seq<char>) -> bool {
    forall|i: int| 0 <= i < s.len() ==> (s[i] as u32) < 128
}

/// The lower case of an ASCII character: `'A'..='Z'` become `'a'..='z'`,
/// every other character stays as it is.
pub open spec fn ascii_lower_char(c: char) -> char {
    if 'A' <= c && c <= 'Z' {
        ((c as u32) + 32) as char
    } else {
        c
    }
}

/// Each character of `s` in ASCII lower case.
pub open spec fn ascii_lowered(s: Seq<char>) -> Seq<char> {
    s.map_values(|c: char| ascii_lower_char(c))
}

/// Calls `str::to_lowercase`; its result is named `lowercase(s@)`.
/// On ASCII text the contract also says what the result is: std lower-cases
/// by the Unicode lower-case mapping, which takes `'A'..='Z'` to
/// `'a'..='z'` and gives no mapping to any other ASCII character, and a
/// character without a mapping is kept (`char::to_lowercase`). Nothing is
/// stated of the result on other text.
#[verifier::external_body]
pub(crate) fn to_lowercase(s: &str) -> (r: String)
    ensures
        r@ == lowercase(s@),
        is_ascii_text(s@) ==> r@ == ascii_lowered(s@),
{
    s.to_lowercase()
}

/// Calls `str::to_uppercase`; its result is named `uppercase(s@)`.
#[verifier::external_body]
pub(crate) fn to_uppercase(s: &str) -> (r: String)
    ensures
        r@ == uppercase(s@),
{
    s.to_uppercase()
}

/// Tests whether two strings are equal, character by character.
pub fn str_eq(a: &str, b: &str) -> (r: bool)
    ensures
        r == (a@ == b@),
{
    let ca = chars_of(a);
    let cb = chars_of(b);
    if ca.len() != cb.len() {
        return false;
    }
    let mut i: usize = 0;
    while i < ca.len()
        invariant
            ca@ == a@,
            cb@ == b@,
            ca.len() == cb.len(),
            i <= ca.len(),
            forall|j: int| 0 <= j < i ==> ca@[j] == cb@[j],
        decreases ca.len() - i,
    {
        if ca[i] != cb[i] {
            return false;
        }
        i = i + 1;
    }
    assert(a@ =~= b@);
    true
}

/// The concatenation of `parts`, in order.
pub open spec fn concat(parts: Seq<Seq<char>>) -> Seq<char>
    decreases parts.len(),
{
    if parts.len() == 0 {
        Seq::empty()
    } else {
        concat(parts.drop_last()) + parts.last()
    }
}

/// The views of a sequence of string slices.
pub open spec fn str_views(v: Seq<&str>) -> Seq<Seq<char>> {
    v.map_values(|x: &str| x@)
}

/// Concatenates `parts` into a new string.
pub fn concat_strs(parts: &[&str]) -> (r: String)
    ensures
        r@ == concat(str_views(parts@)),
{
    let mut r = String::new();
    let mut i: usize = 0;
    while i < parts.len()
        invariant
            i <= parts.len(),
            r@ == concat(str_views(parts@).take(i as int)),
        decreases parts.len() - i,
    {
        assert(str_views(parts@).take(i + 1).drop_last() == str_views(parts@).take(i as int));
        r.append(parts[i]);
        i = i + 1;
    }
    assert(str_views(parts@).take(parts.len() as int) == str_views(parts@));
    r
}

/// The first character index at or after `i` where `t` occurs in `s`.
pub open spec fn find_from(s: Seq<char>, t: Seq<char>, i: int) -> Option<int>
    decreases s.len() + 1 - i,
{
    if i < 0 || i > s.len() {
        None
    } else if occurs_at(s, t, i) {
        Some(i)
    } else {
        find_from(s, t, i + 1)
    }
}

/// The first character index where `t` occurs in `s` (`str::find`).
pub open spec fn find(s: Seq<char>, t: Seq<char>) -> Option<int> {
    find_from(s, t, 0)
}

/// The first occurrence found from `i` is at `k` when `t` occurs at `k`
/// and nowhere between `i` and `k`.
pub proof fn lemma_find_from_first(s: Seq<char>, t: Seq<char>, i: int, k: int)
    requires
        0 <= i <= k,
        occurs_at(s, t, k),
        forall|j: int| i <= j < k ==> !occurs_at(s, t, j),
    ensures
        find_from(s, t, i) == Some(k),
    decreases k - i,
{
    if i < k {
        lemma_find_from_first(s, t, i + 1, k);
    }
}

/// What is found from `i` on is an occurrence at or after `i`.
pub proof fn lemma_find_from_found(s: Seq<char>, t: Seq<char>, i: int)
    ensures
        find_from(s, t, i) matches Some(k) ==> i <= k && occurs_at(s, t, k),
    decreases s.len() + 1 - i,
{
    if 0 <= i <= s.len() && !occurs_at(s, t, i) {
        lemma_find_from_found(s, t, i + 1);
    }
}

/// Nothing is found from `i` on when `t` does not occur in `s` at all.
pub proof fn lemma_find_from_none(s: Seq<char>, t: Seq<char>, i: int)
    requires
        0 <= i,
        !contains(s, t),
    ensures
        find_from(s, t, i) is None,
    decreases s.len() + 1 - i,
{
    if i <= s.len() {
        assert(!occurs_at(s, t, i));
        lemma_find_from_none(s, t, i + 1);
    }
}

/// With no occurrence of `t` in `s` at or after `i`, there is none to find.
pub proof fn lemma_find_from_none_after(s: Seq<char>, t: Seq<char>, i: int)
    requires
        0 <= i,
        forall|j: int| i <= j ==> !occurs_at(s, t, j),
    ensures
        find_from(s, t, i) is None,
    decreases s.len() + 1 - i,
{
    if i <= s.len() {
        lemma_find_from_none_after(s, t, i + 1);
    }
}

/// The first character index where `t` occurs in `s`.
pub fn str_find(s: &str, t: &str) -> (r: Option<usize>)
    ensures
        r matches Some(i) ==> find(s@, t@) == Some(i as int) && occurs_at(s@, t@, i as int),
        r is None ==> find(s@, t@) is None,
{
    let cs = chars_of(s);
    let ct = chars_of(t);
    let r = find_chars(&cs, &ct);
    proof {
        match r {
            Some(i) => lemma_find_from_first(s@, t@, 0, i as int),
            None => lemma_find_from_none(s@, t@, 0),
        }
    }
    r
}

/// `p` trimmed, for each piece `p`.
pub open spec fn trim_each(ps: Seq<Seq<char>>) -> Seq<Seq<char>> {
    ps.map_values(|p: Seq<char>| trim(p))
}

/// `w` is a word: not empty, and without white space.
pub open spec fn is_word(w: Seq<char>) -> bool {
    w.len() > 0 && forall|k: int| 0 <= k < w.len() ==> !is_ws(#[trigger] w[k])
}

/// A word is split into itself alone.
proof fn lemma_split_ws_word(w: Seq<char>)
    requires
        forall|k: int| 0 <= k < w.len() ==> !is_ws(#[trigger] w[k]),
    ensures
        split_ws(w) == seq![w],
    decreases w.len(),
{
    if w.len() > 0 {
        lemma_split_ws_word(w.drop_last());
        assert(w.drop_last().push(w.last()) =~= w);
    } else {
        assert(w =~= Seq::<char>::empty());
    }
}

/// Splitting `x`, a space and a word gives the pieces of `x` and the word.
proof fn lemma_split_ws_after_space(x: Seq<char>, w: Seq<char>)
    requires
        forall|k: int| 0 <= k < w.len() ==> !is_ws(#[trigger] w[k]),
    ensures
        split_ws(x + seq![' '] + w) == split_ws(x).push(w),
    decreases w.len(),
{
    if w.len() == 0 {
        assert(x + seq![' '] + w =~= x.push(' '));
        assert((x.push(' ')).drop_last() =~= x);
        assert(w =~= Seq::<char>::empty());
    } else {
        let v = w.drop_last();
        assert forall|k: int| 0 <= k < v.len() implies !is_ws(#[trigger] v[k]) by {
            assert(v[k] == w[k]);
        }
        lemma_split_ws_after_space(x, v);
        let y = x + seq![' '] + w;
        assert(y.drop_last() =~= x + seq![' '] + v);
        assert(y.last() == w[w.len() - 1]);
        assert(!is_ws(y.last()));
        let p = split_ws(x).push(v);
        assert(p.last() == v);
        assert(v.push(y.last()) =~= w);
        assert(p.update(p.len() - 1, w) =~= split_ws(x).push(w));
    }
}

/// Every piece of a white-space split is free of white space.
proof fn lemma_split_ws_pieces(s: Seq<char>)
    ensures
        forall|i: int, k: int|
            0 <= i < split_ws(s).len() && 0 <= k < split_ws(s)[i].len() ==> !is_ws(
                #[trigger] split_ws(s)[i][k],
            ),
    decreases s.len(),
{
    lemma_split_ws_len(s);
    if s.len() > 0 {
        lemma_split_ws_pieces(s.drop_last());
        lemma_split_ws_len(s.drop_last());
        let p = split_ws(s.drop_last());
        if !is_ws(s.last()) {
            assert forall|i: int, k: int|
                0 <= i < split_ws(s).len() && 0 <= k < split_ws(s)[i].len() implies !is_ws(
                #[trigger] split_ws(s)[i][k],
            ) by {
                if i == p.len() - 1 && k == p.last().len() {
                } else if i == p.len() - 1 {
                    assert(split_ws(s)[i][k] == p[i][k]);
                } else {
                    assert(split_ws(s)[i] == p[i]);
                }
            }
        } else {
            assert forall|i: int, k: int|
                0 <= i < split_ws(s).len() && 0 <= k < split_ws(s)[i].len() implies !is_ws(
                #[trigger] split_ws(s)[i][k],
            ) by {
                if i < p.len() {
                    assert(split_ws(s)[i] == p[i]);
                }
            }
        }
    }
}

/// The non-empty members of a list of pieces free of white space are words.
proof fn lemma_non_empty_words(ps: Seq<Seq<char>>)
    requires
        forall|i: int, k: int| 0 <= i < ps.len() && 0 <= k < ps[i].len() ==> !is_ws(#[trigger] ps[i][k]),
    ensures
        forall|i: int| 0 <= i < non_empty(ps).len() ==> is_word(#[trigger] non_empty(ps)[i]),
    decreases ps.len(),
{
    if ps.len() > 0 {
        let q = ps.drop_last();
        assert forall|i: int, k: int| 0 <= i < q.len() && 0 <= k < q[i].len() implies !is_ws(
            #[trigger] q[i][k],
        ) by {
            assert(q[i] == ps[i]);
        }
        lemma_non_empty_words(q);
        let last = ps.last();
        assert forall|k: int| 0 <= k < last.len() implies !is_ws(#[trigger] last[k]) by {
            assert(last[k] == ps[ps.len() - 1][k]);
        }
        if last.len() > 0 {
            assert forall|i: int| 0 <= i < non_empty(ps).len() implies is_word(
                #[trigger] non_empty(ps)[i],
            ) by {
                if i < non_empty(q).len() {
                    assert(non_empty(ps)[i] == non_empty(q)[i]);
                }
            }
        }
    }
}

/// Law: the white-space separated words of a text are words.
pub proof fn lemma_words_are_words(s: Seq<char>)
    ensures
        forall|i: int| 0 <= i < words(s).len() ==> is_word(#[trigger] words(s)[i]),
{
    lemma_split_ws_pieces(s);
    lemma_non_empty_words(split_ws(s));
}

/// Law: joining words with single spaces and splitting the result at white
/// space gives the words back.
pub proof fn lemma_words_of_joined(ws: Seq<Seq<char>>)
    requires
        forall|i: int| 0 <= i < ws.len() ==> is_word(#[trigger] ws[i]),
    ensures
        words(join(ws, seq![' '])) == ws,
    decreases ws.len(),
{
    if ws.len() == 0 {
        let e = seq![Seq::<char>::empty()];
        assert(e.drop_last() =~= Seq::<Seq<char>>::empty());
        assert(non_empty(Seq::<Seq<char>>::empty()) == Seq::<Seq<char>>::empty());
        assert(e.last().len() == 0);
        assert(non_empty(e) == non_empty(e.drop_last()));
    } else if ws.len() == 1 {
        assert(is_word(ws[0]));
        lemma_split_ws_word(ws[0]);
        let one = seq![ws[0]];
        assert(one.drop_last() =~= Seq::<Seq<char>>::empty());
        assert(non_empty(Seq::<Seq<char>>::empty()) == Seq::<Seq<char>>::empty());
        assert(one.last().len() > 0);
        assert(non_empty(one) == non_empty(one.drop_last()).push(one.last()));
        assert(non_empty(one) =~= one);
        assert(seq![ws[0]] =~= ws);
    } else {
        let front = ws.drop_last();
        let w = ws.last();
        assert forall|i: int| 0 <= i < front.len() implies is_word(#[trigger] front[i]) by {
            assert(front[i] == ws[i]);
        }
        lemma_words_of_joined(front);
        assert(is_word(ws[ws.len() - 1]));
        lemma_split_ws_after_space(join(front, seq![' ']), w);
        assert(join(ws, seq![' ']) == join(front, seq![' ']) + seq![' '] + w);
        let p = split_ws(join(front, seq![' ']));
        assert(p.push(w).drop_last() =~= p);
        assert(non_empty(p.push(w)) == non_empty(p).push(w));
        assert(front.push(w) =~= ws);
    }
}

/// Law: normalizing white space (words joined with single spaces) twice is
/// normalizing it once.
pub proof fn lemma_normalize_ws_idempotent(s: Seq<char>)
    ensures
        join(words(join(words(s), seq![' '])), seq![' ']) == join(words(s), seq![' ']),
{
    lemma_words_are_words(s);
    lemma_words_of_joined(words(s));
}

} // verus!
