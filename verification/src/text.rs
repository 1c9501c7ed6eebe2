//! Text primitives the client is built on: trimming as `str::trim` and the
//! `trim_*_matches` family do it, prefix tests, ASCII case folding, and
//! decimal numbers.
use vstd::prelude::*;

verus! {

// ---------------------------------------------------------------------------
// Character classes
// ---------------------------------------------------------------------------

/// Unicode `White_Space`: the characters for which `char::is_whitespace`
/// holds, and so the ones `str::trim` removes.
pub open spec fn is_white_space(c: char) -> bool {
    let n: u32 = c as u32;
    ||| 0x09 <= n <= 0x0d
    ||| n == 0x20
    ||| n == 0x85
    ||| n == 0xa0
    ||| n == 0x1680
    ||| 0x2000 <= n <= 0x200a
    ||| n == 0x2028
    ||| n == 0x2029
    ||| n == 0x202f
    ||| n == 0x205f
    ||| n == 0x3000
}

/// Whether `c` is Unicode white space.
pub fn is_white_space_char(c: char) -> (b: bool)
    ensures
        b == is_white_space(c),
{
    let n: u32 = c as u32;
    (0x09 <= n && n <= 0x0d) || n == 0x20 || n == 0x85 || n == 0xa0 || n == 0x1680 || (0x2000
        <= n && n <= 0x200a) || n == 0x2028 || n == 0x2029 || n == 0x202f || n == 0x205f || n
        == 0x3000
}

/// The characters one trimming step removes.
#[derive(Clone, Copy)]
pub enum CharClass {
    /// Unicode white space.
    WhiteSpace,
    /// A single character.
    Only(char),
    /// Every character but one.
    AnyBut(char),
}

pub open spec fn in_class(c: char, class: CharClass) -> bool {
    match class {
        CharClass::WhiteSpace => is_white_space(c),
        CharClass::Only(d) => c == d,
        CharClass::AnyBut(d) => c != d,
    }
}

fn class_has(class: CharClass, c: char) -> (b: bool)
    ensures
        b == in_class(c, class),
{
    match class {
        CharClass::WhiteSpace => is_white_space_char(c),
        CharClass::Only(d) => c == d,
        CharClass::AnyBut(d) => c != d,
    }
}

// ---------------------------------------------------------------------------
// Trimming
// ---------------------------------------------------------------------------

/// How many characters at the start of `s` belong to `class`.
pub open spec fn leading_run(s: Seq<char>, class: CharClass) -> nat
    decreases s.len(),
{
    if s.len() == 0 || !in_class(s[0], class) {
        0
    } else {
        1 + leading_run(s.drop_first(), class)
    }
}

/// How many characters at the end of `s` belong to `class`.
pub open spec fn trailing_run(s: Seq<char>, class: CharClass) -> nat
    decreases s.len(),
{
    if s.len() == 0 || !in_class(s.last(), class) {
        0
    } else {
        1 + trailing_run(s.drop_last(), class)
    }
}

/// `s` without the characters of `class` at its start.
pub open spec fn trim_start_spec(s: Seq<char>, class: CharClass) -> Seq<char> {
    s.skip(leading_run(s, class) as int)
}

/// `s` without the characters of `class` at its end.
pub open spec fn trim_end_spec(s: Seq<char>, class: CharClass) -> Seq<char> {
    s.take(s.len() - trailing_run(s, class))
}

/// `s` without white space at either end, as `str::trim` gives it.
pub open spec fn trimmed(s: Seq<char>) -> Seq<char> {
    trim_end_spec(trim_start_spec(s, CharClass::WhiteSpace), CharClass::WhiteSpace)
}

/// Whether `s` holds anything but white space.
pub open spec fn has_content(s: Seq<char>) -> bool {
    trimmed(s).len() > 0
}

/// A run of characters is never longer than the text it is in.
pub proof fn lemma_runs_bounded(s: Seq<char>, class: CharClass)
    ensures
        leading_run(s, class) <= s.len(),
        trailing_run(s, class) <= s.len(),
    decreases s.len(),
{
    if s.len() > 0 {
        lemma_runs_bounded(s.drop_first(), class);
        lemma_runs_bounded(s.drop_last(), class);
    }
}

/// Trimming never lengthens a text, so a text with content is not empty.
pub proof fn lemma_trimmed_len(s: Seq<char>)
    ensures
        trimmed(s).len() <= s.len(),
        has_content(s) ==> s.len() > 0,
{
    lemma_runs_bounded(s, CharClass::WhiteSpace);
    lemma_runs_bounded(trim_start_spec(s, CharClass::WhiteSpace), CharClass::WhiteSpace);
}

/// After trimming the end, the text does not end in a character of the
/// class.
pub proof fn lemma_trim_end_last(s: Seq<char>, class: CharClass)
    ensures
        trim_end_spec(s, class).len() == 0 || !in_class(trim_end_spec(s, class).last(), class),
    decreases s.len(),
{
    if s.len() > 0 && in_class(s.last(), class) {
        lemma_trim_end_last(s.drop_last(), class);
        lemma_runs_bounded(s.drop_last(), class);
        assert(trim_end_spec(s, class) =~= trim_end_spec(s.drop_last(), class));
    }
}

/// A text that neither starts nor ends with white space is its own trimmed
/// form.
pub proof fn lemma_trimmed_unchanged(s: Seq<char>)
    requires
        s.len() > 0,
        !is_white_space(s[0]),
        !is_white_space(s.last()),
    ensures
        trimmed(s) == s,
{
    assert(leading_run(s, CharClass::WhiteSpace) == 0);
    assert(s.skip(0) =~= s);
    assert(trailing_run(s, CharClass::WhiteSpace) == 0);
    assert(s.take(s.len() as int) =~= s);
}

/// White space at the end of a text does not change its trimmed form.
pub proof fn lemma_trimmed_drop_white_end(s: Seq<char>)
    requires
        s.len() > 0,
        is_white_space(s.last()),
    ensures
        trimmed(s.drop_last()) == trimmed(s),
    decreases s.len(),
{
    let d = s.drop_last();
    if !is_white_space(s[0]) {
        assert(s.skip(0) =~= s);
        assert(d.skip(0) =~= d);
        assert(trim_start_spec(s, CharClass::WhiteSpace) == s);
        assert(d[0] == s[0]);
        assert(trim_start_spec(d, CharClass::WhiteSpace) == d);
        assert(s.drop_last() == d);
        lemma_runs_bounded(d, CharClass::WhiteSpace);
        assert(trim_end_spec(s, CharClass::WhiteSpace) =~= trim_end_spec(d, CharClass::WhiteSpace));
    } else if s.len() == 1 {
        assert(s.drop_first().len() == 0);
        assert(leading_run(s.drop_first(), CharClass::WhiteSpace) == 0);
        assert(leading_run(s, CharClass::WhiteSpace) == 1);
        assert(trim_start_spec(s, CharClass::WhiteSpace) =~= Seq::<char>::empty());
        assert(d =~= Seq::<char>::empty());
        assert(trimmed(d) =~= Seq::<char>::empty());
        assert(trimmed(s) =~= Seq::<char>::empty());
    } else {
        let t = s.drop_first();
        assert(t.last() == s.last());
        lemma_trimmed_drop_white_end(t);
        lemma_runs_bounded(t, CharClass::WhiteSpace);
        assert(leading_run(s, CharClass::WhiteSpace) == 1 + leading_run(t, CharClass::WhiteSpace));
        assert(trim_start_spec(s, CharClass::WhiteSpace) =~= trim_start_spec(t, CharClass::WhiteSpace));
        assert(d[0] == s[0]);
        assert(d.drop_first() =~= t.drop_last());
        lemma_runs_bounded(t.drop_last(), CharClass::WhiteSpace);
        assert(leading_run(d, CharClass::WhiteSpace) == 1 + leading_run(
            t.drop_last(),
            CharClass::WhiteSpace,
        ));
        assert(trim_start_spec(d, CharClass::WhiteSpace) =~= trim_start_spec(
            t.drop_last(),
            CharClass::WhiteSpace,
        ));
    }
}

pub(crate) proof fn lemma_leading_run(s: Seq<char>, class: CharClass, i: int)
    requires
        0 <= i <= s.len(),
        forall|k: int| 0 <= k < i ==> in_class(#[trigger] s[k], class),
        i == s.len() || !in_class(s[i], class),
    ensures
        leading_run(s, class) == i,
    decreases i,
{
    if i > 0 {
        let t = s.drop_first();
        assert forall|k: int| 0 <= k < i - 1 implies in_class(#[trigger] t[k], class) by {
            assert(t[k] == s[k + 1]);
        }
        if i - 1 < t.len() {
            assert(t[i - 1] == s[i]);
        }
        lemma_leading_run(t, class, i - 1);
    }
}

proof fn lemma_trailing_run(s: Seq<char>, class: CharClass, k: int)
    requires
        0 <= k <= s.len(),
        forall|j: int| s.len() - k <= j < s.len() ==> in_class(#[trigger] s[j], class),
        k == s.len() || !in_class(s[s.len() - k - 1], class),
    ensures
        trailing_run(s, class) == k,
    decreases k,
{
    if k > 0 {
        let t = s.drop_last();
        assert(in_class(s[s.len() - 1], class));
        assert forall|j: int| t.len() - (k - 1) <= j < t.len() implies in_class(
            #[trigger] t[j],
            class,
        ) by {
            assert(t[j] == s[j]);
        }
        if k - 1 < t.len() {
            assert(t[t.len() - (k - 1) - 1] == s[s.len() - k - 1]);
        }
        lemma_trailing_run(t, class, k - 1);
    }
}

/// The number of characters of `class` at the start of `v`.
pub(crate) fn leading_len(v: &Vec<char>, class: CharClass) -> (n: usize)
    ensures
        n == leading_run(v@, class),
        n <= v.len(),
{
    let mut i: usize = 0;
    while i < v.len() && class_has(class, v[i])
        invariant
            i <= v.len(),
            forall|k: int| 0 <= k < i ==> in_class(#[trigger] v@[k], class),
        decreases v.len() - i,
    {
        i = i + 1;
    }
    proof {
        lemma_leading_run(v@, class, i as int);
    }
    i
}

/// The number of characters of `class` at the end of `v`, not counting any
/// before position `lo`.
fn trailing_len_after(v: &Vec<char>, lo: usize, class: CharClass) -> (n: usize)
    requires
        lo <= v.len(),
    ensures
        n == trailing_run(v@.skip(lo as int), class),
        n <= v.len() - lo,
{
    let mut j: usize = v.len();
    while j > lo && class_has(class, v[j - 1])
        invariant
            lo <= j <= v.len(),
            forall|k: int| j <= k < v.len() ==> in_class(#[trigger] v@[k], class),
        decreases j,
    {
        j = j - 1;
    }
    proof {
        let t = v@.skip(lo as int);
        let k: int = (v.len() - j) as int;
        assert forall|m: int| t.len() - k <= m < t.len() implies in_class(#[trigger] t[m], class) by {
            assert(t[m] == v@[lo + m]);
        }
        if k < t.len() {
            assert(t[t.len() - k - 1] == v@[j - 1]);
        }
        lemma_trailing_run(t, class, k);
    }
    v.len() - j
}

/// The characters of a string slice, in order.
pub fn chars_of(s: &str) -> (v: Vec<char>)
    ensures
        v@ == s@,
{
    let mut v: Vec<char> = Vec::new();
    for c in it: s.chars()
        invariant
            v@ == it.seq().take(it.index() as int),
    {
        v.push(c);
    }
    v
}

/// `s` without white space at either end (`str::trim`).
pub fn trim(s: &str) -> (r: &str)
    ensures
        r@ == trimmed(s@),
{
    let v = chars_of(s);
    let a: usize = leading_len(&v, CharClass::WhiteSpace);
    let k: usize = trailing_len_after(&v, a, CharClass::WhiteSpace);
    let r = s.substring_char(a, v.len() - k);
    proof {
        assert(r@ =~= trimmed(s@));
    }
    r
}

/// The part of `s` before the first `c`, or all of `s` when it has none.
pub open spec fn up_to(s: Seq<char>, c: char) -> Seq<char> {
    s.take(leading_run(s, CharClass::AnyBut(c)) as int)
}

/// The part of `s` before the first `c` (the first item of `str::split`).
pub fn first_field(s: &str, c: char) -> (r: &str)
    ensures
        r@ == up_to(s@, c),
{
    let v = chars_of(s);
    let k: usize = leading_len(&v, CharClass::AnyBut(c));
    s.substring_char(0, k)
}

/// `s` without every copy of `c` at its start (`str::trim_start_matches`
/// with a character).
pub fn trim_start_matches(s: &str, c: char) -> (r: &str)
    ensures
        r@ == trim_start_spec(s@, CharClass::Only(c)),
{
    let v = chars_of(s);
    let a: usize = leading_len(&v, CharClass::Only(c));
    s.substring_char(a, v.len())
}

/// `s` without every copy of `c` at its end (`str::trim_end_matches` with a
/// character).
pub fn trim_end_matches(s: &str, c: char) -> (r: &str)
    ensures
        r@ == trim_end_spec(s@, CharClass::Only(c)),
{
    let v = chars_of(s);
    let k: usize = trailing_len_after(&v, 0, CharClass::Only(c));
    proof {
        assert(v@.skip(0) =~= v@);
    }
    s.substring_char(0, v.len() - k)
}

/// Whether `s` holds anything but white space.
pub fn has_text(s: &str) -> (b: bool)
    ensures
        b == has_content(s@),
{
    !trim(s).is_empty()
}

// ---------------------------------------------------------------------------
// Prefixes and comparison
// ---------------------------------------------------------------------------

pub open spec fn has_prefix(s: Seq<char>, p: Seq<char>) -> bool {
    p.len() <= s.len() && s.take(p.len() as int) == p
}

fn vec_has_prefix(v: &Vec<char>, p: &Vec<char>) -> (b: bool)
    ensures
        b == has_prefix(v@, p@),
{
    if p.len() > v.len() {
        return false;
    }
    let mut i: usize = 0;
    while i < p.len()
        invariant
            p.len() <= v.len(),
            i <= p.len(),
            forall|k: int| 0 <= k < i ==> v@[k] == p@[k],
        decreases p.len() - i,
    {
        if v[i] != p[i] {
            assert(v@.take(p.len() as int)[i as int] != p@[i as int]);
            return false;
        }
        i = i + 1;
    }
    assert(v@.take(p.len() as int) =~= p@);
    true
}

/// Whether `s` starts with `p` (`str::starts_with`).
pub fn starts_with(s: &str, p: &str) -> (b: bool)
    ensures
        b == has_prefix(s@, p@),
{
    let v = chars_of(s);
    let w = chars_of(p);
    vec_has_prefix(&v, &w)
}

/// The rest of `s` after the prefix `p`, if `s` starts with it
/// (`str::strip_prefix`).
pub fn strip_prefix<'a>(s: &'a str, p: &str) -> (r: Option<&'a str>)
    ensures
        r is Some <==> has_prefix(s@, p@),
        r matches Some(rest) ==> rest@ == s@.skip(p@.len() as int),
{
    let v = chars_of(s);
    let w = chars_of(p);
    if vec_has_prefix(&v, &w) {
        Some(s.substring_char(w.len(), v.len()))
    } else {
        None
    }
}

/// Whether two string slices hold the same characters.
pub fn same_text(a: &str, b: &str) -> (r: bool)
    ensures
        r == (a@ == b@),
{
    let x = a.to_owned();
    let y = b.to_owned();
    x == y
}

/// The ASCII lower-case form of `c`; other characters stay as they are.
pub open spec fn ascii_lower(c: char) -> char {
    if 'A' <= c <= 'Z' {
        ((c as u32) + 32) as char
    } else {
        c
    }
}

/// Equality up to ASCII case (`str::eq_ignore_ascii_case`).
pub open spec fn eq_ignore_ascii_case_spec(a: Seq<char>, b: Seq<char>) -> bool {
    a.len() == b.len() && forall|i: int| 0 <= i < a.len() ==> ascii_lower(a[i]) == ascii_lower(
        b[i],
    )
}

fn lower_char(c: char) -> (r: char)
    ensures
        r == ascii_lower(c),
{
    if 'A' <= c && c <= 'Z' {
        let n: u8 = (c as u8) + 32;
        n as char
    } else {
        c
    }
}

/// Whether `a` and `b` are equal up to ASCII case.
pub fn eq_ignore_ascii_case(a: &str, b: &str) -> (r: bool)
    ensures
        r == eq_ignore_ascii_case_spec(a@, b@),
{
    let v = chars_of(a);
    let w = chars_of(b);
    if v.len() != w.len() {
        return false;
    }
    let mut i: usize = 0;
    while i < v.len()
        invariant
            v@ == a@,
            w@ == b@,
            v.len() == w.len(),
            i <= v.len(),
            forall|k: int| 0 <= k < i ==> ascii_lower(v@[k]) == ascii_lower(w@[k]),
        decreases v.len() - i,
    {
        if lower_char(v[i]) != lower_char(w[i]) {
            assert(ascii_lower(a@[i as int]) != ascii_lower(b@[i as int]));
            return false;
        }
        i = i + 1;
    }
    true
}

} // verus!
