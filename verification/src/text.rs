//! Character-level text utilities shared by the prompt builders and parsers.
//!
//! Every function here works on the `char` view of a string (`s@`), and its
//! contract is stated over the spec functions defined in this module.
use vstd::prelude::*;
use vstd::std_specs::iter::IteratorSpec;

verus! {

broadcast use vstd::string::group_string_axioms;

// ───────────────────────── character classes ─────────────────────────

/// Unicode `White_Space`, the property that `char::is_whitespace` tests.
pub open spec fn is_ws(c: char) -> bool {
    ||| ('\u{9}' <= c && c <= '\u{d}')
    ||| c == ' '
    ||| c == '\u{85}'
    ||| c == '\u{a0}'
    ||| c == '\u{1680}'
    ||| ('\u{2000}' <= c && c <= '\u{200a}')
    ||| c == '\u{2028}'
    ||| c == '\u{2029}'
    ||| c == '\u{202f}'
    ||| c == '\u{205f}'
    ||| c == '\u{3000}'
}

pub open spec fn is_ascii_digit(c: char) -> bool {
    '0' <= c && c <= '9'
}

pub open spec fn is_ascii_alnum(c: char) -> bool {
    ||| ('0' <= c && c <= '9')
    ||| ('a' <= c && c <= 'z')
    ||| ('A' <= c && c <= 'Z')
}

/// Number of bytes that `c` takes in UTF-8.
pub open spec fn utf8_width(c: char) -> nat {
    if (c as u32) < 0x80 {
        1
    } else if (c as u32) < 0x800 {
        2
    } else if (c as u32) < 0x10000 {
        3
    } else {
        4
    }
}

/// Number of bytes that `s` takes in UTF-8.
pub open spec fn utf8_len(s: Seq<char>) -> nat
    decreases s.len(),
{
    if s.len() == 0 {
        0
    } else {
        utf8_len(s.drop_last()) + utf8_width(s.last())
    }
}

pub fn char_is_ws(c: char) -> (r: bool)
    ensures
        r == is_ws(c),
{
    ('\u{9}' <= c && c <= '\u{d}') || c == ' ' || c == '\u{85}' || c == '\u{a0}' || c
        == '\u{1680}' || ('\u{2000}' <= c && c <= '\u{200a}') || c == '\u{2028}' || c
        == '\u{2029}' || c == '\u{202f}' || c == '\u{205f}' || c == '\u{3000}'
}

pub fn char_is_ascii_alnum(c: char) -> (r: bool)
    ensures
        r == is_ascii_alnum(c),
{
    ('0' <= c && c <= '9') || ('a' <= c && c <= 'z') || ('A' <= c && c <= 'Z')
}

// ───────────────────────── conversions ─────────────────────────

/// The characters of `s`, in order.
pub fn chars_of(s: &str) -> (v: Vec<char>)
    ensures
        v@ == s@,
{
    let mut it = s.chars();
    let mut v: Vec<char> = Vec::new();
    loop
        invariant
            v@ + it.remaining() == s@,
            it.decrease() is Some,
        ensures
            v@ == s@,
        decreases it.decrease()->0,
    {
        match it.next() {
            Some(c) => {
                v.push(c);
            },
            None => {
                assert(v@ =~= s@);
                break ;
            },
        }
    }
    v
}

/// Appends one character (`String::push`).
#[verifier::external_body]
pub fn push_char(s: &mut String, c: char)
    ensures
        final(s)@ == old(s)@.push(c),
{
    s.push(c);
}

/// A fresh `String` holding `s`.
pub fn owned(s: &str) -> (r: String)
    ensures
        r@ == s@,
{
    String::from_str(s)
}

/// The `String` holding characters `from..to` of `s`; `v` is `s`'s characters.
pub fn slice_of(s: &str, v: &Vec<char>, from: usize, to: usize) -> (r: String)
    requires
        v@ == s@,
        from <= to <= v@.len(),
    ensures
        r@ == s@.subrange(from as int, to as int),
{
    let piece = s.substring_char(from, to);
    String::from_str(piece)
}

/// Equality of two strings, character by character.
pub fn str_eq(a: &str, b: &str) -> (r: bool)
    ensures
        r == (a@ == b@),
{
    let va = chars_of(a);
    let vb = chars_of(b);
    chars_eq(&va, &vb)
}

pub fn chars_eq(a: &Vec<char>, b: &Vec<char>) -> (r: bool)
    ensures
        r == (a@ == b@),
{
    if a.len() != b.len() {
        return false;
    }
    let mut i: usize = 0;
    while i < a.len()
        invariant
            a@.len() == b@.len(),
            i <= a@.len(),
            forall|j: int| 0 <= j < i ==> a@[j] == b@[j],
        decreases a@.len() - i,
    {
        if a[i] != b[i] {
            return false;
        }
        i = i + 1;
    }
    assert(a@ =~= b@);
    true
}

// ───────────────────────── searching ─────────────────────────

/// `t` occurs in `s` starting at index `i`.
pub open spec fn occurs_at(s: Seq<char>, t: Seq<char>, i: int) -> bool {
    0 <= i && i + t.len() <= s.len() && s.subrange(i, i + t.len()) == t
}

/// `t` occurs somewhere in `s`.
pub open spec fn contains(s: Seq<char>, t: Seq<char>) -> bool {
    exists|i: int| occurs_at(s, t, i)
}

/// `i` is the first index at which `t` occurs in `s`.
pub open spec fn first_at(s: Seq<char>, t: Seq<char>, i: int) -> bool {
    occurs_at(s, t, i) && forall|j: int| 0 <= j < i ==> !occurs_at(s, t, j)
}

/// `i` is the last index at which `t` occurs in `s`.
pub open spec fn last_at(s: Seq<char>, t: Seq<char>, i: int) -> bool {
    occurs_at(s, t, i) && forall|j: int| i < j ==> !occurs_at(s, t, j)
}

/// Index of the first occurrence of `t` in `s`, if any.
pub open spec fn find(s: Seq<char>, t: Seq<char>) -> Option<int> {
    if contains(s, t) {
        Some(choose|i: int| first_at(s, t, i))
    } else {
        None
    }
}

/// Index of the last occurrence of `t` in `s`, if any.
pub open spec fn rfind(s: Seq<char>, t: Seq<char>) -> Option<int> {
    if contains(s, t) {
        Some(choose|i: int| last_at(s, t, i))
    } else {
        None
    }
}

pub open spec fn starts_with(s: Seq<char>, p: Seq<char>) -> bool {
    p.len() <= s.len() && s.subrange(0, p.len() as int) == p
}

pub open spec fn ends_with(s: Seq<char>, p: Seq<char>) -> bool {
    p.len() <= s.len() && s.subrange(s.len() - p.len(), s.len() as int) == p
}

pub proof fn lemma_first_unique(s: Seq<char>, t: Seq<char>, i: int)
    requires
        first_at(s, t, i),
    ensures
        find(s, t) == Some(i),
{
    let k = choose|k: int| first_at(s, t, k);
    assert(first_at(s, t, k));
    if k < i {
        assert(!occurs_at(s, t, k));
    } else if i < k {
        assert(!occurs_at(s, t, i));
    }
}

pub proof fn lemma_last_unique(s: Seq<char>, t: Seq<char>, i: int)
    requires
        last_at(s, t, i),
    ensures
        rfind(s, t) == Some(i),
{
    let k = choose|k: int| last_at(s, t, k);
    assert(last_at(s, t, k));
    if k < i {
        assert(!occurs_at(s, t, i));
    } else if i < k {
        assert(!occurs_at(s, t, k));
    }
}

/// Whether `t` occurs in `s` at index `i`.
pub fn chars_occur_at(s: &Vec<char>, t: &Vec<char>, i: usize) -> (r: bool)
    ensures
        r == occurs_at(s@, t@, i as int),
{
    if i > s.len() || t.len() > s.len() - i {
        return false;
    }
    let mut k: usize = 0;
    while k < t.len()
        invariant
            i + t@.len() <= s@.len(),
            s@.len() == s.len(),
            k <= t@.len(),
            forall|j: int| 0 <= j < k ==> s@[i + j] == t@[j],
        decreases t@.len() - k,
    {
        if s[i + k] != t[k] {
            assert(s@.subrange(i as int, i + t@.len())[k as int] != t@[k as int]);
            return false;
        }
        k = k + 1;
    }
    assert(s@.subrange(i as int, i + t@.len()) =~= t@);
    true
}

/// First index at or after `from` where `t` occurs in `s`.
pub fn chars_find_from(s: &Vec<char>, t: &Vec<char>, from: usize) -> (r: Option<usize>)
    ensures
        match r {
            Some(i) => from <= i && occurs_at(s@, t@, i as int) && forall|j: int|
                from <= j < i ==> !occurs_at(s@, t@, j),
            None => forall|j: int| from <= j ==> !occurs_at(s@, t@, j),
        },
{
    if from > s.len() {
        return None;
    }
    let mut i = from;
    while i < s.len()
        invariant
            from <= i <= s@.len(),
            forall|j: int| from <= j < i ==> !occurs_at(s@, t@, j),
        decreases s@.len() - i,
    {
        if chars_occur_at(s, t, i) {
            return Some(i);
        }
        i = i + 1;
    }
    if chars_occur_at(s, t, i) {
        return Some(i);
    }
    assert forall|j: int| from <= j implies !occurs_at(s@, t@, j) by {
        if j > i {
            assert(j > s@.len());
        }
    }
    None
}

/// First occurrence of `t` in `s`.
pub fn chars_find(s: &Vec<char>, t: &Vec<char>) -> (r: Option<usize>)
    ensures
        r matches Some(i) ==> find(s@, t@) == Some(i as int) && first_at(s@, t@, i as int),
        r is None ==> find(s@, t@) is None,
{
    let r = chars_find_from(s, t, 0);
    proof {
        if let Some(i) = r {
            assert(first_at(s@, t@, i as int));
            lemma_first_unique(s@, t@, i as int);
        } else {
            assert(!contains(s@, t@));
        }
    }
    r
}

/// Last occurrence of `t` in `s`.
pub fn chars_rfind(s: &Vec<char>, t: &Vec<char>) -> (r: Option<usize>)
    ensures
        r matches Some(i) ==> rfind(s@, t@) == Some(i as int) && last_at(s@, t@, i as int),
        r is None ==> rfind(s@, t@) is None,
{
    if t.len() > s.len() {
        assert forall|j: int| !occurs_at(s@, t@, j) by {}
        return None;
    }
    let mut i: usize = s.len() - t.len();
    loop
        invariant
            t@.len() <= s@.len(),
            i <= s@.len() - t@.len(),
            forall|j: int| i < j ==> !occurs_at(s@, t@, j),
        decreases i,
    {
        if chars_occur_at(s, t, i) {
            proof {
                assert(last_at(s@, t@, i as int));
                lemma_last_unique(s@, t@, i as int);
            }
            return Some(i);
        }
        if i == 0 {
            assert(!contains(s@, t@));
            return None;
        }
        i = i - 1;
    }
}

/// Whether `t` occurs in `s`.
pub fn chars_contains(s: &Vec<char>, t: &Vec<char>) -> (r: bool)
    ensures
        r == contains(s@, t@),
{
    let f = chars_find_from(s, t, 0);
    f.is_some()
}

/// Whether `pat` occurs in `s`.
pub fn str_contains(s: &str, pat: &str) -> (r: bool)
    ensures
        r == contains(s@, pat@),
{
    let vs = chars_of(s);
    let vp = chars_of(pat);
    chars_contains(&vs, &vp)
}

pub fn chars_starts_with(s: &Vec<char>, p: &Vec<char>) -> (r: bool)
    ensures
        r == starts_with(s@, p@),
{
    let r = chars_occur_at(s, p, 0);
    proof {
        if p@.len() <= s@.len() {
            assert(s@.subrange(0, p@.len() as int) == s@.subrange(0, 0 + p@.len() as int));
        }
    }
    r
}

pub fn chars_ends_with(s: &Vec<char>, p: &Vec<char>) -> (r: bool)
    ensures
        r == ends_with(s@, p@),
{
    if p.len() > s.len() {
        return false;
    }
    let r = chars_occur_at(s, p, s.len() - p.len());
    proof {
        assert(s@.len() - p@.len() + p@.len() == s@.len());
    }
    r
}

pub fn str_starts_with(s: &str, p: &str) -> (r: bool)
    ensures
        r == starts_with(s@, p@),
{
    let vs = chars_of(s);
    let vp = chars_of(p);
    chars_starts_with(&vs, &vp)
}

pub fn str_ends_with(s: &str, p: &str) -> (r: bool)
    ensures
        r == ends_with(s@, p@),
{
    let vs = chars_of(s);
    let vp = chars_of(p);
    chars_ends_with(&vs, &vp)
}

// ───────────────────────── trimming ─────────────────────────

/// `k` is the number of leading whitespace characters of `s`.
pub open spec fn is_lead_ws(s: Seq<char>, k: int) -> bool {
    &&& 0 <= k <= s.len()
    &&& forall|j: int| 0 <= j < k ==> is_ws(#[trigger] s[j])
    &&& k < s.len() ==> !is_ws(s[k])
}

/// `k` is the length of `s` without its trailing whitespace.
pub open spec fn is_trail_ws(s: Seq<char>, k: int) -> bool {
    &&& 0 <= k <= s.len()
    &&& forall|j: int| k <= j < s.len() ==> is_ws(#[trigger] s[j])
    &&& k > 0 ==> !is_ws(s[k - 1])
}

pub open spec fn lead_ws(s: Seq<char>) -> int {
    choose|k: int| is_lead_ws(s, k)
}

pub open spec fn trail_end(s: Seq<char>) -> int {
    choose|k: int| is_trail_ws(s, k)
}

/// `s` without leading whitespace (`str::trim_start`).
pub open spec fn trim_start(s: Seq<char>) -> Seq<char> {
    s.subrange(lead_ws(s), s.len() as int)
}

/// `s` without trailing whitespace (`str::trim_end`).
pub open spec fn trim_end(s: Seq<char>) -> Seq<char> {
    s.subrange(0, trail_end(s))
}

/// `s` without leading and trailing whitespace (`str::trim`).
pub open spec fn trim(s: Seq<char>) -> Seq<char> {
    trim_end(trim_start(s))
}

pub proof fn lemma_lead_unique(s: Seq<char>, k: int)
    requires
        is_lead_ws(s, k),
    ensures
        lead_ws(s) == k,
{
    let m = choose|m: int| is_lead_ws(s, m);
    assert(is_lead_ws(s, m));
    if m < k {
        assert(is_ws(s[m]));
    } else if k < m {
        assert(is_ws(s[k]));
    }
}

pub proof fn lemma_trail_unique(s: Seq<char>, k: int)
    requires
        is_trail_ws(s, k),
    ensures
        trail_end(s) == k,
{
    let m = choose|m: int| is_trail_ws(s, m);
    assert(is_trail_ws(s, m));
    if m < k {
        assert(is_ws(s[k - 1]));
    } else if k < m {
        assert(is_ws(s[m - 1]));
    }
}

/// Index of the first non-whitespace character of `v` at or after `from`,
/// before `to`.
pub fn skip_ws_forward(v: &Vec<char>, from: usize, to: usize) -> (r: usize)
    requires
        from <= to <= v@.len(),
    ensures
        from <= r <= to,
        forall|j: int| from <= j < r ==> is_ws(#[trigger] v@[j]),
        r < to ==> !is_ws(v@[r as int]),
{
    let mut i = from;
    while i < to && char_is_ws(v[i])
        invariant
            from <= i <= to,
            to <= v@.len(),
            forall|j: int| from <= j < i ==> is_ws(#[trigger] v@[j]),
        decreases to - i,
    {
        i = i + 1;
    }
    i
}

/// End index after dropping the whitespace that precedes `to`, not below `from`.
pub fn skip_ws_backward(v: &Vec<char>, from: usize, to: usize) -> (r: usize)
    requires
        from <= to <= v@.len(),
    ensures
        from <= r <= to,
        forall|j: int| r <= j < to ==> is_ws(#[trigger] v@[j]),
        r > from ==> !is_ws(v@[r - 1]),
{
    let mut i = to;
    while i > from && char_is_ws(v[i - 1])
        invariant
            from <= i <= to,
            to <= v@.len(),
            forall|j: int| i <= j < to ==> is_ws(#[trigger] v@[j]),
        decreases i,
    {
        i = i - 1;
    }
    i
}

/// Bounds `(a, b)` such that `s@.subrange(a, b) == trim(s@)`.
pub fn trim_bounds(v: &Vec<char>) -> (r: (usize, usize))
    ensures
        r.0 <= r.1 <= v@.len(),
        v@.subrange(r.0 as int, r.1 as int) == trim(v@),
        r.0 as int == lead_ws(v@),
{
    let a = skip_ws_forward(v, 0, v.len());
    let b = skip_ws_backward(v, a, v.len());
    proof {
        assert(is_lead_ws(v@, a as int));
        lemma_lead_unique(v@, a as int);
        let t = v@.subrange(a as int, v@.len() as int);
        assert(is_trail_ws(t, b - a)) by {
            assert forall|j: int| b - a <= j < t.len() implies is_ws(#[trigger] t[j]) by {
                assert(t[j] == v@[a + j]);
            }
            if b - a > 0 {
                assert(t[b - a - 1] == v@[b - 1]);
            }
        }
        lemma_trail_unique(t, b - a);
        assert(v@.subrange(a as int, b as int) =~= t.subrange(0, b - a));
    }
    (a, b)
}

/// `str::trim`, as an owned string.
pub fn str_trim(s: &str) -> (r: String)
    ensures
        r@ == trim(s@),
{
    let v = chars_of(s);
    let (a, b) = trim_bounds(&v);
    slice_of(s, &v, a, b)
}

/// `str::trim_end`, as an owned string.
pub fn str_trim_end(s: &str) -> (r: String)
    ensures
        r@ == trim_end(s@),
{
    let v = chars_of(s);
    let b = skip_ws_backward(&v, 0, v.len());
    proof {
        assert(is_trail_ws(v@, b as int));
        lemma_trail_unique(v@, b as int);
    }
    slice_of(s, &v, 0, b)
}

// ───────────────────────── numbers ─────────────────────────

pub open spec fn digit_char(d: nat) -> char {
    if d == 0 {
        '0'
    } else if d == 1 {
        '1'
    } else if d == 2 {
        '2'
    } else if d == 3 {
        '3'
    } else if d == 4 {
        '4'
    } else if d == 5 {
        '5'
    } else if d == 6 {
        '6'
    } else if d == 7 {
        '7'
    } else if d == 8 {
        '8'
    } else {
        '9'
    }
}

/// Decimal digits of `n`, most significant first, as `{}` prints them.
pub open spec fn dec_nat(n: nat) -> Seq<char>
    decreases n,
{
    if n < 10 {
        seq![digit_char(n)]
    } else {
        dec_nat(n / 10).push(digit_char(n % 10))
    }
}

/// Decimal text of `i`, with a leading `-` when negative, as `{}` prints it.
pub open spec fn dec_int(i: int) -> Seq<char> {
    if i < 0 {
        seq!['-'] + dec_nat((-i) as nat)
    } else {
        dec_nat(i as nat)
    }
}

fn digit(d: u64) -> (c: char)
    requires
        d < 10,
    ensures
        c == digit_char(d as nat),
{
    if d == 0 {
        '0'
    } else if d == 1 {
        '1'
    } else if d == 2 {
        '2'
    } else if d == 3 {
        '3'
    } else if d == 4 {
        '4'
    } else if d == 5 {
        '5'
    } else if d == 6 {
        '6'
    } else if d == 7 {
        '7'
    } else if d == 8 {
        '8'
    } else {
        '9'
    }
}

fn push_digits(s: &mut String, n: u64)
    ensures
        final(s)@ == old(s)@ + dec_nat(n as nat),
    decreases n,
{
    if n >= 10 {
        push_digits(s, n / 10);
    }
    push_char(s, digit(n % 10));
    proof {
        if n >= 10 {
            assert(final(s)@ =~= old(s)@ + dec_nat(n as nat));
        } else {
            assert(final(s)@ =~= old(s)@ + dec_nat(n as nat));
        }
    }
}

/// Appends the decimal text of `n` to `s`.
pub fn push_u64(s: &mut String, n: u64)
    ensures
        final(s)@ == old(s)@ + dec_nat(n as nat),
{
    push_digits(s, n);
}

/// Appends the decimal text of `n` to `s`.
pub fn push_i64(s: &mut String, n: i64)
    ensures
        final(s)@ == old(s)@ + dec_int(n as int),
{
    if n < 0 {
        push_char(s, '-');
        let m: u64 = if n == i64::MIN {
            9223372036854775808u64
        } else {
            (-n) as u64
        };
        push_digits(s, m);
        assert(final(s)@ =~= old(s)@ + dec_int(n as int));
    } else {
        push_digits(s, n as u64);
    }
}

// ───────────────────────── joining ─────────────────────────

/// The views of a sequence of strings.
pub open spec fn views(v: Seq<String>) -> Seq<Seq<char>> {
    v.map_values(|s: String| s@)
}

/// `items` joined with `sep` between consecutive items (`[T]::join`).
pub open spec fn join(items: Seq<Seq<char>>, sep: Seq<char>) -> Seq<char>
    decreases items.len(),
{
    if items.len() == 0 {
        Seq::empty()
    } else if items.len() == 1 {
        items[0]
    } else {
        join(items.drop_last(), sep) + sep + items.last()
    }
}

/// Joins `items` with `sep` in between.
pub fn join_strings(items: &Vec<String>, sep: &str) -> (r: String)
    ensures
        r@ == join(views(items@), sep@),
{
    let mut r = String::new();
    let mut i: usize = 0;
    while i < items.len()
        invariant
            i <= items@.len(),
            r@ == join(views(items@).take(i as int), sep@),
        decreases items@.len() - i,
    {
        proof {
            let w = views(items@).take(i + 1);
            assert(w.drop_last() =~= views(items@).take(i as int));
        }
        if i > 0 {
            r.append(sep);
        }
        r.append(items[i].as_str());
        i = i + 1;
        proof {
            let w = views(items@).take(i as int);
            if i == 1 {
                assert(r@ =~= join(w, sep@));
            }
        }
    }
    assert(views(items@).take(items@.len() as int) =~= views(items@));
    r
}

/// Appends `b` to `a`.
pub fn cat(a: &mut String, b: &str)
    ensures
        final(a)@ == old(a)@ + b@,
{
    a.append(b);
}

} // verus!
