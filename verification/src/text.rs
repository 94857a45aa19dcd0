//! Character-sequence models of the string operations the library relies on
//! (`lines`, `trim`, `starts_with`, `contains`, `find`, decimal and hex
//! rendering), with executable versions proved against them.
use vstd::prelude::*;

verus! {

broadcast use vstd::string::group_string_axioms;

// ---------------------------------------------------------------------------
// Specifications
// ---------------------------------------------------------------------------

/// Unicode `White_Space`, the property `char::is_whitespace` tests.
pub open spec fn is_ws(c: char) -> bool {
    ||| ('\u{9}' <= c && c <= '\u{d}')
    ||| c == ' '
    ||| c == '\u{85}'
    ||| c == '\u{a0}'
    ||| c == '\u{1680}'
    ||| ('\u{2000}' <= c && c <= '\u{200a}')
    ||| c == '\u{2028}'
    ||| c == '\u{2029}'
    ||| c == '\u{202f}'
    ||| c == '\u{205f}'
    ||| c == '\u{3000}'
}

/// Number of whitespace characters at the front of `s`.
pub open spec fn lead_ws(s: Seq<char>) -> nat
    decreases s.len(),
{
    if s.len() > 0 && is_ws(s[0]) {
        1 + lead_ws(s.drop_first())
    } else {
        0
    }
}

/// Number of whitespace characters at the back of `s`.
pub open spec fn trail_ws(s: Seq<char>) -> nat
    decreases s.len(),
{
    if s.len() > 0 && is_ws(s.last()) {
        1 + trail_ws(s.drop_last())
    } else {
        0
    }
}

/// `str::trim`: `s` without leading and trailing whitespace.
pub open spec fn trim(s: Seq<char>) -> Seq<char> {
    let t = s.skip(lead_ws(s) as int);
    t.take(t.len() - trail_ws(t))
}

/// `str::starts_with` for a character-sequence pattern.
pub open spec fn starts_with(s: Seq<char>, p: Seq<char>) -> bool {
    p.len() <= s.len() && s.take(p.len() as int) == p
}

/// Whether `n` occurs in `h` at position `i`.
pub open spec fn occurs_at(h: Seq<char>, n: Seq<char>, i: int) -> bool {
    0 <= i && i + n.len() <= h.len() && h.subrange(i, i + n.len()) == n
}

/// The first position at or after `i` where `n` occurs in `h`.
pub open spec fn find_from(h: Seq<char>, n: Seq<char>, i: int) -> Option<int>
    decreases h.len() - i,
{
    if i < 0 || i + n.len() > h.len() {
        None
    } else if occurs_at(h, n, i) {
        Some(i)
    } else if i >= h.len() {
        None
    } else {
        find_from(h, n, i + 1)
    }
}

/// `str::find`: the first position where `n` occurs in `h`.
pub open spec fn find(h: Seq<char>, n: Seq<char>) -> Option<int> {
    find_from(h, n, 0)
}

/// `str::contains` for a character-sequence pattern.
pub open spec fn contains(h: Seq<char>, n: Seq<char>) -> bool {
    find(h, n) is Some
}

/// A line without the `'\r'` that precedes its `'\n'` terminator.
pub open spec fn strip_cr(l: Seq<char>) -> Seq<char> {
    if l.len() > 0 && l.last() == '\r' {
        l.drop_last()
    } else {
        l
    }
}

/// Reading `s` from the left: the lines closed by a `'\n'` so far, and the
/// characters of the line still open.
pub open spec fn scan_lines(s: Seq<char>) -> (Seq<Seq<char>>, Seq<char>)
    decreases s.len(),
{
    if s.len() == 0 {
        (Seq::empty(), Seq::empty())
    } else {
        let (done, cur) = scan_lines(s.drop_last());
        if s.last() == '\n' {
            (done.push(strip_cr(cur)), Seq::empty())
        } else {
            (done, cur.push(s.last()))
        }
    }
}

/// `str::lines`: lines end at `"\n"` or `"\r\n"`, and a final line ending is
/// optional.
pub open spec fn lines(s: Seq<char>) -> Seq<Seq<char>> {
    let (done, cur) = scan_lines(s);
    if cur.len() > 0 {
        done.push(cur)
    } else {
        done
    }
}

/// The character sequences held by a sequence of character vectors.
pub open spec fn line_views(v: Seq<Vec<char>>) -> Seq<Seq<char>> {
    v.map_values(|l: Vec<char>| l@)
}

/// The ASCII digit for `d < 10`.
pub open spec fn digit_char(d: nat) -> char {
    (48 + d) as char
}

/// Decimal rendering of a natural number, as `Display` prints integers.
pub open spec fn decimal(n: nat) -> Seq<char>
    decreases n,
{
    if n < 10 {
        seq![digit_char(n)]
    } else {
        decimal(n / 10).push(digit_char(n % 10))
    }
}

/// Decimal rendering of an integer, with a leading `'-'` when negative.
pub open spec fn signed_decimal(i: int) -> Seq<char> {
    if i < 0 {
        seq!['-'] + decimal((-i) as nat)
    } else {
        decimal(i as nat)
    }
}

/// The lower-case hexadecimal digit for `d < 16`.
pub open spec fn hex_digit(d: nat) -> char {
    if d < 10 {
        (48 + d) as char
    } else {
        (87 + d) as char
    }
}

/// Lower-case hexadecimal rendering of bytes, two digits per byte, high nibble first.
pub open spec fn hex_lower(b: Seq<u8>) -> Seq<char>
    decreases b.len(),
{
    if b.len() == 0 {
        Seq::empty()
    } else {
        seq![hex_digit((b[0] / 16) as nat), hex_digit((b[0] % 16) as nat)] + hex_lower(
            b.drop_first(),
        )
    }
}

/// Whether `c` is a hexadecimal digit of either case.
pub open spec fn is_hex_char(c: char) -> bool {
    ('0' <= c && c <= '9') || ('a' <= c && c <= 'f') || ('A' <= c && c <= 'F')
}

/// The value of a hexadecimal digit.
pub open spec fn hex_value(c: char) -> nat {
    if '0' <= c && c <= '9' {
        (c as nat - 48) as nat
    } else if 'a' <= c && c <= 'f' {
        (c as nat - 87) as nat
    } else {
        (c as nat - 55) as nat
    }
}

/// Whether `s` is a hexadecimal text: an even number of hexadecimal digits.
pub open spec fn is_hex_text(s: Seq<char>) -> bool {
    s.len() % 2 == 0 && forall|i: int| 0 <= i < s.len() ==> is_hex_char(#[trigger] s[i])
}

/// The bytes a hexadecimal text stands for, two digits per byte, high nibble first.
pub open spec fn hex_bytes(s: Seq<char>) -> Seq<u8> {
    Seq::new(
        s.len() / 2,
        |i: int| (hex_value(s[2 * i]) * 16 + hex_value(s[2 * i + 1])) as u8,
    )
}

// ---------------------------------------------------------------------------
// Lemmas
// ---------------------------------------------------------------------------

/// Rendering `n` bytes in hex takes `2 * n` characters.
pub proof fn lemma_hex_lower_len(b: Seq<u8>)
    ensures
        hex_lower(b).len() == 2 * b.len(),
    decreases b.len(),
{
    if b.len() > 0 {
        lemma_hex_lower_len(b.drop_first());
    }
}

/// A position `find_from` reports is an occurrence at or after `i`.
pub proof fn lemma_find_from_some(h: Seq<char>, n: Seq<char>, i: int)
    requires
        find_from(h, n, i) is Some,
    ensures
        occurs_at(h, n, find_from(h, n, i)->0),
        find_from(h, n, i)->0 >= i,
    decreases h.len() - i,
{
    if !(i < 0 || i + n.len() > h.len()) && !occurs_at(h, n, i) && i < h.len() {
        lemma_find_from_some(h, n, i + 1);
    }
}

/// When `find_from` reports nothing, `n` occurs nowhere at or after `i`.
pub proof fn lemma_find_from_none(h: Seq<char>, n: Seq<char>, i: int, j: int)
    requires
        0 <= i <= j,
        find_from(h, n, i) is None,
    ensures
        !occurs_at(h, n, j),
    decreases h.len() - i,
{
    if i + n.len() <= h.len() && i < j {
        if i < h.len() {
            lemma_find_from_none(h, n, i + 1, j);
        }
    }
}

/// `contains` holds exactly when there is an occurrence.
pub proof fn lemma_contains_occurs(h: Seq<char>, n: Seq<char>, j: int)
    ensures
        occurs_at(h, n, j) ==> contains(h, n),
        contains(h, n) ==> occurs_at(h, n, find(h, n)->0),
{
    if occurs_at(h, n, j) && !contains(h, n) {
        lemma_find_from_none(h, n, 0, j);
    }
    if contains(h, n) {
        lemma_find_from_some(h, n, 0);
    }
}

/// What a suffix contains, the whole contains.
pub proof fn lemma_contains_suffix(h: Seq<char>, k: int, n: Seq<char>)
    requires
        0 <= k <= h.len(),
        contains(h.skip(k), n),
    ensures
        contains(h, n),
{
    let t = h.skip(k);
    lemma_contains_occurs(t, n, 0);
    let j = find(t, n)->0;
    assert(h.subrange(k + j, k + j + n.len()) =~= t.subrange(j, j + n.len()));
    lemma_contains_occurs(h, n, k + j);
}

proof fn lemma_lead_ws_bound(s: Seq<char>)
    ensures
        lead_ws(s) <= s.len(),
    decreases s.len(),
{
    if s.len() > 0 && is_ws(s[0]) {
        lemma_lead_ws_bound(s.drop_first());
    }
}

proof fn lemma_trail_ws_bound(s: Seq<char>)
    ensures
        trail_ws(s) <= s.len(),
    decreases s.len(),
{
    if s.len() > 0 && is_ws(s.last()) {
        lemma_trail_ws_bound(s.drop_last());
    }
}

// ---------------------------------------------------------------------------
// Executable operations
// ---------------------------------------------------------------------------

/// `String::push`: appends one character.
pub assume_specification[ String::push ](s: &mut String, ch: char)
    ensures
        final(s)@ == old(s)@.push(ch),
;

/// The characters of a string slice, as a vector.
pub fn str_chars(s: &str) -> (v: Vec<char>)
    ensures
        v@ == s@,
{
    let mut v: Vec<char> = Vec::new();
    for c in it: s.chars()
        invariant
            it.seq() == s@,
            v@ == it.seq().take(it.index() as int),
    {
        v.push(c);
    }
    v
}

/// A string holding the given characters.
pub fn chars_to_string(v: &Vec<char>) -> (s: String)
    ensures
        s@ == v@,
{
    let mut s = String::new();
    let mut i: usize = 0;
    while i < v.len()
        invariant
            i <= v.len(),
            s@ == v@.take(i as int),
        decreases v.len() - i,
    {
        s.push(v[i]);
        i = i + 1;
        assert(v@.take(i as int) == v@.take((i - 1) as int).push(v@[i - 1]));
    }
    assert(v@.take(v.len() as int) == v@);
    s
}

/// Appends the characters of `t` to `v`.
pub fn push_chars(v: &mut Vec<char>, t: &Vec<char>)
    ensures
        final(v)@ == old(v)@ + t@,
{
    let mut i: usize = 0;
    while i < t.len()
        invariant
            i <= t.len(),
            v@ == old(v)@ + t@.take(i as int),
        decreases t.len() - i,
    {
        v.push(t[i]);
        i = i + 1;
        assert(t@.take(i as int) == t@.take((i - 1) as int).push(t@[i - 1]));
    }
    assert(t@.take(t.len() as int) == t@);
}

/// Appends the characters of the string slice `t` to `v`.
pub fn push_str(v: &mut Vec<char>, t: &str)
    ensures
        final(v)@ == old(v)@ + t@,
{
    let tc = str_chars(t);
    push_chars(v, &tc);
}

/// Whether `n` occurs in `h` at position `i`.
pub fn occurs_at_exec(h: &Vec<char>, n: &Vec<char>, i: usize) -> (r: bool)
    ensures
        r == occurs_at(h@, n@, i as int),
{
    if i > h.len() || n.len() > h.len() - i {
        return false;
    }
    let mut k: usize = 0;
    while k < n.len()
        invariant
            i + n.len() <= h.len(),
            k <= n.len(),
            forall|j: int| 0 <= j < k ==> h@[i + j] == n@[j],
        decreases n.len() - k,
    {
        if h[i + k] != n[k] {
            assert(h@.subrange(i as int, i + n.len())[k as int] != n@[k as int]);
            return false;
        }
        k = k + 1;
    }
    assert(h@.subrange(i as int, i + n.len()) =~= n@);
    true
}

/// `str::find`: the first position where `n` occurs in `h`.
pub fn find_exec(h: &Vec<char>, n: &Vec<char>) -> (r: Option<usize>)
    ensures
        r matches Some(i) ==> find(h@, n@) == Some(i as int) && occurs_at(h@, n@, i as int),
        r is None ==> find(h@, n@) is None,
{
    if n.len() > h.len() {
        return None;
    }
    let last = h.len() - n.len();
    let mut i: usize = 0;
    loop
        invariant
            last == h.len() - n.len(),
            i <= last,
            find(h@, n@) == find_from(h@, n@, i as int),
        decreases last - i,
    {
        if occurs_at_exec(h, n, i) {
            return Some(i);
        }
        if i == last {
            assert(find_from(h@, n@, i + 1) is None);
            return None;
        }
        i = i + 1;
    }
}

/// `str::find` with a string-slice pattern.
pub fn find_str(h: &Vec<char>, n: &str) -> (r: Option<usize>)
    ensures
        r matches Some(i) ==> find(h@, n@) == Some(i as int) && occurs_at(h@, n@, i as int),
        r is None ==> find(h@, n@) is None,
{
    let nc = str_chars(n);
    find_exec(h, &nc)
}

/// `str::contains` with a string-slice pattern.
pub fn contains_str(h: &Vec<char>, n: &str) -> (r: bool)
    ensures
        r == contains(h@, n@),
{
    find_str(h, n).is_some()
}

/// `str::starts_with` with a string-slice pattern.
pub fn starts_with_str(s: &Vec<char>, p: &str) -> (r: bool)
    ensures
        r == starts_with(s@, p@),
{
    let pc = str_chars(p);
    let b = occurs_at_exec(s, &pc, 0);
    assert(b == starts_with(s@, p@)) by {
        if pc.len() <= s.len() {
            assert(s@.subrange(0, pc.len() as int) == s@.take(pc.len() as int));
        }
    }
    b
}

/// `char::is_whitespace`.
pub fn is_ws_exec(c: char) -> (r: bool)
    ensures
        r == is_ws(c),
{
    ('\u{9}' <= c && c <= '\u{d}') || c == ' ' || c == '\u{85}' || c == '\u{a0}' || c
        == '\u{1680}' || ('\u{2000}' <= c && c <= '\u{200a}') || c == '\u{2028}' || c
        == '\u{2029}' || c == '\u{202f}' || c == '\u{205f}' || c == '\u{3000}'
}

/// The characters of `s` from `a` up to `b`.
pub fn slice_chars(s: &Vec<char>, a: usize, b: usize) -> (r: Vec<char>)
    requires
        a <= b <= s.len(),
    ensures
        r@ == s@.subrange(a as int, b as int),
{
    let mut r: Vec<char> = Vec::new();
    let mut i = a;
    while i < b
        invariant
            a <= i <= b <= s.len(),
            r@ == s@.subrange(a as int, i as int),
        decreases b - i,
    {
        r.push(s[i]);
        i = i + 1;
        assert(s@.subrange(a as int, i as int) == s@.subrange(a as int, (i - 1) as int).push(
            s@[i - 1],
        ));
    }
    r
}

/// `str::trim`.
pub fn trim_exec(s: &Vec<char>) -> (r: Vec<char>)
    ensures
        r@ == trim(s@),
{
    let mut i: usize = 0;
    assert(s@.skip(0) == s@);
    while i < s.len() && is_ws_exec(s[i])
        invariant
            i <= s.len(),
            lead_ws(s@) == i + lead_ws(s@.skip(i as int)),
        decreases s.len() - i,
    {
        assert(s@.skip(i as int).drop_first() == s@.skip(i + 1));
        i = i + 1;
    }
    assert(lead_ws(s@.skip(i as int)) == 0) by {
        if i < s.len() {
            assert(s@.skip(i as int)[0] == s@[i as int]);
        }
    }
    let ghost t = s@.skip(i as int);
    let mut j: usize = s.len();
    assert(t.take(j - i) == t);
    while j > i && is_ws_exec(s[j - 1])
        invariant
            i <= j <= s.len(),
            t == s@.skip(i as int),
            trail_ws(t) == (s.len() - j) + trail_ws(t.take(j - i)),
        decreases j - i,
    {
        assert(t.take(j - i).drop_last() == t.take(j - 1 - i));
        assert(t.take(j - i).last() == s@[j - 1]);
        j = j - 1;
    }
    assert(trail_ws(t.take(j - i)) == 0) by {
        if j > i {
            assert(t.take(j - i).last() == s@[j - 1]);
        }
    }
    assert(t.take(t.len() - trail_ws(t)) =~= s@.subrange(i as int, j as int));
    slice_chars(s, i, j)
}

/// `str::lines`, collected.
pub fn lines_exec(s: &Vec<char>) -> (r: Vec<Vec<char>>)
    ensures
        line_views(r@) == lines(s@),
{
    let mut done: Vec<Vec<char>> = Vec::new();
    let mut cur: Vec<char> = Vec::new();
    let mut i: usize = 0;
    while i < s.len()
        invariant
            i <= s.len(),
            (line_views(done@), cur@) == scan_lines(s@.take(i as int)),
        decreases s.len() - i,
    {
        let c = s[i];
        assert(s@.take(i + 1).drop_last() == s@.take(i as int));
        if c == '\n' {
            let n = cur.len();
            let line = if n > 0 && cur[n - 1] == '\r' {
                let l = slice_chars(&cur, 0, n - 1);
                assert(l@ == cur@.drop_last());
                l
            } else {
                let l = slice_chars(&cur, 0, n);
                assert(l@ == cur@);
                l
            };
            let ghost before = line_views(done@);
            done.push(line);
            cur = Vec::new();
            assert(line_views(done@) =~= before.push(line@));
        } else {
            cur.push(c);
        }
        i = i + 1;
    }
    assert(s@.take(s.len() as int) == s@);
    if cur.len() > 0 {
        let ghost before = line_views(done@);
        let ghost last = cur@;
        done.push(cur);
        assert(line_views(done@) =~= before.push(last));
    }
    done
}

/// Decimal rendering of an unsigned number.
pub fn decimal_exec(n: u64) -> (r: Vec<char>)
    ensures
        r@ == decimal(n as nat),
    decreases n,
{
    let d = (n % 10) as u8;
    let c = (48u8 + d) as char;
    if n < 10 {
        vec![c]
    } else {
        let mut v = decimal_exec(n / 10);
        v.push(c);
        v
    }
}

/// Decimal rendering of a signed number.
pub fn signed_decimal_exec(i: i64) -> (r: Vec<char>)
    ensures
        r@ == signed_decimal(i as int),
{
    if i < 0 {
        let m: u64 = if i == i64::MIN {
            9223372036854775808u64
        } else {
            (-i) as u64
        };
        let mut v = vec!['-'];
        let d = decimal_exec(m);
        push_chars(&mut v, &d);
        v
    } else {
        decimal_exec(i as u64)
    }
}

} // verus!
