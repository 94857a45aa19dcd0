//! The request framing of the dashboard's HTTP/1.1 server: where a request
//! head ends, what its request line and `Content-Length` say, where the
//! request is routed, and how a response is framed.
//!
//! Reading from and writing to the socket is the caller's part.
use crate::text::{
    chars_to_string, decimal, decimal_exec, find, find_str, is_ws, is_ws_exec, line_views, lines,
    lines_exec, push_chars, push_str, slice_chars, str_chars, trim, trim_exec,
};
use crate::primitives::{utf8_lossy, utf8_lossy_text};
use vstd::prelude::*;
use vstd::utf8::encode_utf8;

verus! {

broadcast use vstd::string::group_string_axioms;

// ---------------------------------------------------------------------------
// The head terminator
// ---------------------------------------------------------------------------

/// Whether the blank line `"\r\n\r\n"` that ends a request head starts at `i`.
pub open spec fn terminator_at(buf: Seq<u8>, i: int) -> bool {
    &&& 0 <= i
    &&& i + 4 <= buf.len()
    &&& buf[i] == 13
    &&& buf[i + 1] == 10
    &&& buf[i + 2] == 13
    &&& buf[i + 3] == 10
}

/// The position of the first `"\r\n\r\n"` in the bytes read so far: the
/// head is what precedes it, and the body starts 4 bytes after it.
pub fn header_end(buf: &[u8]) -> (r: Option<usize>)
    ensures
        r matches Some(p) ==> terminator_at(buf@, p as int) && forall|j: int|
            0 <= j < p ==> !terminator_at(buf@, j),
        r is None ==> forall|j: int| !terminator_at(buf@, j),
{
    let n = buf.len();
    if n < 4 {
        return None;
    }
    let last = n - 4;
    let mut i: usize = 0;
    while i <= last
        invariant
            n == buf@.len(),
            last + 4 == n,
            forall|j: int| 0 <= j < i ==> !terminator_at(buf@, j),
        decreases n - i,
    {
        if buf[i] == 13 && buf[i + 1] == 10 && buf[i + 2] == 13 && buf[i + 3] == 10 {
            return Some(i);
        }
        i = i + 1;
    }
    None
}

// ---------------------------------------------------------------------------
// Words
// ---------------------------------------------------------------------------

/// Reading `s` from the left: the whitespace-separated words closed so far,
/// and the characters of the word still open.
pub open spec fn scan_words(s: Seq<char>) -> (Seq<Seq<char>>, Seq<char>)
    decreases s.len(),
{
    if s.len() == 0 {
        (Seq::empty(), Seq::empty())
    } else {
        let (done, cur) = scan_words(s.drop_last());
        if is_ws(s.last()) {
            if cur.len() > 0 {
                (done.push(cur), Seq::empty())
            } else {
                (done, Seq::empty())
            }
        } else {
            (done, cur.push(s.last()))
        }
    }
}

/// `str::split_whitespace`: the maximal runs of non-whitespace characters.
pub open spec fn words(s: Seq<char>) -> Seq<Seq<char>> {
    let (done, cur) = scan_words(s);
    if cur.len() > 0 {
        done.push(cur)
    } else {
        done
    }
}

/// `str::split_whitespace`, collected.
fn words_exec(s: &Vec<char>) -> (r: Vec<Vec<char>>)
    ensures
        line_views(r@) == words(s@),
{
    let mut done: Vec<Vec<char>> = Vec::new();
    let mut cur: Vec<char> = Vec::new();
    let mut i: usize = 0;
    while i < s.len()
        invariant
            i <= s.len(),
            (line_views(done@), cur@) == scan_words(s@.take(i as int)),
        decreases s.len() - i,
    {
        let c = s[i];
        assert(s@.take(i + 1).drop_last() == s@.take(i as int));
        if is_ws_exec(c) {
            if cur.len() > 0 {
                let ghost before = line_views(done@);
                let ghost w = cur@;
                done.push(cur);
                assert(line_views(done@) =~= before.push(w));
            }
            cur = Vec::new();
        } else {
            cur.push(c);
        }
        i = i + 1;
    }
    assert(s@.take(s.len() as int) == s@);
    if cur.len() > 0 {
        let ghost before = line_views(done@);
        let ghost w = cur@;
        done.push(cur);
        assert(line_views(done@) =~= before.push(w));
    }
    done
}

// ---------------------------------------------------------------------------
// The request head
// ---------------------------------------------------------------------------

/// The request line: the first line of the head, empty when there is none.
pub open spec fn request_line(head: Seq<char>) -> Seq<char> {
    if lines(head).len() > 0 {
        lines(head)[0]
    } else {
        Seq::empty()
    }
}

/// `c` is `t` or, `t` being a lower-case ASCII letter, its upper-case form.
pub open spec fn ascii_ci_eq(c: char, t: char) -> bool {
    c == t || ('A' <= c && c <= 'Z' && (c as int) + 32 == t as int)
}

/// Whether a header line starts with `content-length:` in any ASCII letter
/// case. (This is what lower-casing the line and testing the prefix gives:
/// no other character lower-cases into the letters of this name.)
pub open spec fn is_content_length_line(l: Seq<char>) -> bool {
    let name = "content-length:"@;
    &&& name.len() <= l.len()
    &&& forall|i: int| 0 <= i < name.len() ==> ascii_ci_eq(#[trigger] l[i], name[i])
}

/// The first line from position `i` on that is a `Content-Length` header.
pub open spec fn first_content_length_line(ls: Seq<Seq<char>>, i: int) -> Option<Seq<char>>
    decreases ls.len() - i,
{
    if i < 0 || i >= ls.len() {
        None
    } else if is_content_length_line(ls[i]) {
        Some(ls[i])
    } else {
        first_content_length_line(ls, i + 1)
    }
}

/// The second `:`-separated field of a header line (`split(':').nth(1)`).
pub open spec fn header_value(l: Seq<char>) -> Option<Seq<char>> {
    match find(l, ":"@) {
        None => None,
        Some(i) => {
            let rest = l.skip(i + 1);
            match find(rest, ":"@) {
                Some(j) => Some(rest.take(j)),
                None => Some(rest),
            }
        },
    }
}

/// Whether every character is an ASCII digit.
pub open spec fn is_digits(d: Seq<char>) -> bool {
    forall|i: int| 0 <= i < d.len() ==> '0' <= #[trigger] d[i] && d[i] <= '9'
}

/// The number ASCII digits stand for.
pub open spec fn digits_value(d: Seq<char>) -> nat
    decreases d.len(),
{
    if d.len() == 0 {
        0
    } else {
        digits_value(d.drop_last()) * 10 + ((d.last() as int) - 48) as nat
    }
}

/// `usize::from_str`: an optional `+`, then at least one digit, with a
/// value that fits.
pub open spec fn parse_usize(s: Seq<char>) -> Option<nat> {
    let d = if s.len() > 0 && s[0] == '+' {
        s.drop_first()
    } else {
        s
    };
    if d.len() > 0 && is_digits(d) && digits_value(d) <= usize::MAX {
        Some(digits_value(d))
    } else {
        None
    }
}

/// The body length a head announces: the trimmed value of its first
/// `Content-Length` header, 0 when there is none or it is no number.
pub open spec fn content_length_of(head: Seq<char>) -> nat {
    match first_content_length_line(lines(head), 0) {
        None => 0,
        Some(l) => match header_value(l) {
            None => 0,
            Some(v) => match parse_usize(trim(v)) {
                Some(n) => n,
                None => 0,
            },
        },
    }
}

/// What a head says: the first two words of its request line (method and
/// path) and the announced body length; nothing when the request line has
/// fewer than two words.
pub open spec fn head_fields(head: Seq<char>) -> Option<(Seq<char>, Seq<char>, nat)> {
    let w = words(request_line(head));
    if w.len() < 2 {
        None
    } else {
        Some((w[0], w[1], content_length_of(head)))
    }
}

/// The request line and body length of a request head.
pub struct RequestHead {
    pub method: String,
    pub path: String,
    pub content_length: usize,
}

proof fn lemma_digits_prefix(d: Seq<char>, j: int)
    requires
        is_digits(d),
        0 <= j <= d.len(),
    ensures
        digits_value(d.take(j)) <= digits_value(d),
    decreases d.len(),
{
    if j < d.len() {
        assert(d.drop_last().take(j) == d.take(j));
        lemma_digits_prefix(d.drop_last(), j);
    } else {
        assert(d.take(j) == d);
    }
}

fn parse_usize_exec(s: &Vec<char>) -> (r: Option<usize>)
    ensures
        r matches Some(n) ==> parse_usize(s@) == Some(n as nat),
        r is None ==> parse_usize(s@) is None,
{
    let k: usize = if s.len() > 0 && s[0] == '+' {
        1
    } else {
        0
    };
    let ghost d = if s@.len() > 0 && s@[0] == '+' {
        s@.drop_first()
    } else {
        s@
    };
    assert(d == s@.skip(k as int));
    if k >= s.len() {
        return None;
    }
    let mut acc: usize = 0;
    let mut i: usize = k;
    assert(s@.subrange(k as int, k as int) =~= Seq::<char>::empty());
    while i < s.len()
        invariant
            k <= i <= s.len(),
            d == s@.skip(k as int),
            d == (if s@.len() > 0 && s@[0] == '+' {
                s@.drop_first()
            } else {
                s@
            }),
            acc as nat == digits_value(s@.subrange(k as int, i as int)),
            is_digits(s@.subrange(k as int, i as int)),
        decreases s.len() - i,
    {
        let c = s[i];
        let ghost pre = s@.subrange(k as int, i as int);
        let ghost next = s@.subrange(k as int, i + 1);
        assert(next.drop_last() == pre);
        assert(next == d.take(i + 1 - k));
        if !('0' <= c && c <= '9') {
            assert(!is_digits(d)) by {
                assert(d[i - k] == c);
            }
            return None;
        }
        assert(is_digits(next));
        let dv = (c as u32 - 48) as usize;
        let m = match acc.checked_mul(10) {
            Some(m) => m,
            None => {
                proof {
                    if is_digits(d) {
                        lemma_digits_prefix(d, i + 1 - k);
                    }
                }
                return None;
            },
        };
        match m.checked_add(dv) {
            Some(a) => {
                acc = a;
            },
            None => {
                proof {
                    if is_digits(d) {
                        lemma_digits_prefix(d, i + 1 - k);
                    }
                }
                return None;
            },
        }
        i = i + 1;
    }
    assert(s@.subrange(k as int, s@.len() as int) == d);
    Some(acc)
}

fn is_content_length_line_exec(l: &Vec<char>) -> (r: bool)
    ensures
        r == is_content_length_line(l@),
{
    let name = str_chars("content-length:");
    if name.len() > l.len() {
        return false;
    }
    let mut i: usize = 0;
    while i < name.len()
        invariant
            name@ == "content-length:"@,
            name.len() <= l.len(),
            i <= name.len(),
            forall|j: int| 0 <= j < i ==> ascii_ci_eq(#[trigger] l@[j], name@[j]),
        decreases name.len() - i,
    {
        let c = l[i];
        let t = name[i];
        if !(c == t || ('A' <= c && c <= 'Z' && 'a' <= t && t <= 'z' && (c as u32) + 32 == (
        t as u32))) {
            assert(!ascii_ci_eq(l@[i as int], name@[i as int]));
            return false;
        }
        assert(ascii_ci_eq(l@[i as int], name@[i as int]));
        i = i + 1;
    }
    true
}

fn header_value_exec(l: &Vec<char>) -> (r: Option<Vec<char>>)
    ensures
        r matches Some(v) ==> header_value(l@) == Some(v@),
        r is None ==> header_value(l@) is None,
{
    proof {
        reveal_strlit(":");
    }
    match find_str(l, ":") {
        None => None,
        Some(i) => {
            let n = l.len();
            assert(":"@.len() == 1);
            let rest = slice_chars(l, i + 1, n);
            assert(rest@ == l@.skip(i + 1));
            match find_str(&rest, ":") {
                Some(j) => {
                    let v = slice_chars(&rest, 0, j);
                    assert(v@ == rest@.take(j as int));
                    Some(v)
                },
                None => Some(rest),
            }
        },
    }
}

fn content_length_exec(text: &Vec<char>) -> (r: usize)
    ensures
        r as nat == content_length_of(text@),
{
    let ls = lines_exec(text);
    let ghost lv = line_views(ls@);
    let mut i: usize = 0;
    while i < ls.len()
        invariant
            lv == line_views(ls@),
            lv == lines(text@),
            i <= ls.len(),
            first_content_length_line(lv, 0) == first_content_length_line(lv, i as int),
        decreases ls.len() - i,
    {
        assert(lv[i as int] == ls@[i as int]@);
        if is_content_length_line_exec(&ls[i]) {
            return match header_value_exec(&ls[i]) {
                None => 0,
                Some(v) => {
                    let t = trim_exec(&v);
                    match parse_usize_exec(&t) {
                        Some(n) => n,
                        None => 0,
                    }
                },
            };
        }
        i = i + 1;
    }
    0
}

/// Reads the head of a request (the bytes before its blank line): its text
/// is their lossy UTF-8 decoding, and from it come the method, the path and
/// the announced body length. Nothing when the request line has fewer than
/// two words.
pub fn parse_request_head(head: &[u8]) -> (r: Option<RequestHead>)
    ensures
        match (r, head_fields(utf8_lossy_text(head@))) {
            (None, None) => true,
            (Some(h), Some(f)) => h.method@ == f.0 && h.path@ == f.1 && h.content_length as nat
                == f.2,
            _ => false,
        },
{
    let text = utf8_lossy(head);
    let tc = str_chars(text.as_str());
    let ls = lines_exec(&tc);
    let ghost lv = line_views(ls@);
    let first: Vec<char> = if ls.len() > 0 {
        assert(lv[0] == ls@[0]@);
        slice_chars(&ls[0], 0, ls[0].len())
    } else {
        Vec::new()
    };
    assert(first@ == request_line(tc@));
    let ws = words_exec(&first);
    if ws.len() < 2 {
        return None;
    }
    let ghost wv = line_views(ws@);
    assert(wv[0] == ws@[0]@ && wv[1] == ws@[1]@);
    let method = chars_to_string(&ws[0]);
    let path = chars_to_string(&ws[1]);
    let content_length = content_length_exec(&tc);
    Some(RequestHead { method, path, content_length })
}

// ---------------------------------------------------------------------------
// Routing
// ---------------------------------------------------------------------------

/// Where a request goes.
#[derive(Debug, Clone, Copy, PartialEq, Eq, Structural)]
pub enum Route {
    /// `GET /` or `GET /index.html`: the dashboard page.
    Dashboard,
    /// `POST /api/audit`: one swarm audit.
    Audit,
    /// Anything else.
    NotFound,
}

/// The route of a request with the given method and path.
pub open spec fn route_of(method: Seq<char>, path: Seq<char>) -> Route {
    if method == "GET"@ && (path == "/"@ || path == "/index.html"@) {
        Route::Dashboard
    } else if method == "POST"@ && path == "/api/audit"@ {
        Route::Audit
    } else {
        Route::NotFound
    }
}

fn eq_str(a: &str, b: &str) -> (r: bool)
    ensures
        r == (a@ == b@),
{
    let ac = str_chars(a);
    let bc = str_chars(b);
    if ac.len() != bc.len() {
        return false;
    }
    let mut i: usize = 0;
    while i < ac.len()
        invariant
            ac@ == a@,
            bc@ == b@,
            ac.len() == bc.len(),
            i <= ac.len(),
            forall|j: int| 0 <= j < i ==> ac@[j] == bc@[j],
        decreases ac.len() - i,
    {
        if ac[i] != bc[i] {
            return false;
        }
        i = i + 1;
    }
    assert(a@ =~= b@);
    true
}

/// Routes a request by its method and path.
pub fn route(method: &str, path: &str) -> (r: Route)
    ensures
        r == route_of(method@, path@),
{
    if eq_str(method, "GET") && (eq_str(path, "/") || eq_str(path, "/index.html")) {
        Route::Dashboard
    } else if eq_str(method, "POST") && eq_str(path, "/api/audit") {
        Route::Audit
    } else {
        Route::NotFound
    }
}

// ---------------------------------------------------------------------------
// Responses
// ---------------------------------------------------------------------------

/// A complete response that closes the connection: status line, content
/// type, the body's length in bytes, and the body.
pub open spec fn response_text(status: Seq<char>, content_type: Seq<char>, body: Seq<char>) -> Seq<
    char,
> {
    "HTTP/1.1 "@ + status + "\r\nContent-Type: "@ + content_type + "\r\nContent-Length: "@
        + decimal(encode_utf8(body).len()) + "\r\nConnection: close\r\n\r\n"@ + body
}

/// Frames a response; `status` is the code and reason, such as `200 OK`.
pub fn http_response(status: &str, content_type: &str, body: &str) -> (r: String)
    ensures
        r@ == response_text(status@, content_type@, body@),
{
    let mut v: Vec<char> = Vec::new();
    push_str(&mut v, "HTTP/1.1 ");
    push_str(&mut v, status);
    push_str(&mut v, "\r\nContent-Type: ");
    push_str(&mut v, content_type);
    push_str(&mut v, "\r\nContent-Length: ");
    let bytes = body.as_bytes();
    let d = decimal_exec(bytes.len() as u64);
    push_chars(&mut v, &d);
    push_str(&mut v, "\r\nConnection: close\r\n\r\n");
    push_str(&mut v, body);
    chars_to_string(&v)
}

} // verus!
