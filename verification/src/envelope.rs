//! Decoding the engine's embedded validation envelope:
//! `{"source":{"errors":[{"message":...,"path":...},...]},"type":...}`.
//!
//! The decoder accepts the envelope as the engine emits it: a `source`
//! object holding an `errors` list of issue objects (each a `message` and a
//! `path` string, in either order), followed by a string-valued `type` tag,
//! with JSON whitespace anywhere between tokens and full JSON string escape
//! sequences (including surrogate pairs) inside the strings.

use vstd::prelude::*;
use crate::model::IssueView;
use crate::model::ValidationError;
use crate::model::issues_view;
use crate::textscan::match_at;
use crate::textscan::string_of;

verus! {

broadcast use vstd::string::group_string_axioms;

/// Spec-level image of an optional character buffer.
pub open spec fn ov(o: Option<Vec<char>>) -> Option<Seq<char>> {
    match o {
        Some(v) => Some(v@),
        None => None,
    }
}

/// JSON insignificant whitespace.
pub open spec fn is_ws(c: char) -> bool {
    c == ' ' || c == '\t' || c == '\n' || c == '\r'
}

/// First index at or after `i` holding no whitespace (unclamped).
pub open spec fn ws_from(t: Seq<char>, i: int) -> int
    decreases t.len() - i,
{
    if 0 <= i && i < t.len() && is_ws(t[i]) {
        ws_from(t, i + 1)
    } else {
        i
    }
}

/// First index at or after `i` holding no whitespace, clamped to `[i, len]`.
pub open spec fn ws_at(t: Seq<char>, i: int) -> int {
    let j = ws_from(t, i);
    if j < i {
        i
    } else if j > t.len() {
        t.len() as int
    } else {
        j
    }
}

/// The value of one hexadecimal digit.
pub open spec fn hex_digit(c: char) -> Option<u32> {
    let v = c as u32;
    if 48 <= v && v <= 57 {
        Some((v - 48) as u32)
    } else if 65 <= v && v <= 70 {
        Some((v - 55) as u32)
    } else if 97 <= v && v <= 102 {
        Some((v - 87) as u32)
    } else {
        None
    }
}

/// The value of the four hexadecimal digits at `i`.
pub open spec fn hex4(t: Seq<char>, i: int) -> Option<u32> {
    if 0 <= i && i + 4 <= t.len() {
        match (hex_digit(t[i]), hex_digit(t[i + 1]), hex_digit(t[i + 2]), hex_digit(t[i + 3])) {
            (Some(a), Some(b), Some(c), Some(d)) => Some(
                ((a * 4096 + b * 256 + c * 16 + d) as u32),
            ),
            _ => None,
        }
    } else {
        None
    }
}

/// One string escape, `i` standing on the character after the backslash:
/// the escaped character and the index after the escape.
pub open spec fn esc_spec(t: Seq<char>, i: int) -> Option<(char, int)> {
    if !(0 <= i && i < t.len()) {
        None
    } else {
        let c = t[i];
        if c == '"' {
            Some(('"', i + 1))
        } else if c == '\\' {
            Some(('\\', i + 1))
        } else if c == '/' {
            Some(('/', i + 1))
        } else if c == 'b' {
            Some(('\u{0008}', i + 1))
        } else if c == 'f' {
            Some(('\u{000C}', i + 1))
        } else if c == 'n' {
            Some(('\n', i + 1))
        } else if c == 'r' {
            Some(('\r', i + 1))
        } else if c == 't' {
            Some(('\t', i + 1))
        } else if c == 'u' {
            match hex4(t, i + 1) {
                None => None,
                Some(h) => if 0xD800 <= h && h <= 0xDBFF {
                    if i + 7 <= t.len() && t[i + 5] == '\\' && t[i + 6] == 'u' {
                        match hex4(t, i + 7) {
                            None => None,
                            Some(l) => if 0xDC00 <= l && l <= 0xDFFF {
                                Some(
                                    (
                                        (((0x10000 + (h - 0xD800) * 0x400 + (l
                                            - 0xDC00)) as u32) as char),
                                        i + 11,
                                    ),
                                )
                            } else {
                                None
                            },
                        }
                    } else {
                        None
                    }
                } else if 0xDC00 <= h && h <= 0xDFFF {
                    None
                } else {
                    Some(((h as char), i + 5))
                },
            }
        } else {
            None
        }
    }
}

/// JSON string body starting at `i` (just after the opening quote), with the
/// characters read so far in `acc`: the full content and the index after the
/// closing quote.
pub open spec fn str_spec(t: Seq<char>, i: int, acc: Seq<char>) -> Option<(Seq<char>, int)>
    decreases t.len() - i,
{
    if !(0 <= i && i < t.len()) {
        None
    } else {
        let c = t[i];
        if c == '"' {
            Some((acc, i + 1))
        } else if c == '\\' {
            match esc_spec(t, i + 1) {
                None => None,
                Some((e, j)) => if i + 1 < j && j <= t.len() {
                    str_spec(t, j, acc.push(e))
                } else {
                    None
                },
            }
        } else if (c as u32) < 32 {
            None
        } else {
            str_spec(t, i + 1, acc.push(c))
        }
    }
}

/// The members of one issue object, `i` standing on the opening quote of the
/// next key; `msg` and `pth` hold the strings read so far.  Yields the issue
/// and the index after the closing brace.
pub open spec fn issue_pairs_spec(
    t: Seq<char>,
    i: int,
    msg: Option<Seq<char>>,
    pth: Option<Seq<char>>,
) -> Option<(IssueView, int)>
    decreases t.len() - i,
{
    if !(0 <= i && i < t.len() && t[i] == '"') {
        None
    } else {
        match str_spec(t, i + 1, Seq::empty()) {
            None => None,
            Some((key, e)) => {
                let j = ws_at(t, e);
                if !(j < t.len() && t[j] == ':') {
                    None
                } else {
                    let k = ws_at(t, j + 1);
                    if (key == "message"@ && msg is Some) || (key == "path"@ && pth is Some) || (
                    key != "message"@ && key != "path"@) {
                        None
                    } else if !(k < t.len() && t[k] == '"') {
                        None
                    } else {
                        match str_spec(t, k + 1, Seq::empty()) {
                            None => None,
                            Some((s, ve)) => {
                                let msg2 = if key == "message"@ {
                                    Some(s)
                                } else {
                                    msg
                                };
                                let pth2 = if key == "path"@ {
                                    Some(s)
                                } else {
                                    pth
                                };
                                let m = ws_at(t, ve);
                                if m < t.len() && t[m] == ',' {
                                    let n = ws_at(t, m + 1);
                                    if n > i {
                                        issue_pairs_spec(t, n, msg2, pth2)
                                    } else {
                                        None
                                    }
                                } else if m < t.len() && t[m] == '}' {
                                    match (msg2, pth2) {
                                        (Some(ms), Some(ps)) => Some(
                                            (IssueView { message: ms, path: ps }, m + 1),
                                        ),
                                        _ => None,
                                    }
                                } else {
                                    None
                                }
                            },
                        }
                    }
                }
            },
        }
    }
}

/// One issue object, `i` standing on its opening brace.
pub open spec fn issue_spec(t: Seq<char>, i: int) -> Option<(IssueView, int)> {
    if 0 <= i && i < t.len() && t[i] == '{' {
        issue_pairs_spec(t, ws_at(t, i + 1), None, None)
    } else {
        None
    }
}

/// The elements of a non-empty issue list, `i` standing on the opening brace
/// of the next issue; `acc` holds the issues read so far.  Yields the issues
/// and the index after the closing bracket.
pub open spec fn items_spec(t: Seq<char>, i: int, acc: Seq<IssueView>) -> Option<
    (Seq<IssueView>, int),
>
    decreases t.len() - i,
{
    if !(0 <= i && i <= t.len()) {
        None
    } else {
        match issue_spec(t, i) {
            None => None,
            Some((iv, e)) => {
                let m = ws_at(t, e);
                if m < t.len() && t[m] == ',' {
                    let n = ws_at(t, m + 1);
                    if n > i {
                        items_spec(t, n, acc.push(iv))
                    } else {
                        None
                    }
                } else if m < t.len() && t[m] == ']' {
                    Some((acc.push(iv), m + 1))
                } else {
                    None
                }
            },
        }
    }
}

/// An issue list, `i` standing on its opening bracket.
pub open spec fn array_spec(t: Seq<char>, i: int) -> Option<(Seq<IssueView>, int)> {
    if 0 <= i && i < t.len() && t[i] == '[' {
        let j = ws_at(t, i + 1);
        if j < t.len() && t[j] == ']' {
            Some((Seq::empty(), j + 1))
        } else {
            items_spec(t, j, Seq::empty())
        }
    } else {
        None
    }
}

/// The whole validation envelope: the recovered issues, if `c` decodes.
pub open spec fn envelope_spec(c: Seq<char>) -> Option<Seq<IssueView>> {
    let i0 = ws_at(c, 0);
    if !(i0 < c.len() && c[i0] == '{') {
        None
    } else {
        let i1 = ws_at(c, i0 + 1);
        if !match_at(c, "\"source\""@, i1) {
            None
        } else {
            let i2 = ws_at(c, i1 + "\"source\""@.len());
            if !(i2 < c.len() && c[i2] == ':') {
                None
            } else {
                let i3 = ws_at(c, i2 + 1);
                if !(i3 < c.len() && c[i3] == '{') {
                    None
                } else {
                    let i4 = ws_at(c, i3 + 1);
                    if !match_at(c, "\"errors\""@, i4) {
                        None
                    } else {
                        let i5 = ws_at(c, i4 + "\"errors\""@.len());
                        if !(i5 < c.len() && c[i5] == ':') {
                            None
                        } else {
                            match array_spec(c, ws_at(c, i5 + 1)) {
                                None => None,
                                Some((issues, e)) => envelope_tail_spec(c, e, issues),
                            }
                        }
                    }
                }
            }
        }
    }
}

/// After the issue list: the closing brace of `source`, the `type` tag with
/// a string value, the closing brace of the envelope, and the end of `c`.
pub open spec fn envelope_tail_spec(c: Seq<char>, e: int, issues: Seq<IssueView>) -> Option<
    Seq<IssueView>,
> {
    let j0 = ws_at(c, e);
    if !(j0 < c.len() && c[j0] == '}') {
        None
    } else {
        let j1 = ws_at(c, j0 + 1);
        if !(j1 < c.len() && c[j1] == ',') {
            None
        } else {
            let j2 = ws_at(c, j1 + 1);
            if !match_at(c, "\"type\""@, j2) {
                None
            } else {
                let j3 = ws_at(c, j2 + "\"type\""@.len());
                if !(j3 < c.len() && c[j3] == ':') {
                    None
                } else {
                    let j4 = ws_at(c, j3 + 1);
                    if !(j4 < c.len() && c[j4] == '"') {
                        None
                    } else {
                        match str_spec(c, j4 + 1, Seq::empty()) {
                            None => None,
                            Some((_, se)) => {
                                let j5 = ws_at(c, se);
                                if j5 < c.len() && c[j5] == '}' && ws_at(c, j5 + 1) == c.len() {
                                    Some(issues)
                                } else {
                                    None
                                }
                            },
                        }
                    }
                }
            }
        }
    }
}

/// Whether `tok` stands at index `i` of `t`.
#[verifier::loop_isolation(false)]
fn token_at(t: &Vec<char>, i: usize, tok: &Vec<char>) -> (r: bool)
    ensures
        r == match_at(t@, tok@, i as int),
{
    if i > t.len() || tok.len() > t.len() - i {
        assert(!match_at(t@, tok@, i as int));
        return false;
    }
    let mut j: usize = 0;
    while j < tok.len()
        invariant
            0 <= j <= tok@.len(),
            i + tok@.len() <= t@.len(),
            forall|k: int| 0 <= k < j ==> t@[i + k] == tok@[k],
        decreases tok@.len() - j,
    {
        if t[i + j] != tok[j] {
            assert(!match_at(t@, tok@, i as int)) by {
                if match_at(t@, tok@, i as int) {
                    assert(t@.subrange(i as int, i + tok@.len() as int)[j as int] == t@[i + j]);
                }
            }
            return false;
        }
        j += 1;
    }
    assert(t@.subrange(i as int, i + tok@.len() as int) =~= tok@);
    true
}

/// First index at or after `i` holding no whitespace.
fn skip_ws(t: &Vec<char>, i: usize) -> (r: usize)
    requires
        i <= t@.len(),
    ensures
        r as int == ws_at(t@, i as int),
        i <= r <= t@.len(),
{
    let mut k: usize = i;
    while k < t.len() && (t[k] == ' ' || t[k] == '\t' || t[k] == '\n' || t[k] == '\r')
        invariant
            i <= k <= t@.len(),
            ws_from(t@, i as int) == ws_from(t@, k as int),
        decreases t@.len() - k,
    {
        k += 1;
    }
    k
}

/// The value of the four hexadecimal digits at `i`.
fn hex4_at(t: &Vec<char>, i: usize) -> (r: Option<u32>)
    ensures
        r == hex4(t@, i as int),
        r matches Some(h) ==> h <= 0xFFFF,
{
    if i > t.len() || t.len() - i < 4 {
        return None;
    }
    let d0 = hex_digit_at(t[i]);
    let d1 = hex_digit_at(t[i + 1]);
    let d2 = hex_digit_at(t[i + 2]);
    let d3 = hex_digit_at(t[i + 3]);
    match (d0, d1, d2, d3) {
        (Some(a), Some(b), Some(c), Some(d)) => Some(a * 4096 + b * 256 + c * 16 + d),
        _ => None,
    }
}

/// The value of one hexadecimal digit.
fn hex_digit_at(c: char) -> (r: Option<u32>)
    ensures
        r == hex_digit(c),
        r matches Some(v) ==> v <= 15,
{
    let v = c as u32;
    if 48 <= v && v <= 57 {
        Some(v - 48)
    } else if 65 <= v && v <= 70 {
        Some(v - 55)
    } else if 97 <= v && v <= 102 {
        Some(v - 87)
    } else {
        None
    }
}

/// Relies on `char::from_u32`: it returns `Some` exactly for code points
/// that are not surrogates and are at most `0x10FFFF`, and the returned
/// character has the given code point.
#[verifier::external_body]
fn char_from_u32(code: u32) -> (r: Option<char>)
    ensures
        r matches Some(c) ==> c == code as char,
        r is Some <==> (code < 0xD800 || (0xE000 <= code && code <= 0x10FFFF)),
{
    char::from_u32(code)
}

/// One string escape, `i` standing on the character after the backslash.
fn parse_esc(t: &Vec<char>, i: usize) -> (r: Option<(char, usize)>)
    ensures
        match esc_spec(t@, i as int) {
            Some((e, j)) => r matches Some(p) && p.0 == e && p.1 as int == j && i < p.1
                <= t@.len(),
            None => r is None,
        },
{
    if i >= t.len() {
        return None;
    }
    let c = t[i];
    if c == '"' {
        Some(('"', i + 1))
    } else if c == '\\' {
        Some(('\\', i + 1))
    } else if c == '/' {
        Some(('/', i + 1))
    } else if c == 'b' {
        Some(('\u{0008}', i + 1))
    } else if c == 'f' {
        Some(('\u{000C}', i + 1))
    } else if c == 'n' {
        Some(('\n', i + 1))
    } else if c == 'r' {
        Some(('\r', i + 1))
    } else if c == 't' {
        Some(('\t', i + 1))
    } else if c == 'u' {
        match hex4_at(t, i + 1) {
            None => None,
            Some(h) => {
                if 0xD800 <= h && h <= 0xDBFF {
                    if t.len() >= 7 && i <= t.len() - 7 && t[i + 5] == '\\' && t[i + 6] == 'u' {
                        match hex4_at(t, i + 7) {
                            None => None,
                            Some(l) => {
                                if 0xDC00 <= l && l <= 0xDFFF {
                                    let code: u32 = 0x10000 + (h - 0xD800) * 0x400 + (l - 0xDC00);
                                    match char_from_u32(code) {
                                        Some(e) => Some((e, i + 11)),
                                        None => {
                                            assert(false);
                                            None
                                        },
                                    }
                                } else {
                                    None
                                }
                            },
                        }
                    } else {
                        None
                    }
                } else if 0xDC00 <= h && h <= 0xDFFF {
                    None
                } else {
                    match char_from_u32(h) {
                        Some(e) => Some((e, i + 5)),
                        None => {
                            assert(false);
                            None
                        },
                    }
                }
            },
        }
    } else {
        None
    }
}

/// JSON string body starting at `i` (just after the opening quote).
fn parse_str(t: &Vec<char>, i: usize) -> (r: Option<(Vec<char>, usize)>)
    requires
        i <= t@.len(),
    ensures
        match str_spec(t@, i as int, Seq::empty()) {
            Some((s, e)) => r matches Some(p) && p.0@ == s && p.1 as int == e && i < p.1
                <= t@.len(),
            None => r is None,
        },
{
    let mut pos: usize = i;
    let mut acc: Vec<char> = Vec::new();
    assert(acc@ =~= Seq::<char>::empty());
    loop
        invariant
            i <= pos <= t@.len(),
            str_spec(t@, i as int, Seq::empty()) == str_spec(t@, pos as int, acc@),
        decreases t@.len() - pos,
    {
        if pos >= t.len() {
            return None;
        }
        let c = t[pos];
        if c == '"' {
            return Some((acc, pos + 1));
        } else if c == '\\' {
            match parse_esc(t, pos + 1) {
                None => {
                    return None;
                },
                Some((e, j)) => {
                    acc.push(e);
                    pos = j;
                },
            }
        } else if (c as u32) < 32 {
            return None;
        } else {
            acc.push(c);
            pos += 1;
        }
    }
}

/// The members of one issue object, `i` standing on the opening quote of the
/// next key, `msg` and `pth` holding the strings read so far.
#[verifier::rlimit(100)]
fn parse_issue_pairs(t: &Vec<char>, i: usize, msg: Option<Vec<char>>, pth: Option<Vec<char>>) -> (r:
    Option<(ValidationError, usize)>)
    requires
        i <= t@.len(),
    ensures
        match issue_pairs_spec(t@, i as int, ov(msg), ov(pth)) {
            Some((iv, e)) => r matches Some(p) && p.0@ == iv && p.1 as int == e && p.1 <= t@.len(),
            None => r is None,
        },
    decreases t@.len() - i,
{
    proof {
        reveal_strlit("message");
        reveal_strlit("path");
    }
    let ghost msg0 = ov(msg);
    let ghost pth0 = ov(pth);
    if !(i < t.len() && t[i] == '"') {
        return None;
    }
    let key = match parse_str(t, i + 1) {
        None => {
            return None;
        },
        Some(p) => p,
    };
    let j = skip_ws(t, key.1);
    if !(j < t.len() && t[j] == ':') {
        return None;
    }
    let k = skip_ws(t, j + 1);
    let is_msg = eq_lit(&key.0, "message");
    let is_pth = eq_lit(&key.0, "path");
    if (is_msg && msg.is_some()) || (is_pth && pth.is_some()) || (!is_msg && !is_pth) {
        return None;
    }
    if !(k < t.len() && t[k] == '"') {
        return None;
    }
    let sval = match parse_str(t, k + 1) {
        None => {
            return None;
        },
        Some(p) => p,
    };
    let ghost key_view = key.0@;
    let ghost val_view = sval.0@;
    let msg2: Option<Vec<char>>;
    let pth2: Option<Vec<char>>;
    if is_msg {
        msg2 = Some(sval.0);
        pth2 = pth;
    } else {
        msg2 = msg;
        pth2 = Some(sval.0);
    }
    let ghost m2 = ov(msg2);
    let ghost p2 = ov(pth2);
    proof {
        // the two key words differ, so only one branch of each update fires
        assert("message"@.len() == 7);
        assert("path"@.len() == 4);
        assert(m2 == (if key_view == "message"@ {
            Some(val_view)
        } else {
            msg0
        }));
        assert(p2 == (if key_view == "path"@ {
            Some(val_view)
        } else {
            pth0
        }));
    }
    let m = skip_ws(t, sval.1);
    if m < t.len() && t[m] == ',' {
        let n = skip_ws(t, m + 1);
        if n > i {
            proof {
                assert(issue_pairs_spec(t@, i as int, msg0, pth0) == issue_pairs_spec(
                    t@,
                    n as int,
                    m2,
                    p2,
                ));
            }
            parse_issue_pairs(t, n, msg2, pth2)
        } else {
            assert(issue_pairs_spec(t@, i as int, msg0, pth0) is None);
            None
        }
    } else if m < t.len() && t[m] == '}' {
        proof {
            assert(issue_pairs_spec(t@, i as int, msg0, pth0) == (match (m2, p2) {
                (Some(ms), Some(ps)) => Some(
                    (IssueView { message: ms, path: ps }, (m + 1) as int),
                ),
                _ => None,
            }));
        }
        match (msg2, pth2) {
            (Some(ms), Some(ps)) => {
                let err = ValidationError { message: string_of(&ms), path: string_of(&ps) };
                Some((err, m + 1))
            },
            _ => None,
        }
    } else {
        assert(issue_pairs_spec(t@, i as int, msg0, pth0) is None);
        None
    }
}

/// Whether the characters of `v` spell `s`.
fn eq_lit(v: &Vec<char>, s: &str) -> (r: bool)
    ensures
        r == (v@ == s@),
{
    let sv = crate::textscan::chars_of(s);
    if v.len() != sv.len() {
        return false;
    }
    let mut k: usize = 0;
    while k < v.len()
        invariant
            0 <= k <= v@.len(),
            v@.len() == sv@.len(),
            sv@ == s@,
            forall|m: int| 0 <= m < k ==> v@[m] == sv@[m],
        decreases v@.len() - k,
    {
        if v[k] != sv[k] {
            assert(v@ != s@);
            return false;
        }
        k += 1;
    }
    assert(v@ =~= sv@);
    true
}

/// An issue list, `i` standing on its opening bracket.
#[verifier::rlimit(100)]
fn parse_array(t: &Vec<char>, i: usize) -> (r: Option<(Vec<ValidationError>, usize)>)
    requires
        i <= t@.len(),
    ensures
        match array_spec(t@, i as int) {
            Some((issues, e)) => r matches Some(p) && issues_view(p.0@) == issues && p.1 as int
                == e && p.1 <= t@.len(),
            None => r is None,
        },
{
    if !(i < t.len() && t[i] == '[') {
        return None;
    }
    let j = skip_ws(t, i + 1);
    if j < t.len() && t[j] == ']' {
        let out: Vec<ValidationError> = Vec::new();
        assert(issues_view(out@) =~= Seq::<IssueView>::empty());
        return Some((out, j + 1));
    }
    let acc: Vec<ValidationError> = Vec::new();
    assert(issues_view(acc@) =~= Seq::<IssueView>::empty());
    parse_items(t, j, acc)
}

/// The elements of a non-empty issue list, `i` standing on the opening brace
/// of the next issue, `acc` holding the issues read so far.
#[verifier::rlimit(100)]
fn parse_items(t: &Vec<char>, i: usize, acc: Vec<ValidationError>) -> (r: Option<
    (Vec<ValidationError>, usize)>)
    requires
        i <= t@.len(),
    ensures
        match items_spec(t@, i as int, issues_view(acc@)) {
            Some((issues, e)) => r matches Some(p) && issues_view(p.0@) == issues && p.1 as int
                == e && p.1 <= t@.len(),
            None => r is None,
        },
    decreases t@.len() - i,
{
    if !(i < t.len() && t[i] == '{') {
        return None;
    }
    let q = skip_ws(t, i + 1);
    let issue = match parse_issue_pairs(t, q, None, None) {
        None => {
            return None;
        },
        Some(p) => p,
    };
    let ghost acc0 = issues_view(acc@);
    let mut acc = acc;
    acc.push(issue.0);
    assert(issues_view(acc@) =~= acc0.push(issue.0@));
    let m = skip_ws(t, issue.1);
    if m < t.len() && t[m] == ',' {
        let n = skip_ws(t, m + 1);
        if n > i {
            parse_items(t, n, acc)
        } else {
            None
        }
    } else if m < t.len() && t[m] == ']' {
        Some((acc, m + 1))
    } else {
        None
    }
}

/// Decode one candidate fragment as the validation envelope.
pub fn decode_envelope(c: &Vec<char>) -> (r: Option<Vec<ValidationError>>)
    ensures
        match envelope_spec(c@) {
            Some(issues) => r matches Some(v) && issues_view(v@) == issues,
            None => r is None,
        },
{
    proof {
        reveal_strlit("\"source\"");
        reveal_strlit("\"errors\"");
        reveal_strlit("\"type\"");
    }
    let source_tok = crate::textscan::chars_of("\"source\"");
    let errors_tok = crate::textscan::chars_of("\"errors\"");
    let type_tok = crate::textscan::chars_of("\"type\"");
    let i0 = skip_ws(c, 0);
    if !(i0 < c.len() && c[i0] == '{') {
        return None;
    }
    let i1 = skip_ws(c, i0 + 1);
    if !token_at(c, i1, &source_tok) {
        return None;
    }
    let i2 = skip_ws(c, i1 + 8);
    if !(i2 < c.len() && c[i2] == ':') {
        return None;
    }
    let i3 = skip_ws(c, i2 + 1);
    if !(i3 < c.len() && c[i3] == '{') {
        return None;
    }
    let i4 = skip_ws(c, i3 + 1);
    if !token_at(c, i4, &errors_tok) {
        return None;
    }
    let i5 = skip_ws(c, i4 + 8);
    if !(i5 < c.len() && c[i5] == ':') {
        return None;
    }
    let i6 = skip_ws(c, i5 + 1);
    let arr = match parse_array(c, i6) {
        None => {
            return None;
        },
        Some(p) => p,
    };
    let j0 = skip_ws(c, arr.1);
    if !(j0 < c.len() && c[j0] == '}') {
        return None;
    }
    let j1 = skip_ws(c, j0 + 1);
    if !(j1 < c.len() && c[j1] == ',') {
        return None;
    }
    let j2 = skip_ws(c, j1 + 1);
    if !token_at(c, j2, &type_tok) {
        return None;
    }
    let j3 = skip_ws(c, j2 + 6);
    if !(j3 < c.len() && c[j3] == ':') {
        return None;
    }
    let j4 = skip_ws(c, j3 + 1);
    if !(j4 < c.len() && c[j4] == '"') {
        return None;
    }
    let sv = match parse_str(c, j4 + 1) {
        None => {
            return None;
        },
        Some(p) => p,
    };
    let j5 = skip_ws(c, sv.1);
    if !(j5 < c.len() && c[j5] == '}') {
        return None;
    }
    let j6 = skip_ws(c, j5 + 1);
    if j6 == c.len() {
        Some(arr.0)
    } else {
        None
    }
}

} // verus!
