//! Salvage extraction: recovering structured field-level validation issues
//! from the engine's diagnostic text.
//!
//! The diagnostic text is not a documented wire format: it merely tends to
//! embed a JSON validation envelope at an unpredictable offset.  Recovery is
//! therefore a layered cascade: decode an embedded envelope found by marker
//! scanning, and fall back to a literal-prefix heuristic keyed on the
//! enum-membership phrase `is not one of`.

use vstd::prelude::*;
use crate::envelope::decode_envelope;
use crate::envelope::envelope_spec;
use crate::model::issues_view;
use crate::model::IssueView;
use crate::model::ValidationError;
use crate::textscan::find_from;
use crate::textscan::first_match_from;
use crate::textscan::match_at;
use crate::textscan::occurs_from;
use crate::textscan::chars_of;
use crate::textscan::copy_range;
use crate::textscan::string_of;

verus! {

/// The first index at or after `from` at which `pat` occurs in `text`,
/// as a deterministic spec-level search.
pub open spec fn find_spec(text: Seq<char>, pat: Seq<char>, from: int) -> Option<int>
    decreases text.len() - from + 1,
{
    if !(0 <= from && from + pat.len() <= text.len()) {
        None
    } else if match_at(text, pat, from) {
        Some(from)
    } else {
        find_spec(text, pat, from + 1)
    }
}

pub proof fn lemma_find_spec_equiv(text: Seq<char>, pat: Seq<char>, from: int)
    requires
        from >= 0,
    ensures
        match find_spec(text, pat, from) {
            Some(i) => first_match_from(text, pat, from, i),
            None => !occurs_from(text, pat, from),
        },
    decreases text.len() - from + 1,
{
    if !(0 <= from && from + pat.len() <= text.len()) {
        assert forall|i: int| from <= i implies !match_at(text, pat, i) by {}
    } else if match_at(text, pat, from) {
    } else {
        lemma_find_spec_equiv(text, pat, from + 1);
        match find_spec(text, pat, from + 1) {
            Some(i) => {
                assert(first_match_from(text, pat, from, i));
            },
            None => {
                assert forall|i: int| from <= i implies !match_at(text, pat, i) by {
                    if i == from {
                    } else {
                        assert(!occurs_from(text, pat, from + 1));
                    }
                }
            },
        }
    }
}

pub proof fn lemma_first_match_unique(text: Seq<char>, pat: Seq<char>, from: int, i: int, j: int)
    requires
        first_match_from(text, pat, from, i),
        first_match_from(text, pat, from, j),
    ensures
        i == j,
{
}

/// `find_from`, restated against the deterministic spec-level search.
pub fn find_first(text: &Vec<char>, pat: &Vec<char>, from: usize) -> (r: Option<usize>)
    ensures
        match r {
            Some(i) => find_spec(text@, pat@, from as int) == Some(i as int)
                && from <= i && i + pat@.len() <= text@.len(),
            None => find_spec(text@, pat@, from as int) is None,
        },
{
    let r = find_from(text, pat, from);
    proof {
        lemma_find_spec_equiv(text@, pat@, from as int);
        match r {
            Some(i) => {
                match find_spec(text@, pat@, from as int) {
                    Some(j) => {
                        lemma_first_match_unique(text@, pat@, from as int, i as int, j);
                    },
                    None => {
                        assert(occurs_from(text@, pat@, from as int));
                    },
                }
            },
            None => {
                if let Some(j) = find_spec(text@, pat@, from as int) {
                    assert(occurs_from(text@, pat@, from as int));
                }
            },
        }
    }
    r
}

/// What the literal-prefix heuristic reads out of one comma-separated
/// fragment for `key`: the characters between the first occurrence of `key`
/// and the next double quote.
pub open spec fn frag_extract(frag: Seq<char>, key: Seq<char>) -> Option<Seq<char>> {
    match find_spec(frag, key, 0) {
        Some(i) => {
            let start = i + key.len();
            match find_spec(frag, seq!['"'], start) {
                Some(q) => Some(frag.subrange(start, q)),
                None => None,
            }
        },
        None => None,
    }
}

/// Clamp of `v` into `[lo, hi]`.
pub open spec fn clamp(v: int, lo: int, hi: int) -> int {
    if v < lo {
        lo
    } else if v > hi {
        hi
    } else {
        v
    }
}

/// Walks the comma-separated fragments of `text` from `pos` on, keeping the
/// last fragment reading for `key` (or `acc` if no later fragment has one).
pub open spec fn scan_key(text: Seq<char>, key: Seq<char>, pos: int, acc: Seq<char>) -> Seq<char>
    decreases text.len() - pos,
{
    if !(0 <= pos <= text.len()) {
        acc
    } else {
        let frag_end = match find_spec(text, seq![','], pos) {
            Some(c) => clamp(c, pos, text.len() as int),
            None => text.len() as int,
        };
        let frag = text.subrange(pos, frag_end);
        let acc2 = match frag_extract(frag, key) {
            Some(m) => m,
            None => acc,
        };
        if frag_end >= text.len() {
            acc2
        } else {
            scan_key(text, key, frag_end + 1, acc2)
        }
    }
}

/// The heuristic fallback, spec level: triggered only by the
/// enum-membership phrase; yields the last per-fragment `"message":"..."`
/// reading and the last `"path":"..."` reading, the path defaulting to the
/// unknown-input sentinel.
pub open spec fn manual_extract_spec(text: Seq<char>) -> Option<IssueView> {
    if find_spec(text, "is not one of"@, 0) is Some {
        let m = scan_key(text, "\"message\":\""@, 0, Seq::empty());
        if m.len() > 0 {
            let p = scan_key(text, "\"path\":\""@, 0, Seq::empty());
            Some(
                IssueView {
                    message: m,
                    path: if p.len() > 0 {
                        p
                    } else {
                        "/input/unknown"@
                    },
                },
            )
        } else {
            None
        }
    } else {
        None
    }
}

/// One fragment reading for `key`, executable.
fn frag_extract_exec(frag: &Vec<char>, key: &Vec<char>) -> (r: Option<Vec<char>>)
    ensures
        match frag_extract(frag@, key@) {
            Some(m) => r matches Some(v) && v@ == m,
            None => r is None,
        },
{
    let quote: Vec<char> = vec!['"'];
    assert(quote@ =~= seq!['"']);
    match find_first(frag, key, 0) {
        None => None,
        Some(i) => {
            let flen = frag.len();
            assert(i + key@.len() <= flen);
            let start = i + key.len();
            match find_first(frag, &quote, start) {
                None => None,
                Some(q) => Some(copy_range(frag, start, q)),
            }
        },
    }
}

/// The last per-fragment reading for `key` over all of `text`, executable.
fn scan_key_exec(text: &Vec<char>, key: &Vec<char>) -> (r: Vec<char>)
    ensures
        r@ == scan_key(text@, key@, 0, Seq::empty()),
{
    let comma: Vec<char> = vec![','];
    assert(comma@ =~= seq![',']);
    let mut acc: Vec<char> = Vec::new();
    let mut pos: usize = 0;
    assert(acc@ =~= Seq::<char>::empty());
    loop
        invariant
            0 <= pos <= text@.len(),
            comma@ =~= seq![','],
            scan_key(text@, key@, 0, Seq::empty()) == scan_key(text@, key@, pos as int, acc@),
        decreases text@.len() - pos,
    {
        let frag_end: usize = match find_first(text, &comma, pos) {
            Some(c) => c,
            None => text.len(),
        };
        let frag = copy_range(text, pos, frag_end);
        match frag_extract_exec(&frag, key) {
            Some(m) => {
                acc = m;
            },
            None => {},
        }
        if frag_end >= text.len() {
            return acc;
        }
        pos = frag_end + 1;
    }
}

/// The heuristic fallback over a character vector.
fn manual_extract_vec(text: &Vec<char>) -> (r: Option<Vec<ValidationError>>)
    ensures
        match manual_extract_spec(text@) {
            Some(iv) => r matches Some(v) && issues_view(v@) == seq![iv],
            None => r is None,
        },
{
    let marker = chars_of("is not one of");
    if find_first(text, &marker, 0).is_none() {
        return None;
    }
    let msg_key = chars_of("\"message\":\"");
    let m = scan_key_exec(text, &msg_key);
    if m.len() == 0 {
        return None;
    }
    let path_key = chars_of("\"path\":\"");
    let p = scan_key_exec(text, &path_key);
    let path_chars = if p.len() == 0 {
        chars_of("/input/unknown")
    } else {
        p
    };
    let err = ValidationError { message: string_of(&m), path: string_of(&path_chars) };
    let ghost iv = manual_extract_spec(text@).unwrap();
    assert(err@ == iv);
    let mut out: Vec<ValidationError> = Vec::new();
    out.push(err);
    assert(issues_view(out@) =~= seq![iv]);
    Some(out)
}

/// What one marker stage of the cascade yields: the decoded envelope of the
/// candidate cut between the first start marker and its first end marker, or
/// failing that the heuristic reading of the whole text; nothing when the
/// markers are absent or both readings fail.
pub open spec fn stage_spec(text: Seq<char>, ps: Seq<char>, pe: Seq<char>) -> Option<
    Seq<IssueView>,
> {
    match find_spec(text, ps, 0) {
        None => None,
        Some(start) => {
            match find_spec(text, pe, start + ps.len()) {
                None => None,
                Some(e) => {
                    let candidate = text.subrange(start, e + pe.len());
                    match envelope_spec(candidate) {
                        Some(issues) => Some(issues),
                        None => match manual_extract_spec(text) {
                            Some(iv) => Some(seq![iv]),
                            None => None,
                        },
                    }
                },
            }
        },
    }
}

/// The full salvage cascade: the three marker stages in priority order, then
/// the bare heuristic.
pub open spec fn extract_spec(text: Seq<char>) -> Option<Seq<IssueView>> {
    match stage_spec(text, "{\"source\":{\"errors\":"@, "\"type\":\"Validation\"}"@) {
        Some(r) => Some(r),
        None => match stage_spec(text, "{\"errors\":"@, "\"type\":\"Validation\"}"@) {
            Some(r) => Some(r),
            None => match stage_spec(text, "\"errors\":["@, "]"@) {
                Some(r) => Some(r),
                None => match manual_extract_spec(text) {
                    Some(iv) => Some(seq![iv]),
                    None => None,
                },
            },
        },
    }
}

/// One marker stage of the cascade, executable.
fn try_stage(text: &Vec<char>, ps: &Vec<char>, pe: &Vec<char>) -> (r: Option<Vec<ValidationError>>)
    ensures
        match stage_spec(text@, ps@, pe@) {
            Some(issues) => r matches Some(v) && issues_view(v@) == issues,
            None => r is None,
        },
{
    let start = match find_first(text, ps, 0) {
        None => {
            return None;
        },
        Some(s) => s,
    };
    let tlen = text.len();
    assert(start + ps@.len() <= tlen);
    let search_from = start + ps.len();
    let e = match find_first(text, pe, search_from) {
        None => {
            return None;
        },
        Some(e) => e,
    };
    assert(e + pe@.len() <= tlen);
    let end = e + pe.len();
    let candidate = copy_range(text, start, end);
    match decode_envelope(&candidate) {
        Some(v) => Some(v),
        None => manual_extract_vec(text),
    }
}

/// The decision-engine adapter: salvage extraction over the engine's
/// diagnostic text.
#[derive(Debug, Clone)]
pub struct ExcedenciaDecisionEngine;

impl ExcedenciaDecisionEngine {
    pub fn new() -> Self {
        ExcedenciaDecisionEngine
    }

    /// The heuristic fallback: triggered only by the enum-membership phrase
    /// `is not one of`; reads the last `"message":"..."` and `"path":"..."`
    /// fragments out of the comma-split text, the path defaulting to the
    /// unknown-input sentinel.
    pub fn manual_extract_errors(text: &str) -> (r: Option<Vec<ValidationError>>)
        ensures
            match manual_extract_spec(text@) {
                Some(iv) => r matches Some(v) && issues_view(v@) == seq![iv],
                None => r is None,
            },
    {
        let tv = chars_of(text);
        manual_extract_vec(&tv)
    }

    /// The layered salvage cascade over a diagnostic text: marker-delimited
    /// envelope decoding in priority order, then the heuristic fallback.
    pub fn extract_json_from_string(text: &str) -> (r: Option<Vec<ValidationError>>)
        ensures
            match extract_spec(text@) {
                Some(issues) => r matches Some(v) && issues_view(v@) == issues,
                None => r is None,
            },
    {
        let tv = chars_of(text);
        let p1s = chars_of("{\"source\":{\"errors\":");
        let pve = chars_of("\"type\":\"Validation\"}");
        match try_stage(&tv, &p1s, &pve) {
            Some(v) => {
                return Some(v);
            },
            None => {},
        }
        let p2s = chars_of("{\"errors\":");
        match try_stage(&tv, &p2s, &pve) {
            Some(v) => {
                return Some(v);
            },
            None => {},
        }
        let p3s = chars_of("\"errors\":[");
        let p3e = chars_of("]");
        match try_stage(&tv, &p3s, &p3e) {
            Some(v) => {
                return Some(v);
            },
            None => {},
        }
        manual_extract_vec(&tv)
    }

    /// Salvage extraction from a rendered failure text.
    pub fn extract_from_error_string(error_str: &str) -> (r: Option<Vec<ValidationError>>)
        ensures
            match extract_spec(error_str@) {
                Some(issues) => r matches Some(v) && issues_view(v@) == issues,
                None => r is None,
            },
    {
        Self::extract_json_from_string(error_str)
    }
}

} // verus!
