//! Finding the identifier of a video in an address.
//!
//! An identifier is eleven characters out of the letters, the digits, `_`
//! and `-`. It is looked for behind the two characters `v=` and behind any
//! `/`; the leftmost place at which one stands is taken, and nothing is
//! asked of what follows the eleven characters.

use crate::error::{outcome_of, Fault, ServiceError};
use crate::text::chars_of;
use vstd::prelude::*;

verus! {

/// Whether `c` may occur in a video identifier.
pub open spec fn is_id_char(c: char) -> bool {
    ('0' <= c <= '9') || ('A' <= c <= 'Z') || ('a' <= c <= 'z') || c == '_' || c == '-'
}

/// Whether eleven identifier characters stand in `s` from `start` on.
pub open spec fn id_run(s: Seq<char>, start: int) -> bool {
    &&& 0 <= start
    &&& start + 11 <= s.len()
    &&& forall|k: int| 0 <= k < 11 ==> is_id_char(#[trigger] s[start + k])
}

/// Whether the pattern starts at `i`: `v=` or `/`, then an identifier.
pub open spec fn matches_at(s: Seq<char>, i: int) -> bool {
    &&& 0 <= i < s.len()
    &&& {
        ||| s[i] == 'v' && i + 1 < s.len() && s[i + 1] == '=' && id_run(s, i + 2)
        ||| s[i] == '/' && id_run(s, i + 1)
    }
}

/// Where the identifier starts when the pattern starts at `i`.
pub open spec fn id_start(s: Seq<char>, i: int) -> int {
    if s[i] == 'v' {
        i + 2
    } else {
        i + 1
    }
}

/// The leftmost place at or after `from` at which the pattern starts.
pub open spec fn scan(s: Seq<char>, from: int) -> Option<int>
    decreases s.len() - from,
{
    if from < 0 || from >= s.len() {
        None
    } else if matches_at(s, from) {
        Some(from)
    } else {
        scan(s, from + 1)
    }
}

/// The identifier of the video that `url` names, if it names one.
pub open spec fn video_id_of(url: Seq<char>) -> Option<Seq<char>> {
    match scan(url, 0) {
        Some(i) => Some(url.subrange(id_start(url, i), id_start(url, i) + 11)),
        None => None,
    }
}

/// `scan` finds the leftmost place, and finds none only where there is none.
pub proof fn lemma_scan_is_leftmost(s: Seq<char>, from: int)
    requires
        0 <= from,
    ensures
        match scan(s, from) {
            Some(i) => from <= i && matches_at(s, i) && forall|j: int|
                from <= j < i ==> !matches_at(s, j),
            None => forall|j: int| from <= j ==> !matches_at(s, j),
        },
    decreases s.len() - from,
{
    if from < s.len() && !matches_at(s, from) {
        lemma_scan_is_leftmost(s, from + 1);
    }
}

/// An identifier that stands behind `v=`, with no earlier place at which the
/// pattern starts, is the identifier found.
pub proof fn lemma_watch_parameter_is_found(url: Seq<char>, i: int)
    requires
        0 <= i,
        i + 13 <= url.len(),
        url[i] == 'v',
        url[i + 1] == '=',
        forall|k: int| 0 <= k < 11 ==> is_id_char(#[trigger] url[i + 2 + k]),
        forall|j: int| 0 <= j < i ==> !matches_at(url, j),
    ensures
        video_id_of(url) == Some(url.subrange(i + 2, i + 13)),
{
    assert(matches_at(url, i));
    lemma_scan_is_leftmost(url, 0);
}

/// The address of a watch page, with any identifier and anything behind it,
/// gives that identifier.
pub proof fn lemma_watch_url_gives_its_id(id: Seq<char>, rest: Seq<char>)
    requires
        id.len() == 11,
        forall|k: int| 0 <= k < 11 ==> is_id_char(#[trigger] id[k]),
    ensures
        video_id_of("https://www.youtube.com/watch?v="@ + id + rest) == Some(id),
{
    let lead = "https://www.youtube.com/watch?v="@;
    let url = lead + id + rest;
    reveal_strlit("https://www.youtube.com/watch?v=");
    assert forall|j: int| 0 <= j < 32 implies url[j] == lead[j] by {}
    assert forall|k: int| 0 <= k < 11 implies is_id_char(#[trigger] url[30 + 2 + k]) by {}
    assert forall|j: int| 0 <= j < 30 implies !matches_at(url, j) by {
        if j == 6 {
            assert(url[j + 1 + 0] == '/');
        } else if j == 7 {
            assert(url[j + 1 + 3] == '.');
        } else if j == 23 {
            assert(url[j + 1 + 5] == '?');
        }
    }
    lemma_watch_parameter_is_found(url, 30);
}

/// An address that holds eleven identifier characters in a row nowhere names
/// no video.
pub proof fn lemma_no_run_no_id(url: Seq<char>)
    requires
        forall|i: int| !id_run(url, i),
    ensures
        video_id_of(url) is None,
{
    lemma_scan_is_leftmost(url, 0);
}

/// An address of fewer than twelve characters names no video.
pub proof fn lemma_short_url_has_no_id(url: Seq<char>)
    requires
        url.len() < 12,
    ensures
        video_id_of(url) is None,
{
    lemma_scan_is_leftmost(url, 0);
}

/// An address with no `/` in it and no `v=` names no video.
pub proof fn lemma_no_anchor_no_id(url: Seq<char>)
    requires
        forall|i: int| 0 <= i < url.len() ==> #[trigger] url[i] != '/',
        forall|i: int| 0 <= i < url.len() - 1 ==> !(#[trigger] url[i] == 'v' && url[i + 1] == '='),
    ensures
        video_id_of(url) is None,
{
    lemma_scan_is_leftmost(url, 0);
}

/// Decides `is_id_char`.
pub fn id_char(c: char) -> (r: bool)
    ensures
        r == is_id_char(c),
{
    ('0' <= c && c <= '9') || ('A' <= c && c <= 'Z') || ('a' <= c && c <= 'z') || c == '_' || c
        == '-'
}

fn run_at(v: &Vec<char>, start: usize) -> (r: bool)
    ensures
        r == id_run(v@, start as int),
{
    if v.len() < 11 || start > v.len() - 11 {
        return false;
    }
    let mut k: usize = 0;
    while k < 11
        invariant
            k <= 11,
            start + 11 <= v.len(),
            forall|m: int| 0 <= m < k ==> is_id_char(#[trigger] v@[start + m]),
        decreases 11 - k,
    {
        if !id_char(v[start + k]) {
            return false;
        }
        k += 1;
    }
    true
}

/// The identifier of the video that an address names, or the error that
/// says it names none.
pub open spec fn extracted(url: Seq<char>) -> Result<Seq<char>, Fault> {
    match video_id_of(url) {
        Some(id) => Ok(id),
        None => Err(Fault::InvalidUrl),
    }
}

/// Finds the identifier of the video that `url` names.
pub fn extract_video_id(url: &str) -> (r: Result<String, ServiceError>)
    ensures
        outcome_of(r) == extracted(url@),
{
    let v = chars_of(url);
    let mut i: usize = 0;
    while i < v.len()
        invariant
            i <= v.len(),
            v@ == url@,
            scan(v@, 0) == scan(v@, i as int),
        decreases v.len() - i,
    {
        let c = v[i];
        if c == 'v' {
            if i + 1 < v.len() && v[i + 1] == '=' && run_at(&v, i + 2) {
                return Ok(url.substring_char(i + 2, i + 13).to_owned());
            }
        } else if c == '/' {
            if run_at(&v, i + 1) {
                return Ok(url.substring_char(i + 1, i + 12).to_owned());
            }
        }
        i += 1;
    }
    Err(ServiceError::InvalidUrl)
}

} // verus!
