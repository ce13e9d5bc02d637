//! Registry of negotiable codec identifiers.
//!
//! Each codec parses from one or more case-insensitive MIME-style
//! aliases; any string outside the alias table is rejected.

use vstd::prelude::*;

verus! {

/// A negotiable encoded media format.
#[derive(Clone, Copy, Debug, PartialEq, Eq, Structural)]
pub enum MediaType {
    H264,
    VP8,
    VP9,
    Opus,
    G722,
    Mulaw,
    Alaw,
}

/// ASCII-case-folded value of a character: uppercase ASCII letters map
/// to their lowercase counterpart, every other character to itself.
pub open spec fn fold_char(c: char) -> int {
    if 65 <= c as int && c as int <= 90 {
        c as int + 32
    } else {
        c as int
    }
}

/// Two character sequences are equal up to ASCII case.
pub open spec fn eq_ignore_case(a: Seq<char>, b: Seq<char>) -> bool {
    a.len() == b.len() && forall|i: int| 0 <= i < a.len() ==> fold_char(a[i]) == fold_char(b[i])
}

/// The alias table: which codec, if any, a MIME-style string denotes.
pub open spec fn parse_media_type(s: Seq<char>) -> Option<MediaType> {
    if eq_ignore_case(s, "video/H264"@) || eq_ignore_case(s, "video/x-h264"@) {
        Some(MediaType::H264)
    } else if eq_ignore_case(s, "video/VP8"@) {
        Some(MediaType::VP8)
    } else if eq_ignore_case(s, "video/VP9"@) {
        Some(MediaType::VP9)
    } else if eq_ignore_case(s, "audio/opus"@) || eq_ignore_case(s, "audio/x-opus"@) {
        Some(MediaType::Opus)
    } else if eq_ignore_case(s, "audio/G722"@) {
        Some(MediaType::G722)
    } else if eq_ignore_case(s, "audio/PCMU"@) || eq_ignore_case(s, "audio/x-mulaw"@) {
        Some(MediaType::Mulaw)
    } else if eq_ignore_case(s, "audio/PCMA"@) || eq_ignore_case(s, "audio/alaw"@) {
        Some(MediaType::Alaw)
    } else {
        None
    }
}

/// Rejection of a MIME-style string outside the alias table,
/// carrying the offending string.
#[derive(Clone, Debug, PartialEq, Eq)]
pub struct MediaTypeParseError {
    pub input: String,
}

fn fold_char_exec(c: char) -> (r: u32)
    ensures
        r as int == fold_char(c),
{
    let v = c as u32;
    if 65 <= v && v <= 90 {
        v + 32
    } else {
        v
    }
}

/// Whether two strings are equal up to ASCII case.
fn str_eq_ignore_case(a: &str, b: &str) -> (r: bool)
    ensures
        r == eq_ignore_case(a@, b@),
{
    let an = a.unicode_len();
    let bn = b.unicode_len();
    if an != bn {
        return false;
    }
    let mut i: usize = 0;
    while i < an
        invariant
            an == a@.len(),
            bn == b@.len(),
            an == bn,
            i <= an,
            forall|j: int| 0 <= j < i ==> fold_char(a@[j]) == fold_char(b@[j]),
        decreases an - i,
    {
        if fold_char_exec(a.get_char(i)) != fold_char_exec(b.get_char(i)) {
            return false;
        }
        i = i + 1;
    }
    true
}

impl MediaType {
    /// Parses a MIME-style string into the codec it denotes, matching
    /// the alias table case-insensitively; any unrecognized string is
    /// rejected with an error naming it.
    pub fn from_mime_str(s: &str) -> (r: Result<MediaType, MediaTypeParseError>)
        ensures
            match r {
                Ok(m) => parse_media_type(s@) == Some(m),
                Err(e) => parse_media_type(s@) is None && e.input@ == s@,
            },
    {
        if str_eq_ignore_case(s, "video/H264") || str_eq_ignore_case(s, "video/x-h264") {
            Ok(MediaType::H264)
        } else if str_eq_ignore_case(s, "video/VP8") {
            Ok(MediaType::VP8)
        } else if str_eq_ignore_case(s, "video/VP9") {
            Ok(MediaType::VP9)
        } else if str_eq_ignore_case(s, "audio/opus") || str_eq_ignore_case(s, "audio/x-opus") {
            Ok(MediaType::Opus)
        } else if str_eq_ignore_case(s, "audio/G722") {
            Ok(MediaType::G722)
        } else if str_eq_ignore_case(s, "audio/PCMU") || str_eq_ignore_case(s, "audio/x-mulaw") {
            Ok(MediaType::Mulaw)
        } else if str_eq_ignore_case(s, "audio/PCMA") || str_eq_ignore_case(s, "audio/alaw") {
            Ok(MediaType::Alaw)
        } else {
            Err(MediaTypeParseError { input: s.to_owned() })
        }
    }
}

/// Parsing depends only on the case-folded characters: two strings
/// that are equal up to ASCII case parse to the same codec, or both
/// fail.
pub proof fn lemma_parse_case_insensitive(a: Seq<char>, b: Seq<char>)
    requires
        eq_ignore_case(a, b),
    ensures
        parse_media_type(a) == parse_media_type(b),
{
    assert forall|t: Seq<char>| eq_ignore_case(a, t) implies eq_ignore_case(b, t) by {
        assert(forall|i: int| 0 <= i < b.len() ==> fold_char(b[i]) == fold_char(a[i]));
    }
    assert forall|t: Seq<char>| eq_ignore_case(b, t) implies eq_ignore_case(a, t) by {
        assert(forall|i: int| 0 <= i < a.len() ==> fold_char(a[i]) == fold_char(b[i]));
    }
}

} // verus!
