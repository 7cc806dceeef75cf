//! JSON-RPC response envelope handling: pulls the quoted `result` payload
//! out of a response body and strips an optional `0x` prefix.
use crate::types::PriceError;
use vstd::prelude::*;

verus! {

/// Whether the ten characters `"result":"` stand at position `i` of `s`.
pub open spec fn spec_marker_at(s: Seq<char>, i: int) -> bool {
    &&& 0 <= i
    &&& i + 10 <= s.len()
    &&& s[i] == '"'
    &&& s[i + 1] == 'r'
    &&& s[i + 2] == 'e'
    &&& s[i + 3] == 's'
    &&& s[i + 4] == 'u'
    &&& s[i + 5] == 'l'
    &&& s[i + 6] == 't'
    &&& s[i + 7] == '"'
    &&& s[i + 8] == ':'
    &&& s[i + 9] == '"'
}

/// The first position at or after `from` where the field marker stands.
pub open spec fn spec_find_marker(s: Seq<char>, from: int) -> Option<int>
    decreases s.len() - from,
{
    if from < 0 || from + 10 > s.len() {
        None
    } else if spec_marker_at(s, from) {
        Some(from)
    } else {
        spec_find_marker(s, from + 1)
    }
}

/// The first position at or after `from` holding a double quote.
pub open spec fn spec_find_quote(s: Seq<char>, from: int) -> Option<int>
    decreases s.len() - from,
{
    if from < 0 || from >= s.len() {
        None
    } else if s[from] == '"' {
        Some(from)
    } else {
        spec_find_quote(s, from + 1)
    }
}

/// The hex payload of a response body: the text between the quote that
/// follows the first `"result":"` marker and the next quote, with an
/// optional `0x` prefix dropped; `None` when the marker or the closing
/// quote is missing or the payload is empty.
pub open spec fn spec_extract_result(s: Seq<char>) -> Option<Seq<char>> {
    match spec_find_marker(s, 0) {
        None => None,
        Some(m) => match spec_find_quote(s, m + 10) {
            None => None,
            Some(e) => {
                let h = s.subrange(m + 10, e);
                if h.len() == 0 {
                    None
                } else if h.len() >= 2 && h[0] == '0' && h[1] == 'x' {
                    Some(h.skip(2))
                } else {
                    Some(h)
                }
            },
        },
    }
}

/// Whether the ten marker characters stand at position `i`, checked
/// character by character.
fn marker_at(s: &str, i: usize, len: usize) -> (r: bool)
    requires
        len == s@.len(),
        i + 10 <= len,
    ensures
        r == spec_marker_at(s@, i as int),
{
    s.get_char(i) == '"' && s.get_char(i + 1) == 'r' && s.get_char(i + 2) == 'e' && s.get_char(
        i + 3,
    ) == 's' && s.get_char(i + 4) == 'u' && s.get_char(i + 5) == 'l' && s.get_char(i + 6) == 't'
        && s.get_char(i + 7) == '"' && s.get_char(i + 8) == ':' && s.get_char(i + 9) == '"'
}

/// Extracts the hex payload of the `result` field from a JSON-RPC response
/// body. Fails with `MalformedEnvelope` exactly when the body has no
/// `"result":"` marker, no closing quote after it, or an empty payload.
pub fn extract_result_data(json: &str) -> (r: Result<String, PriceError>)
    ensures
        match r {
            Ok(out) => spec_extract_result(json@) == Some(out@),
            Err(e) => spec_extract_result(json@) is None && e == PriceError::MalformedEnvelope,
        },
{
    let len = json.unicode_len();
    if len < 10 {
        proof {
            lemma_find_marker_none(json@, 0);
        }
        return Err(PriceError::MalformedEnvelope);
    }
    let mut i: usize = 0;
    let mut found: Option<usize> = None;
    while i <= len - 10 && found.is_none()
        invariant
            len == json@.len(),
            len >= 10,
            i <= len - 10 + 1,
            match found {
                Some(m) => spec_find_marker(json@, 0) == Some(m as int) && m + 10 <= len,
                None => spec_find_marker(json@, 0) == spec_find_marker(json@, i as int),
            },
        decreases len - i + (if found.is_none() {
            1int
        } else {
            0int
        }),
    {
        if marker_at(json, i, len) {
            found = Some(i);
        } else {
            i = i + 1;
        }
    }
    let m = match found {
        Some(m) => m,
        None => {
            proof {
                lemma_find_marker_none(json@, i as int);
            }
            return Err(PriceError::MalformedEnvelope);
        },
    };
    // Look for the closing quote after the marker.
    let start = m + 10;
    let mut j: usize = start;
    let mut close: Option<usize> = None;
    while j < len && close.is_none()
        invariant
            len == json@.len(),
            start <= j <= len,
            match close {
                Some(e) => spec_find_quote(json@, start as int) == Some(e as int) && start <= e
                    < len,
                None => spec_find_quote(json@, start as int) == spec_find_quote(json@, j as int),
            },
        decreases len - j + (if close.is_none() {
            1int
        } else {
            0int
        }),
    {
        if json.get_char(j) == '"' {
            close = Some(j);
        } else {
            j = j + 1;
        }
    }
    let e = match close {
        Some(e) => e,
        None => {
            return Err(PriceError::MalformedEnvelope);
        },
    };
    if e == start {
        return Err(PriceError::MalformedEnvelope);
    }
    let payload = json.substring_char(start, e);
    let plen = e - start;
    if plen >= 2 && payload.get_char(0) == '0' && payload.get_char(1) == 'x' {
        let stripped = payload.substring_char(2, plen);
        proof {
            assert(stripped@ =~= json@.subrange(start as int, e as int).skip(2));
        }
        Ok(stripped.to_owned())
    } else {
        Ok(payload.to_owned())
    }
}

/// Past the last place a ten-character marker could start, the search
/// finds nothing.
proof fn lemma_find_marker_none(s: Seq<char>, from: int)
    requires
        from + 10 > s.len(),
    ensures
        spec_find_marker(s, from) is None,
    decreases s.len() - from,
{
}

} // verus!
