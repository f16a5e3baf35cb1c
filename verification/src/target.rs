//! Parsing a probe target out of the server URL.
//!
//! The prober is handed the same URL text the child was told to bind,
//! `scheme://host:port`, and must pull the connectable `host:port` pair
//! back out of it: everything after the first `://`, cut at the first `/`,
//! then split at the first `:`, with the digits up to the next `:` (or the
//! end) read as the port.  Text that does not have this shape is a
//! malformed target: a programmer error, reported at once and never
//! retried.

use vstd::prelude::*;
use vstd::slice::slice_subrange;
use vstd::string::StringSliceAdditionalSpecFns;
use vstd::slice::slice_to_vec;

use crate::errors::ProbeResult;
use crate::numtext::all_dec_digits;
use crate::numtext::dec_value;
use crate::numtext::parse_port_bytes;

verus! {

/// Whether the three bytes of `://` stand at position `i` of `s`.
pub open spec fn scheme_sep_at(s: Seq<u8>, i: int) -> bool {
    i + 3 <= s.len() && s[i] == 58 && s[i + 1] == 47 && s[i + 2] == 47
}

/// The position of the first `://` at or after `i`, if any.
pub open spec fn find_scheme_sep_from(s: Seq<u8>, i: int) -> Option<int>
    decreases s.len() - i,
    when 0 <= i <= s.len()
{
    if i + 3 > s.len() {
        None
    } else if scheme_sep_at(s, i) {
        Some(i)
    } else {
        find_scheme_sep_from(s, i + 1)
    }
}

/// The position of the first byte `b` at or after `i` in `s`, if any.
pub open spec fn find_byte_from(s: Seq<u8>, b: u8, i: int) -> Option<int>
    decreases s.len() - i,
    when 0 <= i <= s.len()
{
    if i >= s.len() {
        None
    } else if s[i] == b {
        Some(i)
    } else {
        find_byte_from(s, b, i + 1)
    }
}

/// What the prober reads out of the URL bytes `s`: the host bytes and the
/// port number, or nothing when the text is malformed.
pub open spec fn spec_parse_target(s: Seq<u8>) -> Option<(Seq<u8>, u16)> {
    match find_scheme_sep_from(s, 0) {
        None => None,
        Some(k) => {
            let rest = s.subrange(k + 3, s.len() as int);
            let seg = match find_byte_from(rest, 47, 0) {
                None => rest,
                Some(j) => rest.subrange(0, j),
            };
            match find_byte_from(seg, 58, 0) {
                None => None,
                Some(c) => {
                    let host = seg.subrange(0, c);
                    let after = seg.subrange(c + 1, seg.len() as int);
                    let ptext = match find_byte_from(after, 58, 0) {
                        None => after,
                        Some(c2) => after.subrange(0, c2),
                    };
                    if ptext.len() > 0 && all_dec_digits(ptext) && dec_value(ptext) <= 65535 {
                        Some((host, dec_value(ptext) as u16))
                    } else {
                        None
                    }
                },
            }
        },
    }
}

/// A parsed probe target: the host to resolve and the port to connect to.
pub struct ProbeTarget {
    pub host: Vec<u8>,
    pub port: u16,
}

/// Find the first `://` in `s`.
fn find_scheme_sep(s: &[u8]) -> (r: Option<usize>)
    ensures
        match r {
            Some(j) => find_scheme_sep_from(s@, 0) == Some(j as int),
            None => find_scheme_sep_from(s@, 0) is None,
        },
{
    let mut i: usize = 0;
    loop
        invariant
            0 <= i <= s@.len(),
            find_scheme_sep_from(s@, 0) == find_scheme_sep_from(s@, i as int),
        decreases s@.len() - i,
    {
        if s.len() < 3 || i > s.len() - 3 {
            return None;
        }
        if s[i] == 58 && s[i + 1] == 47 && s[i + 2] == 47 {
            return Some(i);
        }
        i = i + 1;
    }
}

/// Find the first byte `b` in `s`.
fn find_byte(s: &[u8], b: u8) -> (r: Option<usize>)
    ensures
        match r {
            Some(j) => find_byte_from(s@, b, 0) == Some(j as int),
            None => find_byte_from(s@, b, 0) is None,
        },
{
    let mut i: usize = 0;
    loop
        invariant
            0 <= i <= s@.len(),
            find_byte_from(s@, b, 0) == find_byte_from(s@, b, i as int),
        decreases s@.len() - i,
    {
        if i >= s.len() {
            return None;
        }
        if s[i] == b {
            return Some(i);
        }
        i = i + 1;
    }
}

/// Read the connectable host and port out of the server URL.  Succeeds on
/// exactly the texts [`spec_parse_target`] accepts, with exactly the host
/// and port it gives, and answers `MalformedTarget` on every other text.
pub fn parse_probe_target(url: &str) -> (r: Result<ProbeTarget, ProbeResult>)
    ensures
        match r {
            Ok(t) => spec_parse_target(url.spec_bytes()) == Some((t.host@, t.port)),
            Err(e) => e == ProbeResult::MalformedTarget && spec_parse_target(url.spec_bytes())
                is None,
        },
{
    let b = url.as_bytes();
    let k = match find_scheme_sep(b) {
        Some(k) => k,
        None => {
            return Err(ProbeResult::MalformedTarget);
        },
    };
    let n = b.len();
    proof {
        lemma_find_scheme_sep_found(b@, 0, k as int);
        assert(k + 3 <= n);
    }
    let rest = slice_subrange(b, k + 3, n);
    let seg = match find_byte(rest, 47) {
        Some(j) => {
            proof {
                lemma_find_byte_found(rest@, 47, 0, j as int);
            }
            slice_subrange(rest, 0, j)
        },
        None => rest,
    };
    let c = match find_byte(seg, 58) {
        Some(c) => c,
        None => {
            return Err(ProbeResult::MalformedTarget);
        },
    };
    proof {
        lemma_find_byte_found(seg@, 58, 0, c as int);
    }
    let host_slice = slice_subrange(seg, 0, c);
    let after = slice_subrange(seg, c + 1, seg.len());
    let ptext = match find_byte(after, 58) {
        Some(c2) => {
            proof {
                lemma_find_byte_found(after@, 58, 0, c2 as int);
            }
            slice_subrange(after, 0, c2)
        },
        None => after,
    };
    match parse_port_bytes(ptext) {
        Some(p) => Ok(ProbeTarget { host: slice_to_vec(host_slice), port: p }),
        None => Err(ProbeResult::MalformedTarget),
    }
}

/// The search finds the separator at `k` when none stands before it.
pub proof fn lemma_find_scheme_sep_first(s: Seq<u8>, i: int, k: int)
    requires
        0 <= i <= k,
        scheme_sep_at(s, k),
        forall|j: int| i <= j < k ==> !scheme_sep_at(s, j),
    ensures
        find_scheme_sep_from(s, i) == Some(k),
    decreases k - i,
{
    if i < k {
        lemma_find_scheme_sep_first(s, i + 1, k);
    }
}

/// The search finds the byte at `k` when none stands before it.
pub proof fn lemma_find_byte_first(s: Seq<u8>, b: u8, i: int, k: int)
    requires
        0 <= i <= k < s.len(),
        s[k] == b,
        forall|j: int| i <= j < k ==> s[j] != b,
    ensures
        find_byte_from(s, b, i) == Some(k),
    decreases k - i,
{
    if i < k {
        lemma_find_byte_first(s, b, i + 1, k);
    }
}

/// The search finds nothing when the byte is nowhere in `s`.
pub proof fn lemma_find_byte_none(s: Seq<u8>, b: u8, i: int)
    requires
        0 <= i <= s.len(),
        forall|j: int| i <= j < s.len() ==> s[j] != b,
    ensures
        find_byte_from(s, b, i) is None,
    decreases s.len() - i,
{
    if i < s.len() {
        lemma_find_byte_none(s, b, i + 1);
    }
}

/// A found separator position is in range and carries the separator.
proof fn lemma_find_scheme_sep_found(s: Seq<u8>, i: int, j: int)
    requires
        0 <= i <= s.len(),
        find_scheme_sep_from(s, i) == Some(j),
    ensures
        i <= j,
        scheme_sep_at(s, j),
    decreases s.len() - i,
{
    if i + 3 > s.len() {
    } else if scheme_sep_at(s, i) {
    } else {
        lemma_find_scheme_sep_found(s, i + 1, j);
    }
}

/// A found byte position is in range and carries the byte.
proof fn lemma_find_byte_found(s: Seq<u8>, b: u8, i: int, j: int)
    requires
        0 <= i <= s.len(),
        find_byte_from(s, b, i) == Some(j),
    ensures
        i <= j < s.len(),
        s[j] == b,
    decreases s.len() - i,
{
    if i >= s.len() {
    } else if s[i] == b {
    } else {
        lemma_find_byte_found(s, b, i + 1, j);
    }
}

} // verus!
