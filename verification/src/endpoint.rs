//! The endpoint the server is told to bind and the window is pointed at.

use vstd::prelude::*;

use crate::numtext::all_dec_digits;
use crate::numtext::ascii_bytes;
use crate::numtext::dec_chars;
use crate::numtext::dec_value;
use crate::numtext::lemma_dec_chars_are_digits;
use crate::numtext::lemma_dec_chars_value;
use crate::numtext::push_dec_u16;
use crate::target::lemma_find_byte_first;
use crate::target::lemma_find_byte_none;
use crate::target::lemma_find_scheme_sep_first;
use crate::target::scheme_sep_at;
use crate::target::spec_parse_target;

verus! {

/// The protocol part of the endpoint URL.
#[derive(Clone, Copy, Debug, PartialEq, Eq, Structural)]
pub enum Scheme {
    Http,
    Https,
}

impl Scheme {
    /// The characters the scheme is written with in a URL.
    pub open spec fn spec_chars(self) -> Seq<char> {
        match self {
            Scheme::Http => "http"@,
            Scheme::Https => "https"@,
        }
    }

    /// The scheme as URL text.
    pub fn as_str(&self) -> (r: &'static str)
        ensures
            r@ == self.spec_chars(),
    {
        match self {
            Scheme::Http => "http",
            Scheme::Https => "https",
        }
    }
}

/// Where the launched server can be reached.  Chosen once per run, from
/// the port the allocator found, and immutable afterwards.
pub struct Endpoint {
    pub scheme: Scheme,
    pub host: String,
    pub port: u16,
}

impl Endpoint {
    /// Port numbers start at 1; 0 is not a bindable endpoint.
    pub open spec fn wf(self) -> bool {
        self.port >= 1
    }

    /// The URL text `scheme://host:port` that names this endpoint.
    pub open spec fn spec_url(self) -> Seq<char> {
        self.scheme.spec_chars() + "://"@ + self.host@ + ":"@ + dec_chars(self.port as nat)
    }

    /// An HTTP endpoint on the loopback host name, as the supervisor
    /// builds for every allocated port.
    pub fn loopback_http(port: u16) -> (r: Endpoint)
        requires
            port >= 1,
        ensures
            r.wf(),
            r.scheme == Scheme::Http,
            r.host@ == "localhost"@,
            r.port == port,
    {
        Endpoint { scheme: Scheme::Http, host: String::from_str("localhost"), port }
    }

    /// Render the endpoint as the URL the child is told to serve and the
    /// window is navigated to.
    pub fn url(&self) -> (r: String)
        ensures
            r@ == self.spec_url(),
    {
        let mut s = String::new();
        s.append(self.scheme.as_str());
        s.append("://");
        s.append(self.host.as_str());
        s.append(":");
        push_dec_u16(&mut s, self.port);
        proof {
            assert(s@ =~= self.spec_url());
        }
        s
    }
}

/// The URL built for an endpoint parses back to exactly its host and
/// port: the address the window is navigated to is the address the
/// prober probes and the child was told to bind.  Holds for every
/// endpoint whose host is ASCII text free of `:` and `/`, as every host
/// the supervisor uses is.
pub proof fn lemma_url_parses_back(ep: Endpoint)
    requires
        ep.wf(),
        forall|i: int| 0 <= i < ep.host@.len() ==> ((#[trigger] ep.host@[i]) as u32) < 128,
        forall|i: int|
            0 <= i < ep.host@.len() ==> ((#[trigger] ep.host@[i]) as u32) != 58 && (
            ep.host@[i] as u32) != 47,
    ensures
        spec_parse_target(ascii_bytes(ep.spec_url())) == Some((ascii_bytes(ep.host@), ep.port)),
{
    reveal_strlit("http");
    reveal_strlit("https");
    reveal_strlit("://");
    reveal_strlit(":");
    let u = ascii_bytes(ep.spec_url());
    let sc = ascii_bytes(ep.scheme.spec_chars());
    let hb = ascii_bytes(ep.host@);
    let db = ascii_bytes(dec_chars(ep.port as nat));
    let k = sc.len() as int;
    lemma_dec_chars_are_digits(ep.port as nat);
    lemma_dec_chars_value(ep.port as nat);
    assert(u =~= sc + seq![58u8, 47u8, 47u8] + hb + seq![58u8] + db);
    assert(forall|j: int| 0 <= j < k ==> #[trigger] sc[j] != 58);
    assert(scheme_sep_at(u, k));
    assert forall|j: int| 0 <= j < k implies !scheme_sep_at(u, j) by {
        assert(u[j] == sc[j]);
    }
    lemma_find_scheme_sep_first(u, 0, k);
    let rest = u.subrange(k + 3, u.len() as int);
    assert(rest =~= hb + seq![58u8] + db);
    assert forall|j: int| 0 <= j < rest.len() implies #[trigger] rest[j] != 47 by {
        if j < hb.len() {
            assert(rest[j] == hb[j]);
            assert((ep.host@[j] as u32) < 128 && (ep.host@[j] as u32) != 47);
            assert(hb[j] as u32 == ep.host@[j] as u32);
        } else if j > hb.len() {
            assert(rest[j] == db[j - hb.len() - 1]);
            assert(48 <= dec_chars(ep.port as nat)[j - hb.len() - 1] as u32 <= 57);
        }
    }
    lemma_find_byte_none(rest, 47, 0);
    let c = hb.len() as int;
    assert(rest[c] == 58);
    assert forall|j: int| 0 <= j < c implies #[trigger] rest[j] != 58 by {
        assert(rest[j] == hb[j]);
        assert((ep.host@[j] as u32) < 128 && (ep.host@[j] as u32) != 58);
        assert(hb[j] as u32 == ep.host@[j] as u32);
    }
    lemma_find_byte_first(rest, 58, 0, c);
    let host = rest.subrange(0, c);
    assert(host =~= hb);
    let after = rest.subrange(c + 1, rest.len() as int);
    assert(after =~= db);
    assert forall|j: int| 0 <= j < after.len() implies #[trigger] after[j] != 58 by {
        assert(after[j] == db[j]);
        assert(48 <= dec_chars(ep.port as nat)[j] as u32 <= 57);
    }
    lemma_find_byte_none(after, 58, 0);
    assert(after.len() > 0 && all_dec_digits(after) && dec_value(after) == ep.port);
}

/// The round trip for the endpoints the supervisor builds: the URL of a
/// loopback HTTP endpoint parses back to the loopback host and the very
/// port the allocator chose.
pub proof fn lemma_loopback_url_parses_back(ep: Endpoint)
    requires
        ep.wf(),
        ep.host@ == "localhost"@,
    ensures
        spec_parse_target(ascii_bytes(ep.spec_url())) == Some((ascii_bytes("localhost"@), ep.port)),
{
    reveal_strlit("localhost");
    lemma_url_parses_back(ep);
}

} // verus!
