//! Keys that rate limiting groups requests by: client addresses taken from
//! forwarding headers or from the connection.

use vstd::prelude::*;

use crate::headers::{value_text, value_to_text};
use crate::text::{chars_of, split_all, split_spec, string_of, trim, trim_spec, pieces_view};

verus! {

/// Name of the header carrying the original client address set by a proxy.
pub const X_REAL_IP: &'static str = "x-real-ip";

/// Name of the header carrying the chain of client and proxy addresses.
pub const X_FORWARDED_FOR: &'static str = "x-forwarded-for";

/// Error type returned by key extractors.
#[derive(Clone, Copy, Debug, PartialEq, Eq, Structural)]
pub struct ExtractionError;

impl ExtractionError {
    /// Human-readable message of the error.
    pub fn message(&self) -> (r: String)
        ensures
            r@ == "Unable to extract rate-limiting key from request"@,
    {
        crate::text::owned("Unable to extract rate-limiting key from request")
    }
}

/// An IP address as a plain number: IPv4 as 32 bits, IPv6 as 128 bits.
#[derive(Clone, Copy, Debug, PartialEq, Eq, Structural, Hash)]
pub enum IpKey {
    /// IPv4 address.
    V4(u32),
    /// IPv6 address.
    V6(u128),
}

/// The address candidates of an `X-Forwarded-For` value: its text split at commas,
/// each piece trimmed of white space; none when the value is not visible ASCII.
pub open spec fn forwarded_for_spec(value: Seq<u8>) -> Option<Seq<Seq<char>>> {
    match value_text(value) {
        None => None,
        Some(text) => Some(split_spec(text, ',').map_values(|p: Seq<char>| trim_spec(p))),
    }
}

/// The address candidates of an `X-Forwarded-For` header value, in order; the
/// first one that parses as an IP address is the client.
pub fn forwarded_for_candidates(value: &[u8]) -> (r: Option<Vec<String>>)
    ensures
        match r {
            None => forwarded_for_spec(value@) is None,
            Some(v) => forwarded_for_spec(value@) == Some(v@.map_values(|s: String| s@)),
        },
{
    let text = match value_to_text(value) {
        Some(t) => t,
        None => return None,
    };
    let chars = chars_of(text.as_str());
    let pieces = split_all(chars.as_slice(), ',');
    let ghost spec_pieces = split_spec(chars@, ',');
    let mut out: Vec<String> = Vec::new();
    let mut i: usize = 0;
    while i < pieces.len()
        invariant
            i <= pieces@.len(),
            pieces_view(pieces@) == spec_pieces,
            out@.len() == i,
            forall|j: int| 0 <= j < i ==> (#[trigger] out@[j])@ == trim_spec(spec_pieces[j]),
        decreases pieces@.len() - i,
    {
        let t = trim(pieces[i].as_slice());
        out.push(string_of(t.as_slice()));
        i = i + 1;
    }
    assert(out@.map_values(|s: String| s@) =~= spec_pieces.map_values(|p: Seq<char>| trim_spec(p)));
    Some(out)
}

/// The text of an `X-Real-IP` header value, to be parsed as one IP address; none
/// when the value is not visible ASCII.
pub fn real_ip_candidate(value: &[u8]) -> (r: Option<String>)
    ensures
        match r {
            None => value_text(value@) is None,
            Some(s) => value_text(value@) == Some(s@),
        },
{
    value_to_text(value)
}

/// Whether position `i` holds the first address of a list of parse results.
pub open spec fn is_first_ip(s: Seq<Option<IpKey>>, i: int) -> bool {
    &&& 0 <= i < s.len()
    &&& s[i] is Some
    &&& forall|j: int| 0 <= j < i ==> (#[trigger] s[j]) is None
}

/// The first address among parse results, in order; none when nothing parsed.
pub open spec fn first_ip_spec(s: Seq<Option<IpKey>>) -> Option<IpKey> {
    if exists|i: int| is_first_ip(s, i) {
        s[choose|i: int| is_first_ip(s, i)]
    } else {
        None
    }
}

/// The first candidate that parsed as an IP address: the client of an
/// `X-Forwarded-For` chain (each candidate parsed by the caller, in order).
pub fn first_ip(parsed: &Vec<Option<IpKey>>) -> (r: Option<IpKey>)
    ensures
        r == first_ip_spec(parsed@),
        r is None <==> forall|j: int| 0 <= j < parsed@.len() ==> (#[trigger] parsed@[j]) is None,
{
    let mut i: usize = 0;
    while i < parsed.len()
        invariant
            i <= parsed@.len(),
            forall|j: int| 0 <= j < i ==> (#[trigger] parsed@[j]) is None,
        decreases parsed@.len() - i,
    {
        if parsed[i].is_some() {
            proof {
                assert(is_first_ip(parsed@, i as int));
                let c = choose|c: int| is_first_ip(parsed@, c);
                if c < i {
                    assert(parsed@[c] is None);
                } else if c > i {
                    assert(parsed@[i as int] is None);
                }
            }
            return parsed[i];
        }
        i = i + 1;
    }
    None
}

/// What the `for=` parameter of one element of a `Forwarded` header names.
#[derive(Clone, Copy, Debug, PartialEq, Eq, Structural)]
pub enum ForwardedFor {
    /// The element has no `for=` parameter.
    Absent,
    /// An IP address, with or without a port.
    Ip(IpKey),
    /// An obfuscated or unknown identifier.
    Hidden,
}

/// The address an element names, if it names one.
pub open spec fn forwarded_for_ip(f: ForwardedFor) -> Option<IpKey> {
    match f {
        ForwardedFor::Ip(k) => Some(k),
        _ => None,
    }
}

/// The client address of `Forwarded` headers: the first element, over all values in
/// order, whose `for=` parameter names an IP address (each value parsed by the
/// caller into its elements, in order; values that do not parse give none).
pub fn forwarded_ip(elements: &Vec<ForwardedFor>) -> (r: Option<IpKey>)
    ensures
        r == first_ip_spec(elements@.map_values(|f: ForwardedFor| forwarded_for_ip(f))),
{
    let ghost s = elements@.map_values(|f: ForwardedFor| forwarded_for_ip(f));
    let mut parsed: Vec<Option<IpKey>> = Vec::new();
    let mut i: usize = 0;
    while i < elements.len()
        invariant
            i <= elements@.len(),
            s == elements@.map_values(|f: ForwardedFor| forwarded_for_ip(f)),
            parsed@ == s.take(i as int),
        decreases elements@.len() - i,
    {
        let k = match elements[i] {
            ForwardedFor::Ip(k) => Some(k),
            _ => None,
        };
        parsed.push(k);
        proof {
            assert(s.take(i + 1) =~= s.take(i as int).push(k));
        }
        i = i + 1;
    }
    assert(s.take(i as int) =~= s);
    first_ip(&parsed)
}

/// The client address of a request, trying in turn the `X-Forwarded-For` header,
/// the `X-Real-IP` header, the `Forwarded` header and the connection's peer address.
pub fn smart_ip_key(
    forwarded_for: Option<IpKey>,
    real_ip: Option<IpKey>,
    forwarded: Option<IpKey>,
    peer: Option<IpKey>,
) -> (r: Result<IpKey, ExtractionError>)
    ensures
        r == match forwarded_for {
            Some(k) => Ok(k),
            None => match real_ip {
                Some(k) => Ok(k),
                None => match forwarded {
                    Some(k) => Ok(k),
                    None => match peer {
                        Some(k) => Ok(k),
                        None => Err(ExtractionError),
                    },
                },
            },
        },
{
    match forwarded_for {
        Some(k) => Ok(k),
        None => match real_ip {
            Some(k) => Ok(k),
            None => match forwarded {
                Some(k) => Ok(k),
                None => peer_ip_key(peer),
            },
        },
    }
}

/// The client address of a request from the connection's peer address alone.
pub fn peer_ip_key(peer: Option<IpKey>) -> (r: Result<IpKey, ExtractionError>)
    ensures
        r == match peer {
            Some(k) => Ok::<IpKey, ExtractionError>(k),
            None => Err(ExtractionError),
        },
{
    match peer {
        Some(k) => Ok(k),
        None => Err(ExtractionError),
    }
}

} // verus!
