//! HTTP header names and values, and the header map of an incoming request.

use vstd::prelude::*;

use crate::text::{
    ascii_lower_seq, chars_eq, chars_of, lower_chars, push_char,
};

verus! {

/// A character whose UTF-8 encoding `HeaderValue::from_str` accepts.
///
/// Every byte of a multi-byte encoding is at least 0x80, so only the
/// ASCII control characters other than tab are refused.
pub open spec fn value_char_ok(c: char) -> bool {
    ((c as u32) >= 32 && (c as u32) != 127) || c == '\t'
}

/// A string that `HeaderValue::from_str` accepts.
pub open spec fn header_value_valid(s: Seq<char>) -> bool {
    forall|i: int| 0 <= i < s.len() ==> value_char_ok(#[trigger] s[i])
}

/// A byte that `HeaderValue::to_str` accepts: visible ASCII or tab.
pub open spec fn visible_ascii(b: u8) -> bool {
    (32 <= b && b < 127) || b == 9
}

/// Header value bytes read as text, one character per byte.
pub open spec fn ascii_text(bytes: Seq<u8>) -> Seq<char> {
    bytes.map_values(|b: u8| (b as u32) as char)
}

/// The text of a header value, as `HeaderValue::to_str` gives it, or `None`
/// when the value holds bytes other than visible ASCII and tab.
pub open spec fn value_text(bytes: Seq<u8>) -> Option<Seq<char>> {
    if forall|i: int| 0 <= i < bytes.len() ==> visible_ascii(#[trigger] bytes[i]) {
        Some(ascii_text(bytes))
    } else {
        None
    }
}

/// A token character of a header name (RFC 9110 `tchar`).
pub open spec fn is_tchar(c: char) -> bool {
    ||| ('a' <= c && c <= 'z')
    ||| ('A' <= c && c <= 'Z')
    ||| ('0' <= c && c <= '9')
    ||| c == '!' || c == '#' || c == '$' || c == '%' || c == '&' || c == '\''
    ||| c == '*' || c == '+' || c == '-' || c == '.' || c == '^' || c == '_'
    ||| c == '`' || c == '|' || c == '~'
}

/// A string that `HeaderName::from_str` accepts.
pub open spec fn header_name_valid(s: Seq<char>) -> bool {
    &&& 1 <= s.len() <= 65535
    &&& forall|i: int| 0 <= i < s.len() ==> is_tchar(#[trigger] s[i])
}

/// Checks a string the way `HeaderValue::from_str` does.
pub fn is_valid_header_value(s: &str) -> (r: bool)
    ensures
        r == header_value_valid(s@),
{
    let v = chars_of(s);
    let mut i: usize = 0;
    while i < v.len()
        invariant
            v@ == s@,
            i <= v@.len(),
            forall|j: int| 0 <= j < i ==> value_char_ok(#[trigger] v@[j]),
        decreases v@.len() - i,
    {
        let u: u32 = v[i] as u32;
        if !((u >= 32 && u != 127) || v[i] == '\t') {
            return false;
        }
        i = i + 1;
    }
    true
}

/// Checks one header name character.
pub fn char_is_tchar(c: char) -> (r: bool)
    ensures
        r == is_tchar(c),
{
    ('a' <= c && c <= 'z') || ('A' <= c && c <= 'Z') || ('0' <= c && c <= '9') || c == '!' || c
        == '#' || c == '$' || c == '%' || c == '&' || c == '\'' || c == '*' || c == '+' || c == '-'
        || c == '.' || c == '^' || c == '_' || c == '`' || c == '|' || c == '~'
}

/// Checks a character slice the way `HeaderName::from_str` does.
pub fn is_valid_header_name_chars(v: &[char]) -> (r: bool)
    ensures
        r == header_name_valid(v@),
{
    if v.len() == 0 || v.len() > 65535 {
        return false;
    }
    let mut i: usize = 0;
    while i < v.len()
        invariant
            i <= v@.len(),
            forall|j: int| 0 <= j < i ==> is_tchar(#[trigger] v@[j]),
        decreases v@.len() - i,
    {
        if !char_is_tchar(v[i]) {
            return false;
        }
        i = i + 1;
    }
    true
}

/// Checks a string the way `HeaderName::from_str` does.
pub fn is_valid_header_name(s: &str) -> (r: bool)
    ensures
        r == header_name_valid(s@),
{
    let v = chars_of(s);
    is_valid_header_name_chars(v.as_slice())
}

/// Reads header value bytes as text, the way `HeaderValue::to_str` does.
pub fn value_to_text(bytes: &[u8]) -> (r: Option<String>)
    ensures
        match r {
            Some(s) => value_text(bytes@) == Some(s@),
            None => value_text(bytes@) is None,
        },
{
    let mut s = String::new();
    let mut i: usize = 0;
    while i < bytes.len()
        invariant
            i <= bytes@.len(),
            forall|j: int| 0 <= j < i ==> visible_ascii(#[trigger] bytes@[j]),
            s@ =~= ascii_text(bytes@.take(i as int)),
        decreases bytes@.len() - i,
    {
        let b = bytes[i];
        if !((32 <= b && b < 127) || b == 9) {
            assert(!visible_ascii(bytes@[i as int]));
            return None;
        }
        push_char(&mut s, b as char);
        i = i + 1;
        assert(s@ =~= ascii_text(bytes@.take(i as int)));
    }
    assert(bytes@.take(i as int) =~= bytes@);
    Some(s)
}

/// The headers of an incoming request, in arrival order.
///
/// Names are held in the lower-case form that `HeaderName::as_str` gives.
#[derive(Clone, Debug)]
pub struct RequestHeaders {
    /// Header entries: name and raw value bytes.
    pub entries: Vec<(String, Vec<u8>)>,
}

/// The abstract content of a header map: name and value of each entry.
pub open spec fn entries_view(entries: Seq<(String, Vec<u8>)>) -> Seq<(Seq<char>, Seq<u8>)> {
    entries.map_values(|e: (String, Vec<u8>)| (e.0@, e.1@))
}

impl View for RequestHeaders {
    type V = Seq<(Seq<char>, Seq<u8>)>;

    open spec fn view(&self) -> Seq<(Seq<char>, Seq<u8>)> {
        entries_view(self.entries@)
    }
}

/// Values of all entries named `key` (already lower-cased), in order.
pub open spec fn values_named(h: Seq<(Seq<char>, Seq<u8>)>, key: Seq<char>) -> Seq<Seq<u8>>
    decreases h.len(),
{
    if h.len() == 0 {
        Seq::empty()
    } else {
        let rest = values_named(h.drop_last(), key);
        if h.last().0 == key {
            rest.push(h.last().1)
        } else {
            rest
        }
    }
}

/// All values of a header, as `HeaderMap::get_all` gives them: none when the
/// name is not a valid header name, otherwise those of entries whose name is
/// the lower-cased `name`.
pub open spec fn header_values(h: Seq<(Seq<char>, Seq<u8>)>, name: Seq<char>) -> Seq<Seq<u8>> {
    if header_name_valid(name) {
        values_named(h, ascii_lower_seq(name))
    } else {
        Seq::empty()
    }
}

/// The first value of a header, as `HeaderMap::get` gives it.
pub open spec fn header_get(h: Seq<(Seq<char>, Seq<u8>)>, name: Seq<char>) -> Option<Seq<u8>> {
    let vs = header_values(h, name);
    if vs.len() > 0 {
        Some(vs[0])
    } else {
        None
    }
}

proof fn lemma_values_named_push(
    h: Seq<(Seq<char>, Seq<u8>)>,
    key: Seq<char>,
    e: (Seq<char>, Seq<u8>),
)
    ensures
        values_named(h.push(e), key) == if e.0 == key {
            values_named(h, key).push(e.1)
        } else {
            values_named(h, key)
        },
{
    assert(h.push(e).drop_last() =~= h);
}

impl RequestHeaders {
    /// An empty header map.
    pub fn new() -> (r: RequestHeaders)
        ensures
            r@ == Seq::<(Seq<char>, Seq<u8>)>::empty(),
    {
        let r = RequestHeaders { entries: Vec::new() };
        assert(r@ =~= Seq::<(Seq<char>, Seq<u8>)>::empty());
        r
    }

    /// Appends an entry, keeping the entries already present.
    pub fn append(&mut self, name: String, value: Vec<u8>)
        ensures
            final(self)@ == old(self)@.push((name@, value@)),
    {
        self.entries.push((name, value));
        assert(final(self)@ =~= old(self)@.push((name@, value@)));
    }

    /// All values of a header, in order, as `HeaderMap::get_all` gives them.
    pub fn get_all(&self, name: &str) -> (r: Vec<Vec<u8>>)
        ensures
            r@.len() == header_values(self@, name@).len(),
            forall|i: int|
                0 <= i < r@.len() ==> (#[trigger] r@[i])@ == header_values(self@, name@)[i],
    {
        let mut r: Vec<Vec<u8>> = Vec::new();
        let nv = chars_of(name);
        if !is_valid_header_name_chars(nv.as_slice()) {
            return r;
        }
        let key = lower_chars(nv.as_slice());
        let mut i: usize = 0;
        while i < self.entries.len()
            invariant
                i <= self.entries@.len(),
                key@ == ascii_lower_seq(name@),
                header_name_valid(name@),
                r@.len() == values_named(entries_view(self.entries@.take(i as int)), key@).len(),
                forall|j: int|
                    0 <= j < r@.len() ==> (#[trigger] r@[j])@ == values_named(
                        entries_view(self.entries@.take(i as int)),
                        key@,
                    )[j],
            decreases self.entries@.len() - i,
        {
            let entry = &self.entries[i];
            let en = chars_of(entry.0.as_str());
            proof {
                let prev = entries_view(self.entries@.take(i as int));
                assert(entries_view(self.entries@.take(i + 1)) =~= prev.push(
                    (self.entries@[i as int].0@, self.entries@[i as int].1@),
                ));
                lemma_values_named_push(
                    prev,
                    key@,
                    (self.entries@[i as int].0@, self.entries@[i as int].1@),
                );
            }
            if chars_eq(en.as_slice(), key.as_slice()) {
                r.push(entry.1.clone());
            }
            i = i + 1;
        }
        assert(self.entries@.take(i as int) =~= self.entries@);
        r
    }

    /// The first value of a header, as `HeaderMap::get` gives it.
    pub fn get(&self, name: &str) -> (r: Option<Vec<u8>>)
        ensures
            match r {
                Some(v) => header_get(self@, name@) == Some(v@),
                None => header_get(self@, name@) is None,
            },
    {
        let all = self.get_all(name);
        if all.len() > 0 {
            Some(all[0].clone())
        } else {
            None
        }
    }
}

} // verus!
