//! CORS policy: which origins and headers a handler allows, checked to be valid
//! HTTP header values and names.

use vstd::prelude::*;

use crate::duration::Duration;
use crate::headers::{header_name_valid, header_value_valid, is_valid_header_name, is_valid_header_value};
use crate::table::strings_view;
use crate::text::{ascii_lower_seq, chars_of, lower_chars, string_of, chars_eq};

verus! {

/// Error type returned by CORS module.
#[derive(Debug)]
pub enum CorsError {
    /// Invalid CORS origin: the offending value.
    InvalidOrigin(String),
    /// Invalid CORS header: the offending name.
    InvalidHeader(String),
}

impl CorsError {
    /// Human-readable message of the error.
    pub fn message(&self) -> (r: String)
        ensures
            r@ == match self {
                CorsError::InvalidOrigin(_) => "Invalid CORS origin"@,
                CorsError::InvalidHeader(_) => "Invalid CORS header"@,
            },
    {
        match self {
            CorsError::InvalidOrigin(_) => crate::text::owned("Invalid CORS origin"),
            CorsError::InvalidHeader(_) => crate::text::owned("Invalid CORS header"),
        }
    }
}

/// Allow either any value, or listed values.
#[derive(Clone, Debug, PartialEq, Eq)]
pub enum AnyOr<T> {
    /// Any value is allowed.
    Any,
    /// Only the listed values are allowed.
    List(Vec<T>),
}

impl<T> Default for AnyOr<T> {
    fn default() -> (r: AnyOr<T>)
        ensures
            r is Any,
    {
        AnyOr::Any
    }
}

/// The keyword that stands for [`AnyOr::Any`] in configuration.
pub const ANY_KEYWORD: &'static str = "any";

/// Whether a configuration string is the keyword for [`AnyOr::Any`], in any ASCII case.
pub open spec fn is_any_keyword(s: Seq<char>) -> bool {
    ascii_lower_seq(s) == ANY_KEYWORD@
}

/// Reads the string form of an [`AnyOr`]: the keyword `any` in any ASCII case
/// gives [`AnyOr::Any`]; any other string is refused.
pub fn any_or_from_str<T>(s: &str) -> (r: Option<AnyOr<T>>)
    ensures
        r is Some <==> is_any_keyword(s@),
        r matches Some(a) ==> a is Any,
{
    let v = chars_of(s);
    let lower = lower_chars(v.as_slice());
    let keyword = chars_of(ANY_KEYWORD);
    if chars_eq(lower.as_slice(), keyword.as_slice()) {
        Some(AnyOr::Any)
    } else {
        None
    }
}

/// CORS configuration for a handler.
#[derive(Clone, Debug)]
pub struct CorsConfig {
    /// Control `Access-Control-Allow-Origin` header.
    pub origins: AnyOr<String>,
    /// Control `Access-Control-Allow-Credentials` header.
    ///
    /// `false` excludes the header from response.
    pub credentials: bool,
    /// Control `Access-Control-Allow-Headers` header.
    pub headers: Option<AnyOr<String>>,
    /// Control `Access-Control-Max-Age` header.
    pub max_age: Option<Duration>,
}

impl Default for CorsConfig {
    fn default() -> (r: CorsConfig)
        ensures
            r.origins is Any,
            !r.credentials,
            r.headers is None,
            r.max_age is None,
    {
        CorsConfig { origins: AnyOr::Any, credentials: false, headers: None, max_age: None }
    }
}

/// A checked CORS policy: origins are valid header values and header names are
/// valid, lower-cased header names.
#[derive(Clone, Debug)]
pub struct CorsPolicy {
    /// Allowed origins.
    pub origins: AnyOr<String>,
    /// Whether credentials are allowed.
    pub credentials: bool,
    /// Allowed request headers, if the header is sent at all.
    pub headers: Option<AnyOr<String>>,
    /// Time a preflight response may be cached.
    pub max_age: Option<Duration>,
}

/// `i` is the first position whose item fails `ok`.
pub open spec fn is_first_failure(s: Seq<Seq<char>>, ok: spec_fn(Seq<char>) -> bool, i: int) -> bool {
    &&& 0 <= i < s.len()
    &&& !ok(s[i])
    &&& forall|j: int| 0 <= j < i ==> ok(#[trigger] s[j])
}

/// All items pass `ok`.
pub open spec fn all_ok(s: Seq<Seq<char>>, ok: spec_fn(Seq<char>) -> bool) -> bool {
    forall|i: int| 0 <= i < s.len() ==> ok(#[trigger] s[i])
}

/// The outcome of checking a list: the first item that fails, or nothing.
pub open spec fn first_failure(s: Seq<Seq<char>>, ok: spec_fn(Seq<char>) -> bool) -> Option<Seq<char>> {
    if all_ok(s, ok) {
        None
    } else {
        Some(s[choose|i: int| is_first_failure(s, ok, i)])
    }
}

/// Valid header values.
pub open spec fn value_ok() -> spec_fn(Seq<char>) -> bool {
    |s: Seq<char>| header_value_valid(s)
}

/// Valid header names.
pub open spec fn name_ok() -> spec_fn(Seq<char>) -> bool {
    |s: Seq<char>| header_name_valid(s)
}

proof fn lemma_first_failure_at(s: Seq<Seq<char>>, ok: spec_fn(Seq<char>) -> bool, i: int)
    requires
        is_first_failure(s, ok, i),
    ensures
        first_failure(s, ok) == Some(s[i]),
{
    let c = choose|c: int| is_first_failure(s, ok, c);
    if c < i {
        assert(ok(s[c]));
    } else if i < c {
        assert(ok(s[i]));
    }
}

/// Checks origins: the first that is not a valid header value, if any.
fn first_invalid_origin(origins: &Vec<String>) -> (r: Option<usize>)
    ensures
        match r {
            Some(i) => i < origins@.len() && first_failure(strings_view(origins@), value_ok()) == Some(origins@[i as int]@),
            None => first_failure(strings_view(origins@), value_ok()) is None,
        },
{
    let ghost s = strings_view(origins@);
    let mut i: usize = 0;
    while i < origins.len()
        invariant
            i <= origins@.len(),
            s == strings_view(origins@),
            forall|j: int| 0 <= j < i ==> (value_ok())(#[trigger] s[j]),
        decreases origins@.len() - i,
    {
        if !is_valid_header_value(origins[i].as_str()) {
            proof {
                assert(s[i as int] == origins@[i as int]@);
                lemma_first_failure_at(s, value_ok(), i as int);
            }
            return Some(i);
        }
        i = i + 1;
    }
    None
}

/// Checks header names: the first that is not a valid header name, if any; and
/// the lower-cased names when all are valid.
fn check_header_names(names: &Vec<String>) -> (r: Result<Vec<String>, usize>)
    ensures
        match r {
            Err(i) => i < names@.len() && first_failure(strings_view(names@), name_ok()) == Some(names@[i as int]@),
            Ok(lower) => first_failure(strings_view(names@), name_ok()) is None
                && strings_view(lower@) == strings_view(names@).map_values(|n: Seq<char>| ascii_lower_seq(n)),
        },
{
    let ghost s = strings_view(names@);
    let mut out: Vec<String> = Vec::new();
    let mut i: usize = 0;
    while i < names.len()
        invariant
            i <= names@.len(),
            s == strings_view(names@),
            forall|j: int| 0 <= j < i ==> (name_ok())(#[trigger] s[j]),
            out@.len() == i,
            forall|j: int| 0 <= j < i ==> (#[trigger] out@[j])@ == ascii_lower_seq(s[j]),
        decreases names@.len() - i,
    {
        let v = chars_of(names[i].as_str());
        if !is_valid_header_name(names[i].as_str()) {
            proof {
                assert(s[i as int] == names@[i as int]@);
                lemma_first_failure_at(s, name_ok(), i as int);
            }
            return Err(i);
        }
        let lower = lower_chars(v.as_slice());
        out.push(string_of(lower.as_slice()));
        i = i + 1;
    }
    assert(strings_view(out@) =~= s.map_values(|n: Seq<char>| ascii_lower_seq(n)));
    Ok(out)
}

/// Copies a list of strings.
fn copy_strings(v: &Vec<String>) -> (r: Vec<String>)
    ensures
        strings_view(r@) == strings_view(v@),
{
    let mut out: Vec<String> = Vec::new();
    let mut i: usize = 0;
    while i < v.len()
        invariant
            i <= v@.len(),
            out@.len() == i,
            forall|j: int| 0 <= j < i ==> (#[trigger] out@[j])@ == v@[j]@,
        decreases v@.len() - i,
    {
        out.push(crate::text::owned(v[i].as_str()));
        i = i + 1;
    }
    assert(strings_view(out@) =~= strings_view(v@));
    out
}

/// The abstract content of a string [`AnyOr`].
pub open spec fn any_or_view(a: AnyOr<String>) -> Option<Seq<Seq<char>>> {
    match a {
        AnyOr::Any => None,
        AnyOr::List(v) => Some(strings_view(v@)),
    }
}

impl CorsConfig {
    /// The error `make_layer` gives, if any: the first invalid origin, else the
    /// first invalid header name.
    pub open spec fn error_spec(&self) -> Option<(bool, Seq<char>)> {
        let origin_failure = match self.origins {
            AnyOr::Any => None,
            AnyOr::List(v) => first_failure(strings_view(v@), value_ok()),
        };
        let header_failure = match self.headers {
            Some(AnyOr::List(v)) => first_failure(strings_view(v@), name_ok()),
            _ => None,
        };
        match origin_failure {
            Some(o) => Some((true, o)),
            None => match header_failure {
                Some(h) => Some((false, h)),
                None => None,
            },
        }
    }

    /// Create the CORS policy for this configuration.
    ///
    /// # Errors
    ///
    /// Returns `Err` if an origin cannot be an HTTP header value, or a header name
    /// cannot be an HTTP header name.
    pub fn make_layer(&self) -> (r: Result<CorsPolicy, CorsError>)
        ensures
            match self.error_spec() {
                Some((true, o)) => r matches Err(CorsError::InvalidOrigin(v)) && v@ == o,
                Some((false, h)) => r matches Err(CorsError::InvalidHeader(v)) && v@ == h,
                None => r matches Ok(p) && any_or_view(p.origins) == any_or_view(self.origins)
                    && p.credentials == self.credentials
                    && p.max_age == self.max_age
                    && match self.headers {
                        None => p.headers is None,
                        Some(AnyOr::Any) => p.headers == Some(AnyOr::<String>::Any),
                        Some(AnyOr::List(v)) => p.headers matches Some(AnyOr::List(l))
                            && strings_view(l@) == strings_view(v@).map_values(|n: Seq<char>| ascii_lower_seq(n)),
                    },
            },
    {
        let origins = match &self.origins {
            AnyOr::Any => AnyOr::Any,
            AnyOr::List(v) => {
                match first_invalid_origin(v) {
                    Some(i) => return Err(CorsError::InvalidOrigin(crate::text::owned(v[i].as_str()))),
                    None => AnyOr::List(copy_strings(v)),
                }
            },
        };
        let headers = match &self.headers {
            None => None,
            Some(AnyOr::Any) => Some(AnyOr::Any),
            Some(AnyOr::List(v)) => {
                match check_header_names(v) {
                    Err(i) => return Err(CorsError::InvalidHeader(crate::text::owned(v[i].as_str()))),
                    Ok(lower) => Some(AnyOr::List(lower)),
                }
            },
        };
        Ok(CorsPolicy { origins, credentials: self.credentials, headers, max_age: self.max_age })
    }
}

} // verus!
