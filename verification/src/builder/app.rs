//! Application assembly: routes from registered handlers, the layers each handler
//! gets, and the `Server` header.

use vstd::prelude::*;

use crate::config::HandlerConfig;
use crate::headers::{header_value_valid, is_valid_header_value};
use crate::layers::buffer::HandlerBufferConfig;
use crate::layers::cors::{CorsPolicy};
use crate::layers::rate::HandlerRateLimitConfig;
use crate::layers::timeout::HandlerTimeoutConfig;
use crate::table::{find_key, first_key, strings_view};
use crate::text::{concat_str, owned, str_eq};

verus! {

/// Product token of this framework, as sent in `Server` and `User-Agent` headers.
pub const UXUM_PRODUCT: &'static str = "uxum/0.1.0";

/// HTTP methods handlers are registered for.
#[derive(Clone, Debug, PartialEq, Eq)]
pub enum HttpMethod {
    Get,
    Head,
    Post,
    Put,
    Delete,
    Options,
    Trace,
    Patch,
    /// Any other method, by name; handlers cannot be registered for it.
    Other(String),
}

/// What the application knows of a registered handler.
#[derive(Clone, Debug)]
pub struct HandlerInfo {
    /// Unique handler name.
    pub name: String,
    /// Route path.
    pub path: String,
    /// Path as written in the API specification.
    pub spec_path: String,
    /// HTTP method.
    pub method: HttpMethod,
    /// Permissions required to call the handler.
    pub permissions: Vec<String>,
    /// Serve the handler without authentication.
    pub no_auth: bool,
}

/// Errors of assembling an application.
#[derive(Debug)]
pub enum AppBuilderError {
    /// Two handlers share a name.
    DuplicateHandlerName(String),
    /// No configuration for a named HTTP client.
    HttpClientAbsent(String),
}

/// A path and the handlers (by position) that serve it.
#[derive(Clone, Debug)]
pub struct RouteGroup {
    /// Route path.
    pub path: String,
    /// Positions of the handlers on this path, in registration order.
    pub handlers: Vec<usize>,
}

/// The abstract content of route groups.
pub open spec fn groups_view(g: Seq<RouteGroup>) -> Seq<(Seq<char>, Seq<int>)> {
    g.map_values(|r: RouteGroup| (r.path@, r.handlers@.map_values(|i: usize| i as int)))
}

/// `k` is the first group of path `p`.
pub open spec fn is_group_of(g: Seq<(Seq<char>, Seq<int>)>, p: Seq<char>, k: int) -> bool {
    &&& 0 <= k < g.len()
    &&& g[k].0 == p
    &&& forall|j: int| 0 <= j < k ==> (#[trigger] g[j]).0 != p
}

/// Handlers grouped by path: paths in order of first appearance, each with the
/// positions of its handlers in order.
pub open spec fn group_spec(paths: Seq<Seq<char>>) -> Seq<(Seq<char>, Seq<int>)>
    decreases paths.len(),
{
    if paths.len() == 0 {
        Seq::empty()
    } else {
        let g = group_spec(paths.drop_last());
        let i = paths.len() - 1;
        let p = paths.last();
        if exists|k: int| is_group_of(g, p, k) {
            let k = choose|k: int| is_group_of(g, p, k);
            g.update(k, (g[k].0, g[k].1.push(i)))
        } else {
            g.push((p, seq![i]))
        }
    }
}

proof fn lemma_group_of_unique(g: Seq<(Seq<char>, Seq<int>)>, p: Seq<char>, a: int, b: int)
    requires
        is_group_of(g, p, a),
        is_group_of(g, p, b),
    ensures
        a == b,
{
    if a < b {
        assert(g[a].0 != p);
    } else if b < a {
        assert(g[b].0 != p);
    }
}

/// Finds the group of a path.
fn find_group(groups: &Vec<RouteGroup>, path: &str) -> (r: Option<usize>)
    ensures
        match r {
            Some(k) => is_group_of(groups_view(groups@), path@, k as int),
            None => forall|j: int| 0 <= j < groups@.len() ==> (#[trigger] groups_view(groups@)[j]).0 != path@,
        },
{
    let ghost gv = groups_view(groups@);
    let mut k: usize = 0;
    while k < groups.len()
        invariant
            k <= groups@.len(),
            gv == groups_view(groups@),
            forall|j: int| 0 <= j < k ==> (#[trigger] gv[j]).0 != path@,
        decreases groups@.len() - k,
    {
        assert(gv[k as int].0 == groups@[k as int].path@);
        if str_eq(groups[k].path.as_str(), path) {
            return Some(k);
        }
        k = k + 1;
    }
    None
}

/// Groups handler paths.
pub fn group_by_path(paths: &Vec<String>) -> (r: Vec<RouteGroup>)
    requires
        paths@.len() < usize::MAX,
    ensures
        groups_view(r@) == group_spec(strings_view(paths@)),
{
    let ghost pv = strings_view(paths@);
    let mut groups: Vec<RouteGroup> = Vec::new();
    let mut i: usize = 0;
    assert(pv.take(0) =~= Seq::<Seq<char>>::empty());
    assert(groups_view(groups@) =~= group_spec(pv.take(0)));
    while i < paths.len()
        invariant
            i <= paths@.len() < usize::MAX,
            pv == strings_view(paths@),
            groups_view(groups@) == group_spec(pv.take(i as int)),
        decreases paths@.len() - i,
    {
        let ghost gv = groups_view(groups@);
        proof {
            assert(pv.take(i + 1).drop_last() =~= pv.take(i as int));
            assert(pv.take(i + 1).last() == paths@[i as int]@);
        }
        let found_at = find_group(&groups, paths[i].as_str());
        if let Some(k) = found_at {
            proof {
                let c = choose|c: int| is_group_of(gv, paths@[i as int]@, c);
                lemma_group_of_unique(gv, paths@[i as int]@, k as int, c);
            }
            let mut g = groups.remove(k);
            let ghost before_handlers = g.handlers@;
            g.handlers.push(i);
            assert(g.handlers@.map_values(|x: usize| x as int) =~= before_handlers.map_values(|x: usize| x as int).push(i as int));
            groups.insert(k, g);
            proof {
                let want = gv.update(k as int, (gv[k as int].0, gv[k as int].1.push(i as int)));
                assert(groups_view(groups@) =~= want);
            }
        } else {
            proof {
                assert(!exists|c: int| is_group_of(gv, paths@[i as int]@, c));
            }
            let mut hs: Vec<usize> = Vec::new();
            hs.push(i);
            assert(hs@.map_values(|x: usize| x as int) =~= seq![i as int]);
            groups.push(RouteGroup { path: owned(paths[i].as_str()), handlers: hs });
            proof {
                let want = gv.push((paths@[i as int]@, seq![i as int]));
                assert(groups_view(groups@) =~= want);
            }
        }
        i = i + 1;
    }
    assert(pv.take(i as int) =~= pv);
    groups
}

/// Handler `i` is listed in some group.
pub open spec fn in_some_group(g: Seq<(Seq<char>, Seq<int>)>, i: int) -> bool {
    exists|k: int, j: int| 0 <= k < g.len() && 0 <= j < g[k].1.len() && #[trigger] g[k].1[j] == i
}

/// Grouping by path partitions the handlers: group paths are distinct, every
/// handler is in exactly one group, the one of its path, and each group lists its
/// handlers in registration order.
pub proof fn law_route_groups_partition(paths: Seq<Seq<char>>)
    ensures
        ({
            let g = group_spec(paths);
            &&& forall|a: int, b: int| 0 <= a < b < g.len() ==> (#[trigger] g[a]).0 != (#[trigger] g[b]).0
            &&& forall|k: int, j: int| 0 <= k < g.len() && 0 <= j < (#[trigger] g[k]).1.len()
                ==> 0 <= #[trigger] g[k].1[j] < paths.len() && paths[g[k].1[j]] == g[k].0
            &&& forall|k: int| 0 <= k < g.len() ==> (#[trigger] g[k]).1.len() > 0
            &&& forall|k: int, a: int, b: int| 0 <= k < g.len() && 0 <= a < b < g[k].1.len()
                ==> #[trigger] g[k].1[a] < #[trigger] g[k].1[b]
            &&& forall|i: int| 0 <= i < paths.len() ==> #[trigger] in_some_group(g, i)
        }),
    decreases paths.len(),
{
    if paths.len() > 0 {
        let prev = paths.drop_last();
        law_route_groups_partition(prev);
        let g = group_spec(prev);
        let n = paths.len() - 1;
        let p = paths.last();
        assert forall|i: int| 0 <= i < prev.len() implies paths[i] == prev[i] by {}
        if exists|k: int| is_group_of(g, p, k) {
            let k = choose|k: int| is_group_of(g, p, k);
            let h = g.update(k, (g[k].0, g[k].1.push(n)));
            assert(group_spec(paths) == h);
            assert forall|kk: int, j: int| 0 <= kk < h.len() && 0 <= j < (#[trigger] h[kk]).1.len()
                implies 0 <= #[trigger] h[kk].1[j] < paths.len() && paths[h[kk].1[j]] == h[kk].0 by {
                if kk == k && j == g[k].1.len() {
                } else {
                    assert(h[kk].1[j] == g[kk].1[j]);
                }
            }
            assert forall|kk: int, a: int, b: int| 0 <= kk < h.len() && 0 <= a < b < h[kk].1.len()
                implies #[trigger] h[kk].1[a] < #[trigger] h[kk].1[b] by {
                if kk == k && b == g[k].1.len() {
                    assert(0 <= g[k].1[a] < prev.len());
                } else {
                    assert(h[kk].1[a] == g[kk].1[a] && h[kk].1[b] == g[kk].1[b]);
                }
            }
            assert forall|i: int| 0 <= i < paths.len() implies #[trigger] in_some_group(h, i) by {
                if i == n {
                    assert(h[k].1[g[k].1.len() as int] == n);
                } else {
                    assert(in_some_group(g, i));
                    let (kk, j) = choose|kk: int, j: int| 0 <= kk < g.len() && 0 <= j < g[kk].1.len() && #[trigger] g[kk].1[j] == i;
                    assert(h[kk].1[j] == i);
                }
            }
        } else {
            let h = g.push((p, seq![n]));
            assert(group_spec(paths) == h);
            assert forall|j: int| 0 <= j < g.len() implies (#[trigger] g[j]).0 != p by {
                if g[j].0 == p {
                    assert forall|jj: int| 0 <= jj < j implies (#[trigger] g[jj]).0 != p by {
                        assert(g[jj].0 != g[j].0);
                    }
                    assert(is_group_of(g, p, j));
                }
            }
            assert forall|a: int, b: int| 0 <= a < b < h.len() implies (#[trigger] h[a]).0 != (#[trigger] h[b]).0 by {
                if b == g.len() {
                    assert(g[a].0 != p);
                }
            }
            assert forall|kk: int, j: int| 0 <= kk < h.len() && 0 <= j < (#[trigger] h[kk]).1.len()
                implies 0 <= #[trigger] h[kk].1[j] < paths.len() && paths[h[kk].1[j]] == h[kk].0 by {
                if kk < g.len() {
                    assert(h[kk] == g[kk]);
                }
            }
            assert forall|i: int| 0 <= i < paths.len() implies #[trigger] in_some_group(h, i) by {
                if i == n {
                    assert(h[g.len() as int].1[0] == n);
                } else {
                    assert(in_some_group(g, i));
                    let (kk, j) = choose|kk: int, j: int| 0 <= kk < g.len() && 0 <= j < g[kk].1.len() && #[trigger] g[kk].1[j] == i;
                    assert(h[kk] == g[kk]);
                    assert(h[kk].1[j] == i);
                }
            }
        }
    }
}

/// `i` is the first handler whose name was already taken by an earlier one.
pub open spec fn is_first_duplicate(names: Seq<Seq<char>>, i: int) -> bool {
    &&& 0 <= i < names.len()
    &&& exists|j: int| 0 <= j < i && names[j] == names[i]
    &&& forall|a: int, b: int| 0 <= a < b < i ==> names[a] != names[b]
}

/// Names are all distinct.
pub open spec fn names_distinct(names: Seq<Seq<char>>) -> bool {
    forall|a: int, b: int| 0 <= a < b < names.len() ==> names[a] != names[b]
}

/// Checks handler names for uniqueness: the position of the first name that repeats
/// an earlier one, if any.
pub fn first_duplicate_name(names: &Vec<String>) -> (r: Option<usize>)
    ensures
        match r {
            Some(i) => is_first_duplicate(strings_view(names@), i as int),
            None => names_distinct(strings_view(names@)),
        },
{
    let ghost nv = strings_view(names@);
    let mut i: usize = 0;
    while i < names.len()
        invariant
            i <= names@.len(),
            nv == strings_view(names@),
            forall|a: int, b: int| 0 <= a < b < i ==> nv[a] != nv[b],
        decreases names@.len() - i,
    {
        let mut j: usize = 0;
        while j < i
            invariant
                j <= i < names@.len(),
                nv == strings_view(names@),
                forall|a: int| 0 <= a < j ==> nv[a] != nv[i as int],
                forall|a: int, b: int| 0 <= a < b < i ==> nv[a] != nv[b],
            decreases i - j,
        {
            assert(nv[j as int] == names@[j as int]@ && nv[i as int] == names@[i as int]@);
            if str_eq(names[j].as_str(), names[i].as_str()) {
                assert(0 <= j < i && nv[j as int] == nv[i as int]);
                assert(is_first_duplicate(nv, i as int));
                return Some(i);
            }
            j = j + 1;
        }
        i = i + 1;
    }
    None
}

/// Routes of an application: handlers grouped by path, or the error for the first
/// repeated handler name.
pub fn plan_routes(handlers: &Vec<HandlerInfo>) -> (r: Result<Vec<RouteGroup>, AppBuilderError>)
    requires
        handlers@.len() < usize::MAX,
    ensures
        match r {
            Err(e) => exists|i: int| is_first_duplicate(handler_names(handlers@), i)
                && (e matches AppBuilderError::DuplicateHandlerName(n) && n@ == handler_names(handlers@)[i]),
            Ok(g) => names_distinct(handler_names(handlers@)) && groups_view(g@) == group_spec(handler_paths(handlers@)),
        },
{
    let mut names: Vec<String> = Vec::new();
    let mut paths: Vec<String> = Vec::new();
    let mut i: usize = 0;
    while i < handlers.len()
        invariant
            i <= handlers@.len(),
            names@.len() == i && paths@.len() == i,
            forall|j: int| 0 <= j < i ==> (#[trigger] names@[j])@ == handlers@[j].name@,
            forall|j: int| 0 <= j < i ==> (#[trigger] paths@[j])@ == handlers@[j].path@,
        decreases handlers@.len() - i,
    {
        names.push(owned(handlers[i].name.as_str()));
        paths.push(owned(handlers[i].path.as_str()));
        i = i + 1;
    }
    assert(strings_view(names@) =~= handler_names(handlers@));
    assert(strings_view(paths@) =~= handler_paths(handlers@));
    match first_duplicate_name(&names) {
        Some(i) => Err(AppBuilderError::DuplicateHandlerName(owned(names[i].as_str()))),
        None => Ok(group_by_path(&paths)),
    }
}

/// Names of handlers.
pub open spec fn handler_names(h: Seq<HandlerInfo>) -> Seq<Seq<char>> {
    h.map_values(|x: HandlerInfo| x.name@)
}

/// Paths of handlers.
pub open spec fn handler_paths(h: Seq<HandlerInfo>) -> Seq<Seq<char>> {
    h.map_values(|x: HandlerInfo| x.path@)
}

/// Whether configuration disables a handler.
pub open spec fn disabled_by(configs: Seq<(String, HandlerConfig)>, name: Seq<char>) -> bool {
    first_key(configs, name) matches Some(k) && configs[k].1.disabled
}

/// Handlers of a route group that configuration does not disable; none when all are.
pub fn enabled_handlers(
    group: &RouteGroup,
    handlers: &Vec<HandlerInfo>,
    configs: &Vec<(String, HandlerConfig)>,
) -> (r: Option<Vec<usize>>)
    requires
        forall|j: int| 0 <= j < group.handlers@.len() ==> (#[trigger] group.handlers@[j]) < handlers@.len(),
    ensures
        match r {
            None => forall|j: int| 0 <= j < group.handlers@.len()
                ==> disabled_by(configs@, handlers@[(#[trigger] group.handlers@[j]) as int].name@),
            Some(v) => v@.len() > 0 && v@ == group.handlers@.filter(|h: usize| !disabled_by(configs@, handlers@[h as int].name@)),
        },
{
    let ghost keep = |h: usize| !disabled_by(configs@, handlers@[h as int].name@);
    let mut out: Vec<usize> = Vec::new();
    let mut j: usize = 0;
    while j < group.handlers.len()
        invariant
            j <= group.handlers@.len(),
            forall|x: int| 0 <= x < group.handlers@.len() ==> (#[trigger] group.handlers@[x]) < handlers@.len(),
            keep == (|h: usize| !disabled_by(configs@, handlers@[h as int].name@)),
            out@ == group.handlers@.take(j as int).filter(keep),
        decreases group.handlers@.len() - j,
    {
        let h = group.handlers[j];
        let disabled = match find_key(configs, handlers[h].name.as_str()) {
            Some(k) => configs[k].1.disabled,
            None => false,
        };
        proof {
            assert(group.handlers@.take(j + 1).drop_last() =~= group.handlers@.take(j as int));
        }
        if !disabled {
            out.push(h);
        }
        proof {
            let t = group.handlers@.take(j + 1);
            assert(t.last() == h);
            assert(disabled == !keep(h));
            assert(t =~= group.handlers@.take(j as int).push(h));
            group.handlers@.take(j as int).lemma_filter_push(h, keep);
        }
        j = j + 1;
    }
    assert(group.handlers@.take(j as int) =~= group.handlers@);
    if out.len() == 0 {
        proof {
            assert forall|x: int| 0 <= x < group.handlers@.len() implies disabled_by(configs@, handlers@[(#[trigger] group.handlers@[x]) as int].name@) by {
                if !disabled_by(configs@, handlers@[group.handlers@[x] as int].name@) {
                    group.handlers@.lemma_filter_contains_rev(keep, group.handlers@[x]);
                    assert(out@.contains(group.handlers@[x]));
                }
            }
        }
        None
    } else {
        Some(out)
    }
}

/// A product token for an application: `<name>/<version> uxum/…`, `<name> uxum/…`,
/// or the framework's own token alone when the application has no name.
pub open spec fn product_text(app_name: Option<Seq<char>>, app_version: Option<Seq<char>>) -> Seq<char> {
    match app_name {
        Some(n) => match app_version {
            Some(v) => n + "/"@ + v + " "@ + UXUM_PRODUCT@,
            None => n + " "@ + UXUM_PRODUCT@,
        },
        None => UXUM_PRODUCT@,
    }
}

/// The value of a `Server` or `User-Agent` header for an application; none when
/// the text cannot be a header value.
pub fn product_header(app_name: Option<&str>, app_version: Option<&str>) -> (r: Option<String>)
    ensures
        match r {
            Some(v) => header_value_valid(v@) && v@ == product_text(
                match app_name { Some(n) => Some(n@), None => None },
                match app_version { Some(v) => Some(v@), None => None },
            ),
            None => !header_value_valid(product_text(
                match app_name { Some(n) => Some(n@), None => None },
                match app_version { Some(v) => Some(v@), None => None },
            )),
        },
{
    let text = match app_name {
        Some(n) => match app_version {
            Some(v) => {
                let a = concat_str(n, "/");
                let b = concat_str(a.as_str(), v);
                let c = concat_str(b.as_str(), " ");
                concat_str(c.as_str(), UXUM_PRODUCT)
            },
            None => {
                let a = concat_str(n, " ");
                concat_str(a.as_str(), UXUM_PRODUCT)
            },
        },
        None => owned(UXUM_PRODUCT),
    };
    if is_valid_header_value(text.as_str()) {
        Some(text)
    } else {
        None
    }
}

/// Layers a handler's service is wrapped in.
#[derive(Debug)]
pub struct HandlerLayerPlan {
    /// Permissions to check, unless the handler is served without authentication.
    pub auth_permissions: Option<Vec<String>>,
    /// Request buffer.
    pub buffer: Option<HandlerBufferConfig>,
    /// Rate limit.
    pub rate_limit: Option<HandlerRateLimitConfig>,
    /// CORS policy, when one is configured and valid.
    pub cors: Option<CorsPolicy>,
    /// Timeouts, when a timeout can apply.
    pub timeout: Option<HandlerTimeoutConfig>,
}

/// Copies a list of strings.
fn copy_strings(v: &Vec<String>) -> (r: Vec<String>)
    ensures
        strings_view(r@) == strings_view(v@),
{
    let mut out: Vec<String> = Vec::new();
    let mut i: usize = 0;
    while i < v.len()
        invariant
            i <= v@.len(),
            out@.len() == i,
            forall|j: int| 0 <= j < i ==> (#[trigger] out@[j])@ == v@[j]@,
        decreases v@.len() - i,
    {
        out.push(owned(v[i].as_str()));
        i = i + 1;
    }
    assert(strings_view(out@) =~= strings_view(v@));
    out
}

/// The layers for a handler from its registration and configuration.
pub fn layer_plan(handler: &HandlerInfo, config: Option<&HandlerConfig>) -> (r: HandlerLayerPlan)
    ensures
        match r.auth_permissions {
            None => handler.no_auth,
            Some(p) => !handler.no_auth && strings_view(p@) == strings_view(handler.permissions@),
        },
        r.buffer == match config { Some(c) => c.buffer, None => None },
        r.rate_limit == match config { Some(c) => c.rate_limit, None => None },
        (r.cors is Some) ==> (config matches Some(c) && c.cors matches Some(cc) && cc.error_spec() is None),
        (config matches Some(c) && c.cors matches Some(cc) && cc.error_spec() is None) ==> r.cors is Some,
        match config {
            Some(c) => r.timeout == if c.timeout.use_x_timeout || c.timeout.default_timeout is Some { Some(c.timeout) } else { None },
            None => r.timeout == Some(HandlerTimeoutConfig { use_x_timeout: true, default_timeout: None, min_timeout: None, max_timeout: None }),
        },
{
    let auth_permissions = if handler.no_auth {
        None
    } else {
        Some(copy_strings(&handler.permissions))
    };
    match config {
        None => HandlerLayerPlan {
            auth_permissions,
            buffer: None,
            rate_limit: None,
            cors: None,
            timeout: Some(HandlerTimeoutConfig::default()),
        },
        Some(c) => {
            let cors = match &c.cors {
                None => None,
                Some(cc) => match cc.make_layer() {
                    Ok(p) => Some(p),
                    Err(_) => None,
                },
            };
            let timeout = if c.timeout.use_x_timeout || c.timeout.default_timeout.is_some() {
                Some(c.timeout)
            } else {
                None
            };
            HandlerLayerPlan { auth_permissions, buffer: c.buffer, rate_limit: c.rate_limit, cors, timeout }
        },
    }
}

} // verus!
