//! The route table: registered URI patterns with their handler actions.
//! A registered path may hold `{...}` parameters, which become regex
//! wildcards; dispatch picks the first registered pattern that matches the
//! request URI, falling back to the `/404` route.

use vstd::prelude::*;
use vstd::string::StringExecFns;

verus! {

/// Whether `regex::Regex::new` accepts `pattern`; a function of the
/// pattern alone.
pub uninterp spec fn regex_compiles(pattern: Seq<char>) -> bool;

/// Whether the compiled `pattern` matches anywhere in `text`; a function
/// of pattern and text alone.
pub uninterp spec fn regex_matches(pattern: Seq<char>, text: Seq<char>) -> bool;

/// The registered path with each `{...}` parameter rewritten to a
/// wildcard; a function of the path alone.
pub uninterp spec fn brace_wildcarded(path: Seq<char>) -> Seq<char>;

/// Relies on `regex::Regex::new` and `regex::Regex::is_match`: whether
/// the pattern compiles depends on the pattern alone, and whether it
/// matches depends on pattern and text alone.
#[verifier::external_body]
fn regex_match(pattern: &str, text: &str) -> (r: Option<bool>)
    ensures
        (r is Some) == regex_compiles(pattern@),
        (match r {
            Some(m) => m == regex_matches(pattern@, text@),
            None => true,
        }),
{
    match regex::Regex::new(pattern) {
        Ok(re) => Some(re.is_match(text)),
        Err(_) => None,
    }
}

/// Relies on `regex::Regex::replace_all` with the fixed pattern
/// `(?P<first>\{.+?\})`, which rewrites each brace-delimited path
/// parameter to the wildcard `.+?`; `Regex::new` cannot fail on this
/// fixed pattern.
#[verifier::external_body]
fn wildcard_braces(path: &str) -> (r: String)
    ensures
        r@ == brace_wildcarded(path@),
{
    let re = regex::Regex::new(r"(?P<first>\{.+?\})").unwrap();
    re.replace_all(path, ".+?").into_owned()
}

/// The anchored pattern a registered path is stored as.
pub open spec fn spec_route_pattern(path: Seq<char>) -> Seq<char> {
    "^"@ + brace_wildcarded(path) + "/?$"@
}

/// A stored route pattern matches a URI when it compiles and the URI
/// matches it.
pub open spec fn spec_route_matches(pattern: Seq<char>, uri: Seq<char>) -> bool {
    regex_compiles(pattern) && regex_matches(pattern, uri)
}

/// One registered route: its stored URI pattern and the action that
/// renders its response.  The action is whatever the host wires in — a
/// handler function, a template name — and dispatch never inspects it.
pub struct Route<A> {
    pub path: String,
    pub render_action: A,
}

/// The registered routes, in registration order.
pub struct Routes<A> {
    routes: Vec<Route<A>>,
}

/// Index of the first route at or after `i` whose stored pattern matches
/// `uri`; `rs.len()` if none does.
pub open spec fn spec_first_match_from<A>(rs: Seq<Route<A>>, uri: Seq<char>, i: int) -> int
    decreases rs.len() - i,
    when 0 <= i <= rs.len()
{
    if i >= rs.len() {
        rs.len() as int
    } else if spec_route_matches(rs[i].path@, uri) {
        i
    } else {
        spec_first_match_from(rs, uri, i + 1)
    }
}

impl<A> Routes<A> {
    /// The stored routes, for contracts.
    pub closed spec fn routes_seq(&self) -> Seq<Route<A>> {
        self.routes@
    }

    /// A table holding only the fallback `/404` route, wired to the given
    /// not-found action.
    pub fn new(not_found_action: A) -> (r: Routes<A>)
        ensures
            r.routes_seq().len() == 1,
            r.routes_seq()[0].path@ == spec_route_pattern("/404"@),
            r.routes_seq()[0].render_action == not_found_action,
    {
        let mut routes = Routes { routes: Vec::new() };
        routes.add_route(Route { path: String::from_str("/404"), render_action: not_found_action });
        routes
    }

    /// Registers a route: its path's `{...}` parameters become wildcards
    /// and the whole pattern is anchored with an optional trailing slash.
    pub fn add_route(&mut self, route: Route<A>)
        ensures
            final(self).routes_seq().len() == old(self).routes_seq().len() + 1,
            final(self).routes_seq().last().path@ == spec_route_pattern(route.path@),
            final(self).routes_seq().last().render_action == route.render_action,
            forall|k: int| 0 <= k < old(self).routes_seq().len()
                ==> final(self).routes_seq()[k] == old(self).routes_seq()[k],
    {
        let wildcarded: String = wildcard_braces(route.path.as_str());
        let mut pattern: String = String::from_str("^");
        pattern.append(wildcarded.as_str());
        pattern.append("/?$");
        self.routes.push(Route { path: pattern, render_action: route.render_action });
    }

    /// The first registered route whose pattern matches `uri`; when none
    /// does, the first whose pattern matches `/404`; `None` when neither
    /// exists.
    #[verifier::loop_isolation(false)]
    pub fn get_route<'a>(&'a self, uri: &str) -> (r: Option<&'a Route<A>>)
        ensures
            (match r {
                Some(rt) => {
                    let k = spec_first_match_from(self.routes_seq(), uri@, 0);
                    let k4 = spec_first_match_from(self.routes_seq(), "/404"@, 0);
                    if k < self.routes_seq().len() {
                        *rt == self.routes_seq()[k]
                    } else {
                        k4 < self.routes_seq().len() && *rt == self.routes_seq()[k4]
                    }
                },
                None => {
                    &&& spec_first_match_from(self.routes_seq(), uri@, 0)
                        == self.routes_seq().len()
                    &&& spec_first_match_from(self.routes_seq(), "/404"@, 0)
                        == self.routes_seq().len()
                },
            }),
    {
        let n: usize = self.routes.len();
        let mut i: usize = 0;
        while i < n
            invariant
                i <= n,
                spec_first_match_from(self.routes_seq(), uri@, 0) == spec_first_match_from(
                    self.routes_seq(),
                    uri@,
                    i as int,
                ),
            decreases n - i,
        {
            let matched: Option<bool> = regex_match(self.routes[i].path.as_str(), uri);
            if let Some(true) = matched {
                return Some(&self.routes[i]);
            }
            i = i + 1;
        }
        let mut t: usize = 0;
        while t < n
            invariant
                t <= n,
                spec_first_match_from(self.routes_seq(), "/404"@, 0) == spec_first_match_from(
                    self.routes_seq(),
                    "/404"@,
                    t as int,
                ),
            decreases n - t,
        {
            let matched: Option<bool> = regex_match(self.routes[t].path.as_str(), "/404");
            if let Some(true) = matched {
                return Some(&self.routes[t]);
            }
            t = t + 1;
        }
        None
    }
}

/// The fallback response body for an unroutable URI.
pub fn not_found_body() -> (r: String)
    ensures
        r@ == "404 Not Found"@,
{
    String::from_str("404 Not Found")
}

} // verus!
