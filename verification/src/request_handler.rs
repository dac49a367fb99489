//! Route resolution and the decisions around forwarding: which rule serves a
//! request, what is sent to the backend, and which response the caller gets.
use vstd::prelude::*;
use crate::message::{
    bad_target_text, is_substitute, no_route_text, not_found_text, plugin_failed_text, Request,
    Response, STATUS_BAD_TARGET, STATUS_NOT_FOUND, STATUS_NO_ROUTE, STATUS_PLUGIN_FAILED,
};
use crate::pattern::{
    compile_pattern, parses_as_uri, pattern_compiles, pattern_matches, regex_is_match,
    uri_is_valid,
};
use crate::request_filter::{filter_request, pipeline_result, PluginFailure};
use crate::rewrite::{rewrite, rewrite_target};
use crate::settings::{duplicate_plugins, plugin_views, rule_views, RequestPlugins, RuleSpec, SvcDetails};

verus! {

/// Mathematical model of a resolution.
pub ghost enum RouteSpec {
    /// The rule at this place is the first whose pattern matches.
    Matched(int),
    /// Every pattern compiles and none matches.
    Unmatched,
    /// The rule at this place has a pattern that does not compile, and no
    /// rule before it matches.
    BadPattern(int),
}

/// The result of looking a URI up in the route table.
#[derive(Debug)]
pub enum Resolution {
    Matched(usize),
    Unmatched,
    BadPattern(usize),
}

impl View for Resolution {
    type V = RouteSpec;

    open spec fn view(&self) -> RouteSpec {
        match *self {
            Resolution::Matched(i) => RouteSpec::Matched(i as int),
            Resolution::Unmatched => RouteSpec::Unmatched,
            Resolution::BadPattern(i) => RouteSpec::BadPattern(i as int),
        }
    }
}

/// Resolution over the rules from place `from` on: the rules are consulted in
/// declaration order, and the first whose pattern does not compile or matches
/// the URI ends the lookup.
pub open spec fn resolve_from(table: Seq<RuleSpec>, uri: Seq<char>, from: int) -> RouteSpec
    decreases table.len() - from,
{
    if from < 0 || from >= table.len() {
        RouteSpec::Unmatched
    } else if !pattern_compiles(table[from].pattern) {
        RouteSpec::BadPattern(from)
    } else if pattern_matches(table[from].pattern, uri) {
        RouteSpec::Matched(from)
    } else {
        resolve_from(table, uri, from + 1)
    }
}

/// Resolution of `uri` in `table`.
pub open spec fn resolve_route(table: Seq<RuleSpec>, uri: Seq<char>) -> RouteSpec {
    resolve_from(table, uri, 0)
}

/// What a resolution says of the table: the place it names is the earliest
/// that decides, every rule before it compiles and does not match.
pub proof fn lemma_resolution_meaning(table: Seq<RuleSpec>, uri: Seq<char>, from: int)
    requires
        0 <= from,
    ensures
        match resolve_from(table, uri, from) {
            RouteSpec::Matched(i) => {
                &&& from <= i < table.len()
                &&& pattern_compiles(table[i].pattern)
                &&& pattern_matches(table[i].pattern, uri)
                &&& forall|j: int|
                    from <= j < i ==> pattern_compiles(#[trigger] table[j].pattern)
                        && !pattern_matches(table[j].pattern, uri)
            },
            RouteSpec::BadPattern(i) => {
                &&& from <= i < table.len()
                &&& !pattern_compiles(table[i].pattern)
                &&& forall|j: int|
                    from <= j < i ==> pattern_compiles(#[trigger] table[j].pattern)
                        && !pattern_matches(table[j].pattern, uri)
            },
            RouteSpec::Unmatched => forall|j: int|
                from <= j < table.len() ==> pattern_compiles(#[trigger] table[j].pattern)
                    && !pattern_matches(table[j].pattern, uri),
        },
    decreases table.len() - from,
{
    if from < table.len() && pattern_compiles(table[from].pattern) && !pattern_matches(
        table[from].pattern,
        uri,
    ) {
        lemma_resolution_meaning(table, uri, from + 1);
    }
}

/// The first match wins: where the rule at place `i` matches and every rule
/// before it compiles without matching, resolution selects `i`, whatever the
/// rules behind it hold.
pub proof fn lemma_first_match_wins(table: Seq<RuleSpec>, uri: Seq<char>, i: int)
    requires
        0 <= i < table.len(),
        pattern_compiles(table[i].pattern),
        pattern_matches(table[i].pattern, uri),
        forall|j: int|
            0 <= j < i ==> pattern_compiles(#[trigger] table[j].pattern) && !pattern_matches(
                table[j].pattern,
                uri,
            ),
    ensures
        resolve_route(table, uri) == RouteSpec::Matched(i),
{
    lemma_first_match_from(table, uri, 0, i);
}

/// The first match wins, for a lookup that starts at place `from`.
pub proof fn lemma_first_match_from(table: Seq<RuleSpec>, uri: Seq<char>, from: int, i: int)
    requires
        0 <= from <= i < table.len(),
        pattern_compiles(table[i].pattern),
        pattern_matches(table[i].pattern, uri),
        forall|j: int|
            from <= j < i ==> pattern_compiles(#[trigger] table[j].pattern) && !pattern_matches(
                table[j].pattern,
                uri,
            ),
    ensures
        resolve_from(table, uri, from) == RouteSpec::Matched(i),
    decreases i - from,
{
    if from < i {
        assert(pattern_compiles(table[from].pattern));
        lemma_first_match_from(table, uri, from + 1, i);
    }
}

/// Rules behind the selected one have no say: two tables that agree up to
/// and including the place that decides resolve alike.
pub proof fn lemma_resolution_ignores_later_rules(
    first: Seq<RuleSpec>,
    second: Seq<RuleSpec>,
    uri: Seq<char>,
    i: int,
)
    requires
        resolve_route(first, uri) == RouteSpec::Matched(i),
        i < second.len(),
        forall|j: int| 0 <= j <= i ==> first[j] == second[j],
    ensures
        resolve_route(second, uri) == RouteSpec::Matched(i),
{
    lemma_resolution_meaning(first, uri, 0);
    assert forall|j: int| 0 <= j < i implies pattern_compiles(#[trigger] second[j].pattern)
        && !pattern_matches(second[j].pattern, uri) by {
        assert(first[j] == second[j]);
        assert(pattern_compiles(first[j].pattern));
    }
    assert(first[i] == second[i]);
    lemma_first_match_wins(second, uri, i);
}

/// The place of the first rule whose pattern does not compile, if any.
pub open spec fn first_broken(table: Seq<RuleSpec>, from: int) -> Option<int>
    decreases table.len() - from,
{
    if from < 0 || from >= table.len() {
        None
    } else if !pattern_compiles(table[from].pattern) {
        Some(from)
    } else {
        first_broken(table, from + 1)
    }
}

/// What `first_broken` says of the table.
pub proof fn lemma_first_broken(table: Seq<RuleSpec>, from: int)
    requires
        0 <= from,
    ensures
        match first_broken(table, from) {
            Some(i) => from <= i < table.len() && !pattern_compiles(table[i].pattern)
                && forall|j: int| from <= j < i ==> pattern_compiles(#[trigger] table[j].pattern),
            None => forall|j: int|
                from <= j < table.len() ==> pattern_compiles(#[trigger] table[j].pattern),
        },
    decreases table.len() - from,
{
    if from < table.len() && pattern_compiles(table[from].pattern) {
        lemma_first_broken(table, from + 1);
    }
}

/// In a table whose patterns all compile, resolution returns the earliest
/// rule that matches the URI, and is unmatched exactly where none does.
pub proof fn lemma_valid_table_resolves_to_earliest_match(table: Seq<RuleSpec>, uri: Seq<char>)
    requires
        first_broken(table, 0) is None,
    ensures
        match resolve_route(table, uri) {
            RouteSpec::Matched(i) => 0 <= i < table.len() && pattern_matches(table[i].pattern, uri)
                && forall|j: int| 0 <= j < i ==> !pattern_matches(#[trigger] table[j].pattern, uri),
            RouteSpec::Unmatched => forall|j: int|
                0 <= j < table.len() ==> !pattern_matches(#[trigger] table[j].pattern, uri),
            RouteSpec::BadPattern(_) => false,
        },
{
    lemma_first_broken(table, 0);
    lemma_resolution_meaning(table, uri, 0);
    if let RouteSpec::BadPattern(i) = resolve_route(table, uri) {
        assert(pattern_compiles(table[i].pattern));
    }
}

/// Checks a route table when it is loaded: the place of the first rule whose
/// pattern does not compile, or `None` where every rule is usable.
pub fn find_broken_pattern(table: &Vec<SvcDetails>) -> (r: Option<usize>)
    ensures
        match r {
            Some(i) => first_broken(rule_views(table@), 0) == Some(i as int),
            None => first_broken(rule_views(table@), 0) is None,
        },
{
    let ghost rules = rule_views(table@);
    let mut i: usize = 0;
    while i < table.len()
        invariant
            i <= table@.len(),
            rules == rule_views(table@),
            first_broken(rules, 0) == first_broken(rules, i as int),
        decreases table@.len() - i,
    {
        assert(rules[i as int] == table@[i as int]@);
        if compile_pattern(table[i].url_matching_expression()).is_err() {
            return Some(i);
        }
        i += 1;
    }
    None
}

/// Looks `uri`, the full request URI with its query, up in the route table.
pub fn resolve(uri: &str, table: &Vec<SvcDetails>) -> (r: Resolution)
    ensures
        r@ == resolve_route(rule_views(table@), uri@),
{
    let ghost rules = rule_views(table@);
    let mut i: usize = 0;
    while i < table.len()
        invariant
            i <= table@.len(),
            rules == rule_views(table@),
            resolve_route(rules, uri@) == resolve_from(rules, uri@, i as int),
        decreases table@.len() - i,
    {
        assert(rules[i as int] == table@[i as int]@);
        match compile_pattern(table[i].url_matching_expression()) {
            Err(_) => {
                return Resolution::BadPattern(i);
            },
            Ok(re) => {
                if regex_is_match(&re, uri) {
                    return Resolution::Matched(i);
                }
            },
        }
        i += 1;
    }
    Resolution::Unmatched
}

/// The backend address, the prefix to remove and the plugins of the rule that
/// serves `uri`. Where no rule matches, or a pattern that does not compile
/// ends the lookup, all three are empty.
pub fn match_uri(uri: &str, table: &Vec<SvcDetails>) -> (r: (String, String, Vec<RequestPlugins>))
    ensures
        match resolve_route(rule_views(table@), uri@) {
            RouteSpec::Matched(i) => {
                &&& 0 <= i < table@.len()
                &&& r.0@ == table@[i]@.address
                &&& r.1@ == table@[i]@.prefix
                &&& plugin_views(r.2@) == table@[i]@.plugins
            },
            _ => r.0@.len() == 0 && r.1@.len() == 0 && r.2@.len() == 0,
        },
{
    match resolve(uri, table) {
        Resolution::Matched(i) => {
            proof {
                lemma_resolution_meaning(rule_views(table@), uri@, 0);
            }
            let rule = &table[i];
            (
                rule.service_address().to_owned(),
                rule.backend_prefix_removal().to_owned(),
                duplicate_plugins(rule.request_plugins()),
            )
        },
        _ => (String::new(), String::new(), Vec::new()),
    }
}

/// What the engine asks of the transport layer for one request.
#[derive(Debug)]
pub enum Outcome {
    /// Send this request to the backend that its URI names.
    Forward(Request),
    /// Answer the caller with this response; nothing is sent to a backend.
    Reply(Response),
}

/// `out` is what forwarding `req` to the backend at `svc_addr` comes to: the
/// same request under the rewritten target, or, where that target is no URI,
/// the response that says so.
pub open spec fn proxy_outcome(
    req: Request,
    svc_addr: Seq<char>,
    prefix: Seq<char>,
    out: Outcome,
) -> bool {
    let target = rewrite(req.uri@, prefix, svc_addr);
    if uri_is_valid(target) {
        &&& out is Forward
        &&& out->Forward_0.uri@ == target
        &&& out->Forward_0.method == req.method
        &&& out->Forward_0.headers == req.headers
        &&& out->Forward_0.body == req.body
    } else {
        out is Reply && is_substitute(out->Reply_0, STATUS_BAD_TARGET, bad_target_text())
    }
}

/// Builds the outbound request: `req` with its URI replaced by the backend
/// target, everything else as it was.
pub fn proxy_request(req: Request, svc_addr: &str, prefix_to_remove: &str) -> (r: Outcome)
    ensures
        proxy_outcome(req, svc_addr@, prefix_to_remove@, r),
{
    let target = rewrite_target(req.uri.as_str(), prefix_to_remove, svc_addr);
    if parses_as_uri(target.as_str()) {
        Outcome::Forward(
            Request { method: req.method, uri: target, headers: req.headers, body: req.body },
        )
    } else {
        Outcome::Reply(Response::bad_target())
    }
}

/// The response owed to the caller once the backend was asked: the backend's
/// own response, untouched, or the substitute where the transport failed
/// (`None`).
pub fn relay_response(reply: Option<Response>) -> (r: Response)
    ensures
        match reply {
            Some(resp) => r == resp,
            None => is_substitute(r, STATUS_NOT_FOUND, not_found_text()),
        },
{
    match reply {
        Some(resp) => resp,
        None => Response::not_found(),
    }
}

/// `out` is what handling `req` against `table` comes to. An unroutable
/// request is answered at once. Otherwise the plugins of the selected rule are
/// run in order on the request; a failure among them is answered with its own
/// status, and their result is forwarded to the rule's backend.
pub open spec fn handle_outcome<F: Fn(&RequestPlugins, Request) -> Option<Request>>(
    invoke: F,
    req: Request,
    table: Seq<SvcDetails>,
    out: Outcome,
) -> bool {
    match resolve_route(rule_views(table), req.uri@) {
        RouteSpec::Matched(i) => {
            &&& 0 <= i < table.len()
            &&& exists|filtered: Result<Request, PluginFailure>|
                #![trigger pipeline_result(invoke, table[i].plugin_list(), req, filtered)]
                pipeline_result(invoke, table[i].plugin_list(), req, filtered) && match filtered {
                    Ok(changed) => proxy_outcome(changed, table[i]@.address, table[i]@.prefix, out),
                    Err(_) => out is Reply && is_substitute(
                        out->Reply_0,
                        STATUS_PLUGIN_FAILED,
                        plugin_failed_text(),
                    ),
                }
        },
        _ => out is Reply && is_substitute(out->Reply_0, STATUS_NO_ROUTE, no_route_text()),
    }
}

/// Decides what becomes of one request: resolves its URI, runs the plugins of
/// the selected rule through `invoke`, and rewrites the target. The caller
/// sends a `Forward` and hands the backend's answer to `relay_response`.
pub fn handle_request<F: Fn(&RequestPlugins, Request) -> Option<Request>>(
    req: Request,
    table: &Vec<SvcDetails>,
    invoke: &F,
) -> (r: Outcome)
    requires
        forall|p: &RequestPlugins, q: Request| invoke.requires((p, q)),
    ensures
        handle_outcome(*invoke, req, table@, r),
{
    match resolve(req.uri.as_str(), table) {
        Resolution::Matched(i) => {
            proof {
                lemma_resolution_meaning(rule_views(table@), req.uri@, 0);
            }
            let rule = &table[i];
            let filtered = filter_request(req, rule.request_plugins(), invoke);
            assert(pipeline_result(*invoke, table@[i as int].plugin_list(), req, filtered));
            match filtered {
                Ok(changed) => proxy_request(
                    changed,
                    rule.service_address(),
                    rule.backend_prefix_removal(),
                ),
                Err(_) => Outcome::Reply(Response::plugin_failed()),
            }
        },
        _ => Outcome::Reply(Response::no_route()),
    }
}

} // verus!
