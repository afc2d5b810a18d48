//! The task context threaded through the pipeline, and the pure rules that
//! select probe-eligible routes and surviving URLs.
use vstd::prelude::*;

verus! {

/// What the project needs, as decided by the scoping agent.
#[derive(Debug, Clone, Copy, PartialEq, Eq, Structural)]
pub struct ProjectScope {
    pub is_crud_required: bool,
    pub is_user_login_and_logout: bool,
    pub is_external_urls_required: bool,
}

/// One HTTP endpoint of the generated backend, every field held as the
/// text the generator emitted (`request_body` and `response` hold the JSON
/// text of their schema value, `"None"` when there is none).
#[derive(Debug, Clone, PartialEq, Eq)]
pub struct RouteObject {
    pub is_route_dynamic: String,
    pub method: String,
    pub request_body: String,
    pub response: String,
    pub route: String,
}

pub struct RouteView {
    pub is_route_dynamic: Seq<char>,
    pub method: Seq<char>,
    pub request_body: Seq<char>,
    pub response: Seq<char>,
    pub route: Seq<char>,
}

impl View for RouteObject {
    type V = RouteView;

    open spec fn view(&self) -> RouteView {
        RouteView {
            is_route_dynamic: self.is_route_dynamic@,
            method: self.method@,
            request_body: self.request_body@,
            response: self.response@,
            route: self.route@,
        }
    }
}

impl RouteObject {
    /// A field-for-field copy.
    pub fn duplicate(&self) -> (r: RouteObject)
        ensures
            r@ == self@,
    {
        RouteObject {
            is_route_dynamic: self.is_route_dynamic.clone(),
            method: self.method.clone(),
            request_body: self.request_body.clone(),
            response: self.response.clone(),
            route: self.route.clone(),
        }
    }

    /// Whether the route can be probed live: a `get` route whose path has
    /// no parameter placeholder.
    pub fn is_probe_eligible(&self) -> (r: bool)
        ensures
            r == is_probe_eligible(self@),
    {
        text_is(&self.method, "get") && text_is(&self.is_route_dynamic, "false")
    }
}

/// The shared record that accumulates the pipeline's artifacts.
#[derive(Debug, Clone, PartialEq, Eq)]
pub struct TaskList {
    pub description: String,
    pub project_scope: Option<ProjectScope>,
    pub external_urls: Option<Vec<String>>,
    pub backend_code: Option<String>,
    pub api_endpoint_schema: Option<Vec<RouteObject>>,
}

pub struct TaskListView {
    pub description: Seq<char>,
    pub project_scope: Option<ProjectScope>,
    pub external_urls: Option<Seq<Seq<char>>>,
    pub backend_code: Option<Seq<char>>,
    pub api_endpoint_schema: Option<Seq<RouteView>>,
}

pub open spec fn texts_view(v: Seq<String>) -> Seq<Seq<char>> {
    v.map_values(|s: String| s@)
}

pub open spec fn routes_view(v: Seq<RouteObject>) -> Seq<RouteView> {
    v.map_values(|r: RouteObject| r@)
}

pub open spec fn opt_text_view(o: Option<String>) -> Option<Seq<char>> {
    match o {
        Some(s) => Some(s@),
        None => None,
    }
}

pub open spec fn opt_texts_view(o: Option<Vec<String>>) -> Option<Seq<Seq<char>>> {
    match o {
        Some(v) => Some(texts_view(v@)),
        None => None,
    }
}

pub open spec fn opt_routes_view(o: Option<Vec<RouteObject>>) -> Option<Seq<RouteView>> {
    match o {
        Some(v) => Some(routes_view(v@)),
        None => None,
    }
}

impl View for TaskList {
    type V = TaskListView;

    open spec fn view(&self) -> TaskListView {
        TaskListView {
            description: self.description@,
            project_scope: self.project_scope,
            external_urls: opt_texts_view(self.external_urls),
            backend_code: opt_text_view(self.backend_code),
            api_endpoint_schema: opt_routes_view(self.api_endpoint_schema),
        }
    }
}

impl TaskList {
    /// A fresh context: only the description is known.
    pub fn new(description: String) -> (r: TaskList)
        ensures
            r@ == (TaskListView {
                description: description@,
                project_scope: None,
                external_urls: None,
                backend_code: None,
                api_endpoint_schema: None,
            }),
    {
        TaskList {
            description,
            project_scope: None,
            external_urls: None,
            backend_code: None,
            api_endpoint_schema: None,
        }
    }
}

/// Whether two texts hold the same characters.
pub fn text_is(s: &String, lit: &str) -> (r: bool)
    ensures
        r == (s@ == lit@),
{
    let other = String::from_str(lit);
    *s == other
}

pub open spec fn is_probe_eligible(r: RouteView) -> bool {
    r.method == "get"@ && r.is_route_dynamic == "false"@
}

/// The probe-eligible routes of `s`, in their order.
pub open spec fn probe_eligible(s: Seq<RouteView>) -> Seq<RouteView>
    decreases s.len(),
{
    if s.len() == 0 {
        seq![]
    } else {
        let rest = probe_eligible(s.drop_last());
        if is_probe_eligible(s.last()) {
            rest.push(s.last())
        } else {
            rest
        }
    }
}

proof fn lemma_routes_view_prefix(v: Seq<RouteObject>, i: int)
    requires
        0 <= i < v.len(),
    ensures
        routes_view(v.subrange(0, i + 1)).drop_last() == routes_view(v.subrange(0, i)),
        routes_view(v.subrange(0, i + 1)).last() == v[i]@,
        routes_view(v.subrange(0, i + 1)).len() == i + 1,
{
    assert(routes_view(v.subrange(0, i + 1)).drop_last() =~= routes_view(v.subrange(0, i)));
}

/// The routes that can be probed live on the running backend, in their order.
pub fn check_endpoints(routes: &Vec<RouteObject>) -> (r: Vec<RouteObject>)
    ensures
        routes_view(r@) == probe_eligible(routes_view(routes@)),
{
    let mut out: Vec<RouteObject> = Vec::new();
    let mut i: usize = 0;
    while i < routes.len()
        invariant
            i <= routes.len(),
            routes_view(out@) == probe_eligible(routes_view(routes@.subrange(0, i as int))),
        decreases routes.len() - i,
    {
        let route = &routes[i];
        let keep = route.is_probe_eligible();
        proof {
            lemma_routes_view_prefix(routes@, i as int);
        }
        if keep {
            let copy = route.duplicate();
            let ghost before = out@;
            out.push(copy);
            assert(routes_view(out@) =~= routes_view(before).push(copy@));
        }
        i += 1;
    }
    assert(routes@.subrange(0, routes.len() as int) =~= routes@);
    out
}

/// Filtering keeps exactly the probe-eligible routes: a list whose routes
/// are all eligible is left as it is, so filtering twice is filtering once.
pub proof fn lemma_filter_idempotent(s: Seq<RouteView>)
    ensures
        probe_eligible(probe_eligible(s)) == probe_eligible(s),
        (forall|i: int| 0 <= i < s.len() ==> #[trigger] is_probe_eligible(s[i])) ==> probe_eligible(s)
            == s,
{
    lemma_filter_all_eligible(s);
    lemma_eligible_fixed(probe_eligible(s));
    lemma_eligible_fixed(s);
}

/// A list whose routes are all eligible passes the filter unchanged.
proof fn lemma_eligible_fixed(s: Seq<RouteView>)
    ensures
        (forall|i: int| 0 <= i < s.len() ==> #[trigger] is_probe_eligible(s[i])) ==> probe_eligible(s)
            == s,
    decreases s.len(),
{
    if s.len() > 0 {
        lemma_eligible_fixed(s.drop_last());
        if forall|i: int| 0 <= i < s.len() ==> #[trigger] is_probe_eligible(s[i]) {
            assert forall|i: int| 0 <= i < s.drop_last().len() implies #[trigger] is_probe_eligible(
                s.drop_last()[i],
            ) by {
                assert(s.drop_last()[i] == s[i]);
            }
            assert(is_probe_eligible(s[s.len() - 1]));
            assert(s.drop_last().push(s.last()) =~= s);
        }
    }
}

/// Every route that filtering keeps is probe-eligible.
proof fn lemma_filter_all_eligible(s: Seq<RouteView>)
    ensures
        forall|i: int|
            0 <= i < probe_eligible(s).len() ==> #[trigger] is_probe_eligible(probe_eligible(s)[i]),
    decreases s.len(),
{
    if s.len() > 0 {
        lemma_filter_all_eligible(s.drop_last());
        let rest = probe_eligible(s.drop_last());
        if is_probe_eligible(s.last()) {
            let p = rest.push(s.last());
            assert forall|i: int| 0 <= i < p.len() implies #[trigger] is_probe_eligible(p[i]) by {
                if i < rest.len() {
                    assert(p[i] == rest[i]);
                }
            }
        }
    }
}

} // verus!

verus! {

proof fn lemma_texts_view_push(v: Seq<String>, s: String)
    ensures
        texts_view(v.push(s)) == texts_view(v).push(s@),
{
    assert(texts_view(v.push(s)) =~= texts_view(v).push(s@));
}

/// A copy of a list of texts.
pub fn copy_texts(v: &Vec<String>) -> (r: Vec<String>)
    ensures
        texts_view(r@) == texts_view(v@),
{
    let mut out: Vec<String> = Vec::new();
    let mut i: usize = 0;
    while i < v.len()
        invariant
            i <= v.len(),
            texts_view(out@) == texts_view(v@.subrange(0, i as int)),
        decreases v.len() - i,
    {
        let s = v[i].clone();
        proof {
            lemma_texts_view_push(out@, s);
            assert(v@.subrange(0, i as int).push(v@[i as int]) =~= v@.subrange(0, i + 1));
            lemma_texts_view_push(v@.subrange(0, i as int), v@[i as int]);
        }
        out.push(s);
        i += 1;
    }
    assert(v@.subrange(0, v.len() as int) =~= v@);
    out
}

/// Appends a text to a list of texts.
pub fn push_text(v: &mut Vec<String>, s: String)
    ensures
        texts_view(final(v)@) == texts_view(old(v)@).push(s@),
{
    proof {
        lemma_texts_view_push(v@, s);
    }
    v.push(s);
}

} // verus!

verus! {

/// A copy of a list of routes.
pub fn copy_routes(v: &Vec<RouteObject>) -> (r: Vec<RouteObject>)
    ensures
        routes_view(r@) == routes_view(v@),
{
    let mut out: Vec<RouteObject> = Vec::new();
    let mut i: usize = 0;
    while i < v.len()
        invariant
            i <= v.len(),
            routes_view(out@) == routes_view(v@.subrange(0, i as int)),
        decreases v.len() - i,
    {
        let r = v[i].duplicate();
        proof {
            lemma_routes_view_prefix(v@, i as int);
        }
        let ghost before = out@;
        out.push(r);
        assert(routes_view(out@) =~= routes_view(before).push(r@));
        assert(routes_view(out@) =~= routes_view(v@.subrange(0, i + 1)));
        i += 1;
    }
    assert(v@.subrange(0, v.len() as int) =~= v@);
    out
}

} // verus!
