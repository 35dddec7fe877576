//! The policy decision for one parsed request.

use vstd::prelude::*;
use crate::config::{
    check_config_filters, method_names, Filters, FiltersView, HTTPRegexParseError, METHOD_COUNT,
};
use crate::pattern::{pattern_matches, Pattern};
use crate::request::{Header, HeaderView, ParsedRequest, RequestView};

verus! {

/// The verdict of the policy on one request.
#[derive(Debug, Clone, Copy, PartialEq, Eq, Structural)]
pub enum FilterResult {
    Allowed,
    MethodNotAllowed,
    Forbidden,
    BadRequest,
}

/// The lower-case form of `s`, as Unicode defines it.
pub uninterp spec fn lower_of(s: Seq<char>) -> Seq<char>;

/// Relies on str::to_lowercase: the result depends on the characters alone.
#[verifier::external_body]
fn lowercase(s: &str) -> (r: String)
    ensures
        r@ == lower_of(s@),
{
    s.to_lowercase()
}

/// Some header is named `connection`, in any case.
pub open spec fn has_connection_header(headers: Seq<HeaderView>) -> bool {
    exists|i: int| 0 <= i < headers.len() && lower_of(#[trigger] headers[i].name) == "connection"@
}

/// The position of method `m` in the method table, if it has one.
pub open spec fn method_slot(m: Seq<char>) -> Option<int> {
    if m == method_names()[0] {
        Some(0)
    } else if m == method_names()[1] {
        Some(1)
    } else if m == method_names()[2] {
        Some(2)
    } else if m == method_names()[3] {
        Some(3)
    } else if m == method_names()[4] {
        Some(4)
    } else if m == method_names()[5] {
        Some(5)
    } else {
        None
    }
}

/// The verdict on `req`, where `path_matches` says whether the pattern of
/// the request's method matches its path. The rules apply in order.
pub open spec fn decision_given(f: FiltersView, req: RequestView, path_matches: bool) -> FilterResult {
    if has_connection_header(req.headers) {
        FilterResult::Forbidden
    } else if req.method is None {
        FilterResult::MethodNotAllowed
    } else if req.path is None {
        FilterResult::Forbidden
    } else if method_slot(req.method->0) is None {
        FilterResult::BadRequest
    } else if !f.entry(method_slot(req.method->0)->0).allowed {
        FilterResult::Forbidden
    } else if path_matches {
        FilterResult::Allowed
    } else {
        FilterResult::Forbidden
    }
}

/// Whether the request's method is allowed and its pattern matches the
/// request's path (false when either is missing or the method has no rule).
pub open spec fn request_path_matches(f: FiltersView, req: RequestView) -> bool {
    match (req.method, req.path) {
        (Some(m), Some(p)) => match method_slot(m) {
            Some(i) => f.entry(i).allowed && pattern_matches(f.entry(i).regex, p),
            None => false,
        },
        _ => false,
    }
}

/// The verdict of the policy `f` on `req`.
pub open spec fn decision(f: FiltersView, req: RequestView) -> FilterResult {
    decision_given(f, req, request_path_matches(f, req))
}

/// The position of method `m` in the method table, if it has one.
fn find_method(m: &String) -> (r: Option<usize>)
    ensures
        match method_slot(m@) {
            Some(i) => r == Some(i as usize),
            None => r is None,
        },
{
    if *m == "GET".to_owned() {
        Some(0)
    } else if *m == "HEAD".to_owned() {
        Some(1)
    } else if *m == "POST".to_owned() {
        Some(2)
    } else if *m == "PUT".to_owned() {
        Some(3)
    } else if *m == "PATCH".to_owned() {
        Some(4)
    } else if *m == "DELETE".to_owned() {
        Some(5)
    } else {
        None
    }
}

/// Whether some header is named `connection`, in any case.
fn is_headers_forbidden(headers: &Vec<Header>) -> (r: bool)
    ensures
        r == has_connection_header(headers@.map_values(|h: Header| h@)),
{
    let ghost hv = headers@.map_values(|h: Header| h@);
    let connection = "connection".to_owned();
    let mut i: usize = 0;
    while i < headers.len()
        invariant
            i <= headers.len(),
            hv == headers@.map_values(|h: Header| h@),
            connection@ == "connection"@,
            forall|j: int| 0 <= j < i ==> lower_of(#[trigger] hv[j].name) != "connection"@,
        decreases headers.len() - i,
    {
        let lowered = lowercase(headers[i].name.as_str());
        if lowered == connection {
            assert(lower_of(hv[i as int].name) == "connection"@);
            return true;
        }
        i += 1;
    }
    false
}

/// The verdict on `req` under `filters`, given whether the pattern of the
/// request's method matches its path.
pub fn decide_matched(filters: &Filters, req: &ParsedRequest, path_matches: bool) -> (r: FilterResult)
    ensures
        r == decision_given(filters@, req@, path_matches),
{
    if is_headers_forbidden(&req.headers) {
        return FilterResult::Forbidden;
    }
    let method = match &req.method {
        Some(method) => method,
        None => return FilterResult::MethodNotAllowed,
    };
    if req.path.is_none() {
        return FilterResult::Forbidden;
    }
    let slot = match find_method(method) {
        Some(slot) => slot,
        None => return FilterResult::BadRequest,
    };
    if !filters.entry(slot).allowed {
        return FilterResult::Forbidden;
    }
    if path_matches {
        FilterResult::Allowed
    } else {
        FilterResult::Forbidden
    }
}

/// The policy, with the pattern of every allowed method compiled once.
pub struct FiltersHandler {
    filters: Filters,
    patterns: Vec<Option<Pattern>>,
}

impl View for FiltersHandler {
    type V = FiltersView;

    closed spec fn view(&self) -> FiltersView {
        self.filters@
    }
}

impl FiltersHandler {
    #[verifier::type_invariant]
    spec fn compiled(self) -> bool {
        &&& self.patterns@.len() == METHOD_COUNT
        &&& forall|i: int|
            0 <= i < METHOD_COUNT && (#[trigger] self.filters@.entry(i)).allowed ==> {
                &&& self.patterns@[i] is Some
                &&& self.patterns@[i]->0@ == self.filters@.entry(i).regex
            }
    }

    /// Builds the policy; every allowed method's pattern must compile.
    pub fn new(filters: Filters) -> (r: Self)
        requires
            filters@.valid(),
        ensures
            r@ == filters@,
    {
        let mut patterns: Vec<Option<Pattern>> = Vec::new();
        let mut i: usize = 0;
        while i < METHOD_COUNT
            invariant
                i <= METHOD_COUNT,
                filters@.valid(),
                patterns@.len() == i,
                forall|j: int|
                    0 <= j < i && (#[trigger] filters@.entry(j)).allowed ==> {
                        &&& patterns@[j] is Some
                        &&& patterns@[j]->0@ == filters@.entry(j).regex
                    },
            decreases METHOD_COUNT - i,
        {
            let rule = filters.entry(i);
            if rule.allowed {
                assert(crate::config::rule_usable(filters@.entry(i as int)));
                match Pattern::compile(rule.regex.clone()) {
                    Ok(p) => patterns.push(Some(p)),
                    Err(_) => {
                        assert(false);
                        patterns.push(None);
                    },
                }
            } else {
                patterns.push(None);
            }
            i += 1;
        }
        FiltersHandler { filters, patterns }
    }

    /// Builds the policy, or names the first allowed method whose pattern
    /// does not compile.
    pub fn try_new(filters: Filters) -> (r: Result<Self, HTTPRegexParseError>)
        ensures
            r is Ok <==> filters@.valid(),
            r matches Ok(h) ==> h@ == filters@,
            r matches Err(e) ==> exists|i: int|
                filters@.first_unusable(i) && e.failed_method() == method_names()[i],
    {
        match check_config_filters(&filters) {
            Ok(()) => Ok(Self::new(filters)),
            Err(e) => Err(e),
        }
    }

    /// Whether the request's method is allowed and its compiled pattern
    /// matches the request's path.
    fn path_matches(&self, req: &ParsedRequest) -> (r: bool)
        ensures
            r == request_path_matches(self@, req@),
    {
        proof {
            use_type_invariant(self);
        }
        match (&req.method, &req.path) {
            (Some(m), Some(p)) => match find_method(m) {
                Some(i) => {
                    if !self.filters.entry(i).allowed {
                        return false;
                    }
                    match &self.patterns[i] {
                        Some(pattern) => pattern.is_match(p.as_str()),
                        None => false,
                    }
                },
                None => false,
            },
            _ => false,
        }
    }

    /// The verdict of the policy on `req`. It reads nothing but the policy
    /// and the request, and changes neither.
    pub fn is_action_allowed(&self, req: &ParsedRequest) -> (r: FilterResult)
        ensures
            r == decision(self@, req@),
    {
        let matched = self.path_matches(req);
        decide_matched(&self.filters, req, matched)
    }
}

/// A request with a header named `connection`, in any case, is refused
/// whatever its method and path.
pub proof fn connection_header_is_forbidden(f: FiltersView, req: RequestView, i: int)
    requires
        0 <= i < req.headers.len(),
        lower_of(req.headers[i].name) == "connection"@,
    ensures
        decision(f, req) == FilterResult::Forbidden,
{
    assert(has_connection_header(req.headers));
}

/// A method outside the table makes a bad request, once no `connection`
/// header has refused the request and a path is present.
pub proof fn unknown_method_is_bad_request(f: FiltersView, req: RequestView)
    requires
        req.method matches Some(m) && !method_names().contains(m),
        req.path is Some,
        !has_connection_header(req.headers),
    ensures
        decision(f, req) == FilterResult::BadRequest,
{
    let m = req.method->0;
    assert forall|k: int| 0 <= k < METHOD_COUNT implies m != method_names()[k] by {
        if m == method_names()[k] {
            assert(method_names().contains(m));
        }
    }
}

/// A request without a method is answered "method not allowed", once no
/// `connection` header has refused it.
pub proof fn missing_method_is_not_allowed(f: FiltersView, req: RequestView)
    requires
        req.method is None,
        !has_connection_header(req.headers),
    ensures
        decision(f, req) == FilterResult::MethodNotAllowed,
{
}

/// A request with a method but without a path is refused.
pub proof fn missing_path_is_forbidden(f: FiltersView, req: RequestView)
    requires
        req.method is Some,
        req.path is None,
    ensures
        decision(f, req) == FilterResult::Forbidden,
{
}

} // verus!
