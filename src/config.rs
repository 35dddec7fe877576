//! The policy as configured: for each method, whether it is allowed and the
//! pattern its paths must match.

use vstd::prelude::*;
use crate::pattern::{pattern_compiles, Pattern};

verus! {

/// The whole configuration file.
pub struct Config {
    pub filters: Filters,
}

/// One rule per method the proxy knows.
pub struct Filters {
    pub get: Proxy,
    pub head: Proxy,
    pub post: Proxy,
    pub put: Proxy,
    pub patch: Proxy,
    pub delete: Proxy,
}

/// The rule of one method.
pub struct Proxy {
    pub allowed: bool,
    pub regex: String,
}

pub ghost struct ProxyView {
    pub allowed: bool,
    pub regex: Seq<char>,
}

pub ghost struct FiltersView {
    pub get: ProxyView,
    pub head: ProxyView,
    pub post: ProxyView,
    pub put: ProxyView,
    pub patch: ProxyView,
    pub delete: ProxyView,
}

impl View for Proxy {
    type V = ProxyView;

    open spec fn view(&self) -> ProxyView {
        ProxyView { allowed: self.allowed, regex: self.regex@ }
    }
}

impl View for Filters {
    type V = FiltersView;

    open spec fn view(&self) -> FiltersView {
        FiltersView {
            get: self.get@,
            head: self.head@,
            post: self.post@,
            put: self.put@,
            patch: self.patch@,
            delete: self.delete@,
        }
    }
}

/// Number of methods that have a rule.
pub const METHOD_COUNT: usize = 6;

/// The methods that have a rule, in table order.
pub open spec fn method_names() -> Seq<Seq<char>> {
    seq!["GET"@, "HEAD"@, "POST"@, "PUT"@, "PATCH"@, "DELETE"@]
}

/// A rule is usable when it is off, or its pattern compiles.
pub open spec fn rule_usable(p: ProxyView) -> bool {
    p.allowed ==> pattern_compiles(p.regex)
}

impl FiltersView {
    /// The rule at position `i` of the method table.
    pub open spec fn entry(self, i: int) -> ProxyView {
        if i == 0 {
            self.get
        } else if i == 1 {
            self.head
        } else if i == 2 {
            self.post
        } else if i == 3 {
            self.put
        } else if i == 4 {
            self.patch
        } else {
            self.delete
        }
    }

    /// Every allowed method's pattern compiles.
    pub open spec fn valid(self) -> bool {
        forall|i: int| 0 <= i < METHOD_COUNT ==> rule_usable(#[trigger] self.entry(i))
    }

    /// The first method in table order whose rule is not usable.
    pub open spec fn first_unusable(self, i: int) -> bool {
        &&& 0 <= i < METHOD_COUNT
        &&& !rule_usable(self.entry(i))
        &&& forall|j: int| 0 <= j < i ==> rule_usable(#[trigger] self.entry(j))
    }
}

impl Filters {
    /// The rule at position `i` of the method table.
    pub fn entry(&self, i: usize) -> (r: &Proxy)
        requires
            i < METHOD_COUNT,
        ensures
            r@ == self@.entry(i as int),
    {
        if i == 0 {
            &self.get
        } else if i == 1 {
            &self.head
        } else if i == 2 {
            &self.post
        } else if i == 3 {
            &self.put
        } else if i == 4 {
            &self.patch
        } else {
            &self.delete
        }
    }
}

/// The name of the method at position `i` of the table.
pub fn method_name(i: usize) -> (r: &'static str)
    requires
        i < METHOD_COUNT,
    ensures
        r@ == method_names()[i as int],
{
    if i == 0 {
        "GET"
    } else if i == 1 {
        "HEAD"
    } else if i == 2 {
        "POST"
    } else if i == 3 {
        "PUT"
    } else if i == 4 {
        "PATCH"
    } else {
        "DELETE"
    }
}

/// A pattern of the configuration that does not compile, with its method.
#[derive(Debug)]
pub struct HTTPRegexParseError {
    method: String,
    source: regex::Error,
}

impl HTTPRegexParseError {
    /// The name of the method whose pattern failed.
    pub closed spec fn failed_method(&self) -> Seq<char> {
        self.method@
    }

    pub fn new(method: String, source: regex::Error) -> (r: Self)
        ensures
            r.failed_method() == method@,
    {
        HTTPRegexParseError { method, source }
    }

    /// The method whose pattern failed.
    pub fn method(&self) -> (r: &String)
        ensures
            r@ == self.failed_method(),
    {
        &self.method
    }

    /// What the regex compiler reported.
    pub fn source(&self) -> &regex::Error {
        &self.source
    }
}

/// Checks that the pattern of every allowed method compiles. On failure the
/// error names the first such method in table order.
pub fn check_config_filters(filters: &Filters) -> (r: Result<(), HTTPRegexParseError>)
    ensures
        r is Ok <==> filters@.valid(),
        r matches Err(e) ==> exists|i: int|
            filters@.first_unusable(i) && e.failed_method() == method_names()[i],
{
    let mut i: usize = 0;
    while i < METHOD_COUNT
        invariant
            i <= METHOD_COUNT,
            forall|j: int| 0 <= j < i ==> rule_usable(#[trigger] filters@.entry(j)),
        decreases METHOD_COUNT - i,
    {
        let rule = filters.entry(i);
        if rule.allowed {
            match Pattern::compile(rule.regex.clone()) {
                Ok(_) => {},
                Err(e) => {
                    let method = method_name(i).to_owned();
                    let err = HTTPRegexParseError::new(method, e);
                    assert(filters@.first_unusable(i as int));
                    return Err(err);
                },
            }
        }
        i += 1;
    }
    Ok(())
}

} // verus!
