//! Route patterns and the table that maps them to handles.
//!
//! A request belongs to a route when the route's pattern, in UTF-8, is a
//! prefix of the request's bytes. Where several registered patterns are
//! prefixes of one request, the longest of them wins.

use vstd::prelude::*;
use vstd::string::StringExecFns;
use vstd::utf8::{encode_utf8, encode_utf8_decode_utf8};

verus! {

/// The HTTP methods that a route can be registered for.
#[derive(Clone, Copy, Debug, PartialEq, Eq, Structural)]
pub enum HTTPMethod {
    Get,
    Post,
}

/// The name of a method as it stands in a request line.
pub open spec fn method_name(method: HTTPMethod) -> Seq<char> {
    match method {
        HTTPMethod::Get => "GET"@,
        HTTPMethod::Post => "POST"@,
    }
}

impl HTTPMethod {
    /// The name of this method as it stands in a request line.
    pub fn name(&self) -> (s: &'static str)
        ensures
            s@ == method_name(*self),
    {
        match self {
            HTTPMethod::Get => "GET",
            HTTPMethod::Post => "POST",
        }
    }
}

/// The pattern of a route: `"<METHOD> <PATH> HTTP/1.1\r\n"`, where an empty
/// path stands for `/`. The path is taken as it is.
pub open spec fn pattern_text(method: HTTPMethod, path: Seq<char>) -> Seq<char> {
    method_name(method) + " "@ + (if path.len() == 0 {
        "/"@
    } else {
        path
    }) + " HTTP/1.1\r\n"@
}

/// Builds the pattern of the route for `method` and `path`.
pub fn create_pattern(method: HTTPMethod, path: &str) -> (pattern: String)
    ensures
        pattern@ == pattern_text(method, path@),
{
    let mut pattern = String::from_str(method.name());
    pattern.append(" ");
    if path.is_empty() {
        pattern.append("/");
    } else {
        pattern.append(path);
    }
    pattern.append(" HTTP/1.1\r\n");
    pattern
}

/// The empty path and `/` name the same route.
pub proof fn empty_path_is_root(method: HTTPMethod)
    ensures
        pattern_text(method, Seq::<char>::empty()) == pattern_text(method, "/"@),
{
    reveal_strlit("/");
}

/// Whether `request` begins with `pattern` in UTF-8.
pub open spec fn matches(pattern: Seq<char>, request: Seq<u8>) -> bool {
    encode_utf8(pattern).is_prefix_of(request)
}

/// Whether some pattern of `table` matches `request`.
pub open spec fn has_match<H>(table: Map<Seq<char>, H>, request: Seq<u8>) -> bool {
    exists|pattern: Seq<char>| #[trigger] table.dom().contains(pattern) && matches(pattern, request)
}

/// Whether `pattern` is registered in `table`, matches `request`, and no
/// registered pattern that matches `request` is longer.
pub open spec fn is_best_match<H>(
    table: Map<Seq<char>, H>,
    pattern: Seq<char>,
    request: Seq<u8>,
) -> bool {
    &&& table.dom().contains(pattern)
    &&& matches(pattern, request)
    &&& forall|other: Seq<char>| #[trigger]
        table.dom().contains(other) && matches(other, request) ==> encode_utf8(other).len()
            <= encode_utf8(pattern).len()
}

/// The pattern of `table` that `request` is routed by, where one matches.
pub open spec fn best_match<H>(table: Map<Seq<char>, H>, request: Seq<u8>) -> Seq<char> {
    choose|pattern: Seq<char>| is_best_match(table, pattern, request)
}

/// Two patterns that match one request and are equally long are one pattern.
pub proof fn equal_length_matches_are_equal(a: Seq<char>, b: Seq<char>, request: Seq<u8>)
    requires
        matches(a, request),
        matches(b, request),
        encode_utf8(a).len() == encode_utf8(b).len(),
    ensures
        a == b,
{
    assert(encode_utf8(a) =~= encode_utf8(b));
    encode_utf8_decode_utf8(a);
    encode_utf8_decode_utf8(b);
}

/// A request is routed by at most one pattern: the longest match is unique.
pub proof fn best_match_is_unique<H>(
    table: Map<Seq<char>, H>,
    a: Seq<char>,
    b: Seq<char>,
    request: Seq<u8>,
)
    requires
        is_best_match(table, a, request),
        is_best_match(table, b, request),
    ensures
        a == b,
{
    equal_length_matches_are_equal(a, b, request);
}

/// Whether `request` begins with the bytes of `prefix`.
pub fn starts_with(request: &[u8], prefix: &[u8]) -> (b: bool)
    ensures
        b == prefix@.is_prefix_of(request@),
{
    if prefix.len() > request.len() {
        return false;
    }
    let mut i: usize = 0;
    while i < prefix.len()
        invariant
            i <= prefix.len() <= request.len(),
            forall|k: int| 0 <= k < i ==> prefix@[k] == request@[k],
        decreases prefix.len() - i,
    {
        if prefix[i] != request[i] {
            assert(request@.subrange(0, prefix@.len() as int)[i as int] != prefix@[i as int]);
            return false;
        }
        i += 1;
    }
    assert(prefix@ =~= request@.subrange(0, prefix@.len() as int));
    true
}

/// One registered route.
struct Route<H> {
    pattern: String,
    handle: H,
}

/// The registered routes: a map from pattern to handle.
pub struct RouteTable<H> {
    routes: Vec<Route<H>>,
}

impl<H> View for RouteTable<H> {
    type V = Map<Seq<char>, H>;

    closed spec fn view(&self) -> Map<Seq<char>, H> {
        Map::new(
            |pattern: Seq<char>| self.holds(pattern),
            |pattern: Seq<char>| self.routes[self.position(pattern)].handle,
        )
    }
}

impl<H> RouteTable<H> {
    #[verifier::type_invariant]
    spec fn distinct(self) -> bool {
        forall|i: int, j: int|
            0 <= i < j < self.routes.len() ==> (#[trigger] self.routes[i]).pattern@
                != (#[trigger] self.routes[j]).pattern@
    }

    spec fn holds(self, pattern: Seq<char>) -> bool {
        exists|i: int|
            0 <= i < self.routes.len() && (#[trigger] self.routes[i]).pattern@ == pattern
    }

    spec fn position(self, pattern: Seq<char>) -> int {
        choose|i: int|
            0 <= i < self.routes.len() && (#[trigger] self.routes[i]).pattern@ == pattern
    }

    proof fn position_of(self, i: int)
        requires
            self.distinct(),
            0 <= i < self.routes.len(),
        ensures
            self.holds(self.routes[i].pattern@),
            self.position(self.routes[i].pattern@) == i,
            self@.dom().contains(self.routes[i].pattern@),
            self@[self.routes[i].pattern@] == self.routes[i].handle,
    {
        let p = self.routes[i].pattern@;
        let k = self.position(p);
        assert(0 <= k < self.routes.len() && self.routes[k].pattern@ == p);
        if k < i {
            assert(self.routes[k].pattern@ != self.routes[i].pattern@);
        } else if i < k {
            assert(self.routes[i].pattern@ != self.routes[k].pattern@);
        }
    }

    /// A table without routes.
    pub fn new() -> (table: RouteTable<H>)
        ensures
            table@ == Map::<Seq<char>, H>::empty(),
    {
        let table = RouteTable { routes: Vec::new() };
        assert(table@ =~= Map::<Seq<char>, H>::empty());
        table
    }

    /// The number of registered routes.
    pub fn len(&self) -> (n: usize)
        ensures
            n == self@.dom().len(),
            self@.dom().finite(),
    {
        proof {
            use_type_invariant(self);
            self.dom_is_patterns();
        }
        self.routes.len()
    }

    spec fn patterns(self, n: int) -> Set<Seq<char>> {
        Set::new(
            |pattern: Seq<char>|
                exists|i: int| 0 <= i < n && (#[trigger] self.routes[i]).pattern@ == pattern,
        )
    }

    proof fn patterns_count(self, n: int)
        requires
            self.distinct(),
            0 <= n <= self.routes.len(),
        ensures
            self.patterns(n).finite(),
            self.patterns(n).len() == n,
        decreases n,
    {
        if n == 0 {
            assert(self.patterns(0) =~= Set::<Seq<char>>::empty());
        } else {
            self.patterns_count(n - 1);
            let last = self.routes[n - 1].pattern@;
            assert(self.patterns(n) =~= self.patterns(n - 1).insert(last));
            assert(!self.patterns(n - 1).contains(last)) by {
                if self.patterns(n - 1).contains(last) {
                    let i = choose|i: int|
                        0 <= i < n - 1 && (#[trigger] self.routes[i]).pattern@ == last;
                    assert(self.routes[i].pattern@ != self.routes[n - 1].pattern@);
                }
            }
        }
    }

    proof fn dom_is_patterns(self)
        requires
            self.distinct(),
        ensures
            self@.dom().finite(),
            self@.dom().len() == self.routes.len(),
    {
        self.patterns_count(self.routes.len() as int);
        assert(self@.dom() =~= self.patterns(self.routes.len() as int));
    }

    /// Registers `handle` for `pattern`, in place of the handle that the
    /// pattern had, if it had one.
    pub fn insert(&mut self, pattern: String, handle: H)
        ensures
            final(self)@ == old(self)@.insert(pattern@, handle),
    {
        proof {
            use_type_invariant(&*self);
        }
        let ghost before = *self;
        let ghost key = pattern@;
        let mut routes: Vec<Route<H>> = Vec::new();
        std::mem::swap(&mut routes, &mut self.routes);
        let ghost prior = routes@;
        let mut i: usize = 0;
        let mut found: Option<usize> = None;
        while i < routes.len() && found.is_none()
            invariant
                i <= routes.len(),
                routes@ == prior,
                pattern@ == key,
                match found {
                    Some(at) => at < routes.len() && routes[at as int].pattern@ == key,
                    None => forall|k: int| 0 <= k < i ==> (#[trigger] routes[k]).pattern@ != key,
                },
            decreases routes.len() - i + (if found.is_none() { 1int } else { 0int }),
        {
            if routes[i].pattern == pattern {
                found = Some(i);
            } else {
                i += 1;
            }
        }
        match found {
            Some(at) => {
                routes.set(at, Route { pattern, handle });
            },
            None => {
                routes.push(Route { pattern, handle });
            },
        }
        assert forall|a: int, b: int| 0 <= a < b < routes.len() implies (#[trigger] routes[a]).pattern@
            != (#[trigger] routes[b]).pattern@ by {
            if b < prior.len() {
                assert(prior[a].pattern@ != prior[b].pattern@);
            } else {
                assert(prior[a].pattern@ != key);
            }
        }
        self.routes = routes;
        proof {
            let after = *self;
            assert forall|p: Seq<char>| after@.dom().contains(p) <==> before@.insert(
                key,
                handle,
            ).dom().contains(p) by {
                if after.holds(p) {
                    let k = after.position(p);
                    if p != key {
                        assert(before.routes[k].pattern@ == p);
                    }
                }
                if before.holds(p) && p != key {
                    let k = before.position(p);
                    assert(after.routes[k].pattern@ == p);
                }
                if p == key {
                    match found {
                        Some(at) => {
                            assert(after.routes[at as int].pattern@ == p);
                        },
                        None => {
                            assert(after.routes[after.routes.len() - 1].pattern@ == p);
                        },
                    }
                }
            }
            assert forall|p: Seq<char>| after@.dom().contains(p) implies after@[p] == before@.insert(
                key,
                handle,
            )[p] by {
                let k = after.position(p);
                assert(0 <= k < after.routes.len() && after.routes[k].pattern@ == p);
                after.position_of(k);
                if p != key {
                    assert(before.routes[k].pattern@ == p);
                    before.position_of(k);
                } else {
                    match found {
                        Some(at) => {
                            after.position_of(at as int);
                        },
                        None => {
                            after.position_of(after.routes.len() - 1);
                        },
                    }
                }
            }
            assert(after@ =~= before@.insert(key, handle));
        }
    }

    /// The handle that `request` is routed to: that of the longest registered
    /// pattern that the request begins with, or none where no pattern matches.
    pub fn route(&self, request: &[u8]) -> (handle: Option<&H>)
        ensures
            match handle {
                Some(h) => has_match(self@, request@) && is_best_match(
                    self@,
                    best_match(self@, request@),
                    request@,
                ) && *h == self@[best_match(self@, request@)],
                None => !has_match(self@, request@),
            },
    {
        proof {
            use_type_invariant(self);
        }
        let mut best: Option<usize> = None;
        let mut i: usize = 0;
        while i < self.routes.len()
            invariant
                i <= self.routes.len(),
                match best {
                    Some(at) => at < i && matches(self.routes[at as int].pattern@, request@)
                        && forall|k: int|
                        0 <= k < i && matches((#[trigger] self.routes[k]).pattern@, request@)
                            ==> encode_utf8(self.routes[k].pattern@).len() <= encode_utf8(
                            self.routes[at as int].pattern@,
                        ).len(),
                    None => forall|k: int|
                        0 <= k < i ==> !matches((#[trigger] self.routes[k]).pattern@, request@),
                },
            decreases self.routes.len() - i,
        {
            let bytes = self.routes[i].pattern.as_str().as_bytes();
            if starts_with(request, bytes) {
                let longer = match best {
                    Some(at) => bytes.len() > self.routes[at].pattern.as_str().as_bytes().len(),
                    None => true,
                };
                if longer {
                    best = Some(i);
                }
            }
            i += 1;
        }
        match best {
            Some(at) => {
                proof {
                    let p = self.routes[at as int].pattern@;
                    self.position_of(at as int);
                    assert forall|other: Seq<char>| #[trigger]
                        self@.dom().contains(other) && matches(other, request@) implies encode_utf8(
                        other,
                    ).len() <= encode_utf8(p).len() by {
                        let k = self.position(other);
                        assert(0 <= k < self.routes.len() && self.routes[k].pattern@ == other);
                    }
                    assert(is_best_match(self@, p, request@));
                    best_match_is_unique(self@, p, best_match(self@, request@), request@);
                }
                Some(&self.routes[at].handle)
            },
            None => {
                proof {
                    if has_match(self@, request@) {
                        let p = choose|p: Seq<char>| #[trigger]
                            self@.dom().contains(p) && matches(p, request@);
                        let k = self.position(p);
                        assert(0 <= k < self.routes.len() && self.routes[k].pattern@ == p);
                    }
                }
                None
            },
        }
    }
}

} // verus!
