use vstd::prelude::*;
use vstd::utf8::encode_utf8;
use crate::prefix::{has_prefix, lemma_encode_utf8_concat, text_prefix};

verus! {

/// A destination for requests: it takes a request and hands back what
/// stands for its response (in an asynchronous host, a future of it).
pub trait Handle<R> {
    type Output;

    fn handle(&mut self, request: R) -> Self::Output;
}

/// Which of the two handler slots a request goes to.
#[derive(Debug, Clone, Copy, PartialEq, Eq, Structural)]
pub enum Route {
    Primary,
    Secondary,
}

/// The output of whichever handler a dispatch invoked, tagged by its slot.
#[derive(Debug)]
pub enum Routed<X, Y> {
    Primary(X),
    Secondary(Y),
}

/// A router with a path prefix and exactly two handlers: requests whose
/// path begins with the prefix go to `svc`, all others to `default_svc`.
#[derive(Debug, Clone)]
pub struct Router2<A, B> {
    url_prefix: String,
    svc: A,
    default_svc: B,
}

/// The slot that a path goes to under a prefix.
pub open spec fn route_for(prefix: Seq<char>, path: Seq<char>) -> Route {
    if text_prefix(prefix, path) {
        Route::Primary
    } else {
        Route::Secondary
    }
}

impl<A, B> Router2<A, B> {
    /// The prefix the router was built with.
    pub closed spec fn prefix(&self) -> Seq<char> {
        self.url_prefix@
    }

    /// The handler in the primary slot.
    pub closed spec fn primary(&self) -> A {
        self.svc
    }

    /// The handler in the secondary (default) slot.
    pub closed spec fn secondary(&self) -> B {
        self.default_svc
    }

    /// The slot that this router sends `path` to.
    pub open spec fn route_of(&self, path: Seq<char>) -> Route {
        route_for(self.prefix(), path)
    }

    /// Builds a router over `prefix`, with `svc` in the primary slot and
    /// `default_svc` in the secondary one.
    pub fn new(prefix: &str, svc: A, default_svc: B) -> (r: Self)
        ensures
            r.prefix() == prefix@,
            r.primary() == svc,
            r.secondary() == default_svc,
    {
        Self { url_prefix: prefix.to_string(), svc, default_svc }
    }

    /// Decides the slot for a request path by the byte-prefix test.
    pub fn route(&self, path: &str) -> (r: Route)
        ensures
            r == self.route_of(path@),
    {
        if has_prefix(path, self.url_prefix.as_str()) {
            Route::Primary
        } else {
            Route::Secondary
        }
    }

    /// Forwards `request`, whose path is `path`, unchanged to exactly one
    /// handler: the primary one when the path begins with the prefix, the
    /// secondary one otherwise. The other handler is not touched.
    pub fn dispatch<R>(&mut self, path: &str, request: R) -> (r: Routed<
        <A as Handle<R>>::Output,
        <B as Handle<R>>::Output,
    >) where A: Handle<R>, B: Handle<R>
        ensures
            final(self).prefix() == old(self).prefix(),
            old(self).route_of(path@) == Route::Primary ==> r is Primary && final(self).secondary()
                == old(self).secondary(),
            old(self).route_of(path@) == Route::Secondary ==> r is Secondary
                && final(self).primary() == old(self).primary(),
    {
        match self.route(path) {
            Route::Primary => Routed::Primary(self.svc.handle(request)),
            Route::Secondary => Routed::Secondary(self.default_svc.handle(request)),
        }
    }

    /// Readiness: the router accepts work at all times and leaves any
    /// backpressure to the handler a request reaches.
    pub fn poll_ready(&self) -> (r: bool)
        ensures
            r,
    {
        true
    }

    /// Makes a fresh router from this one's configuration, for a host that
    /// instantiates one per connection.
    pub fn make_service(&self) -> (r: Self) where A: Clone, B: Clone
        ensures
            r.prefix() == self.prefix(),
    {
        Self {
            url_prefix: self.url_prefix.clone(),
            svc: self.svc.clone(),
            default_svc: self.default_svc.clone(),
        }
    }
}

/// Routing depends on the prefix and the path alone: two routers built
/// with the same prefix, whatever their handlers, send each path to the
/// same slot.
pub proof fn lemma_same_prefix_same_route<A, B, C, D>(
    a: Router2<A, B>,
    b: Router2<C, D>,
    path: Seq<char>,
)
    requires
        a.prefix() == b.prefix(),
    ensures
        a.route_of(path) == b.route_of(path),
{
}

/// The empty prefix begins every path, so a router built with it sends
/// every request to the primary handler.
pub proof fn lemma_empty_prefix_routes_primary<A, B>(r: Router2<A, B>, path: Seq<char>)
    requires
        r.prefix().len() == 0,
    ensures
        r.route_of(path) == Route::Primary,
{
    assert(r.prefix() =~= Seq::<char>::empty());
    assert(encode_utf8(r.prefix()) =~= Seq::<u8>::empty());
    assert(encode_utf8(path).subrange(0, 0) =~= Seq::<u8>::empty());
}

/// The test is on bytes and knows no path segments: a prefix matches every
/// path made of it followed by anything at all.
pub proof fn lemma_prefix_of_extension<A, B>(r: Router2<A, B>, rest: Seq<char>)
    ensures
        r.route_of(r.prefix() + rest) == Route::Primary,
{
    lemma_encode_utf8_concat(r.prefix(), rest);
    let p = encode_utf8(r.prefix());
    let q = encode_utf8(rest);
    assert((p + q).subrange(0, p.len() as int) =~= p);
}

} // verus!
