//! The ready state of the metrics server and the routing of its endpoints:
//! `/health/live` always answers 200, `/health/ready` 200 or 503 by the ready
//! state, `/metrics` the gathered metrics, anything else 404.
use vstd::prelude::*;
use vstd::string::StringExecFns;
use std::sync::atomic::{AtomicBool, Ordering};

verus! {

/// The answer to one request path.
#[derive(Clone, Copy, PartialEq, Eq, Debug, Structural)]
pub enum Route {
    /// `OK`, status 200.
    Live,
    /// `READY`, status 200.
    Ready,
    /// `NOT READY`, status 503.
    NotReady,
    /// The gathered metrics in text form, status 200.
    Metrics,
    /// An empty body, status 404.
    NotFound,
}

/// The route for `path` when the server's ready state is `ready`.
pub open spec fn route_of(path: Seq<char>, ready: bool) -> Route {
    if path == "/health/live"@ {
        Route::Live
    } else if path == "/health/ready"@ {
        if ready { Route::Ready } else { Route::NotReady }
    } else if path == "/metrics"@ {
        Route::Metrics
    } else {
        Route::NotFound
    }
}

/// The HTTP status of a route.
pub open spec fn status_of(r: Route) -> u16 {
    match r {
        Route::Live | Route::Ready | Route::Metrics => 200,
        Route::NotReady => 503,
        Route::NotFound => 404,
    }
}

/// The fixed body of a route; the metrics body is gathered elsewhere.
pub open spec fn body_of(r: Route) -> Seq<char> {
    match r {
        Route::Live => "OK"@,
        Route::Ready => "READY"@,
        Route::NotReady => "NOT READY"@,
        Route::Metrics | Route::NotFound => seq![],
    }
}

/// Chooses the route for `path` given the ready state.
pub fn route(path: &str, ready: bool) -> (r: Route)
    ensures
        r == route_of(path@, ready),
{
    proof {
        reveal_strlit("/health/live");
        reveal_strlit("/health/ready");
        reveal_strlit("/metrics");
    }
    let p = <String as StringExecFns>::from_str(path);
    if p == <String as StringExecFns>::from_str("/health/live") {
        Route::Live
    } else if p == <String as StringExecFns>::from_str("/health/ready") {
        if ready { Route::Ready } else { Route::NotReady }
    } else if p == <String as StringExecFns>::from_str("/metrics") {
        Route::Metrics
    } else {
        Route::NotFound
    }
}

impl Route {
    /// The HTTP status code of the route.
    pub fn status(&self) -> (r: u16)
        ensures
            r == status_of(*self),
    {
        match self {
            Route::Live | Route::Ready | Route::Metrics => 200,
            Route::NotReady => 503,
            Route::NotFound => 404,
        }
    }

    /// The fixed body of the route (empty for `Metrics` and `NotFound`).
    pub fn body(&self) -> (r: &'static str)
        ensures
            r@ == body_of(*self),
    {
        proof {
            reveal_strlit("OK");
            reveal_strlit("READY");
            reveal_strlit("NOT READY");
            reveal_strlit("");
        }
        match self {
            Route::Live => "OK",
            Route::Ready => "READY",
            Route::NotReady => "NOT READY",
            Route::Metrics | Route::NotFound => "",
        }
    }
}

/// The state shared by the metrics server's handlers.
pub struct MetricsServer {
    ready: AtomicBool,
}

impl MetricsServer {
    /// A server state that starts as `ready`.
    pub fn new(ready: bool) -> (r: Self) {
        MetricsServer { ready: AtomicBool::new(ready) }
    }

    /// Sets the ready state.
    pub fn set_ready(&self, ready: bool) {
        self.ready.store(ready, Ordering::Relaxed);
    }

    /// Reads the ready state; another thread may change it at any time.
    pub fn is_ready(&self) -> (r: bool) {
        self.ready.load(Ordering::Relaxed)
    }

    /// The route for `path` under the ready state read now.
    pub fn handle(&self, path: &str) -> (r: Route)
        ensures
            r == route_of(path@, true) || r == route_of(path@, false),
    {
        let ready = self.is_ready();
        route(path, ready)
    }
}

} // verus!
