//! Routing tables of RPC methods, subscription channels and publication
//! channels.  Routes may hold parameters (`users/{id}`); a lookup returns
//! the index of the handler registered for the route and the values of the
//! parameters.  The tables are `matchit` routers holding handler indices.

use matchit::{InsertError, Router};
use vstd::prelude::*;
use vstd::string::StringSliceAdditionalSpecFns;

verus! {

#[verifier::external_type_specification]
#[verifier::external_body]
#[verifier::reject_recursive_types(T)]
pub struct ExRouter<T>(Router<T>);

#[verifier::external_type_specification]
#[verifier::external_body]
pub struct ExInsertError(InsertError);

/// The routes a router holds, each with its handler index.
pub uninterp spec fn route_table(r: Router<usize>) -> Map<Seq<char>, usize>;

/// What `Router::insert` answers when `route` is inserted into router `r`
/// (its error mapped to a `RouteError`): whether the route is taken depends
/// on the route and on the routes the router's tree holds.
pub uninterp spec fn insert_result(r: Router<usize>, route: Seq<char>) -> Result<(), RouteError>;

/// What `Router::at` finds for `path` in router `r`: the handler index and
/// the parameters (name, value) of the matching route.  The lookup reads
/// the router's tree, which a refused insertion may also have changed, so
/// it is named as a function of the router itself.
pub uninterp spec fn route_match(r: Router<usize>, path: Seq<char>) -> Option<
    (usize, Seq<(Seq<char>, Seq<char>)>),
>;

/// The number of parameters `matchit` names in a route, counted on its
/// bytes: each opening brace that is not part of an escaped pair (`{{`)
/// and does not open a catch-all (`{*`) starts one.
pub open spec fn route_params(b: Seq<u8>) -> nat
    decreases b.len(),
{
    if b.len() == 0 {
        0
    } else if b.len() >= 2 && ((b[0] == 123 && b[1] == 123) || (b[0] == 125 && b[1] == 125)) {
        route_params(b.skip(2))
    } else if b[0] == 123 && !(b.len() >= 2 && b[1] == 42) {
        1 + route_params(b.drop_first())
    } else {
        route_params(b.drop_first())
    }
}

/// The most parameters a route may have: `matchit` names them `a` to `y`
/// and panics on the next one.
pub const MAX_ROUTE_PARAMS: usize = 25;

/// The number of parameters in `route`, as `route_params` counts them.
pub fn route_param_count(route: &str) -> (n: usize)
    ensures
        n == route_params(route.spec_bytes()),
{
    let b = route.as_bytes();
    let len = b.len();
    let mut i: usize = 0;
    let mut n: usize = 0;
    assert(b@.skip(0) =~= b@);
    while i < len
        invariant
            len == b@.len(),
            b@ == route.spec_bytes(),
            i <= len,
            n <= i,
            n + route_params(b@.skip(i as int)) == route_params(b@),
        decreases len - i,
    {
        let ghost rest = b@.skip(i as int);
        if i + 1 < len && ((b[i] == 123u8 && b[i + 1] == 123u8) || (b[i] == 125u8 && b[i + 1] == 125u8)) {
            assert(rest.skip(2) =~= b@.skip(i + 2));
            i = i + 2;
        } else {
            if b[i] == 123u8 && !(i + 1 < len && b[i + 1] == 42u8) {
                n = n + 1;
            }
            assert(rest.drop_first() =~= b@.skip(i + 1));
            i = i + 1;
        }
    }
    assert(b@.skip(0) =~= b@);
    n
}

/// Whether a path holds no brace, so that as a route it is static.
pub open spec fn is_static_route(path: Seq<char>) -> bool {
    forall|i: int| 0 <= i < path.len() ==> path[i] != '{' && path[i] != '}'
}

/// Why a route could not be registered.
#[derive(Debug, Clone, PartialEq, Eq)]
pub enum RouteError {
    /// The route conflicts with a route registered before.
    Conflict { with: String },
    /// A segment holds more than one parameter.
    InvalidParamSegment,
    /// A parameter has no valid name or unmatched braces.
    InvalidParam,
    /// A catch-all parameter is not at the end of the route.
    InvalidCatchAll,
    /// Another reason, that this library does not know.
    Other,
}

/// `Router::new`: an empty router.
#[verifier::external_body]
fn new_router() -> (router: Router<usize>)
    ensures
        route_table(router) =~= Map::empty(),
{
    Router::new()
}

/// Views of route parameters.
pub open spec fn params_view(params: Seq<(String, String)>) -> Seq<(Seq<char>, Seq<char>)> {
    params.map_values(|p: (String, String)| (p.0@, p.1@))
}

/// `Router::at`: the handler and parameters of the route that matches
/// `path`.  A handler found is one that a route holds; a path registered as
/// a static route finds that route, with no parameters.
#[verifier::external_body]
fn router_at(router: &Router<usize>, path: &str) -> (found: Option<RouteMatch>)
    ensures
        match_view(found) == route_match(*router, path@),
        found is Some ==> exists|k: Seq<char>|
            route_table(*router).contains_key(k) && route_table(*router)[k] == found->0.handler,
        (route_table(*router).contains_key(path@) && is_static_route(path@)) ==> (found is Some
            && found->0.handler == route_table(*router)[path@] && found->0.params@.len() == 0),
{
    match router.at(path) {
        Ok(m) => Some(RouteMatch {
            handler: *m.value,
            params: m.params.iter().map(|(k, v)| (k.to_owned(), v.to_owned())).collect(),
        }),
        Err(_) => None,
    }
}

/// A route found for a request: the handler index and the parameters.
pub struct RouteMatch {
    pub handler: usize,
    pub params: Vec<(String, String)>,
}

/// The view of a route match, in the form `route_match` gives it.
pub open spec fn match_view(m: Option<RouteMatch>) -> Option<(usize, Seq<(Seq<char>, Seq<char>)>)> {
    match m {
        Some(m) => Some((m.handler, params_view(m.params@))),
        None => None,
    }
}

/// `Router::insert`: registers `route` with `handler`.  A route already
/// registered (or one that conflicts with one) is refused and the router
/// keeps its routes.  `matchit` panics on a route with more than 25
/// parameters, which `requires` leaves out.
#[verifier::external_body]
fn router_insert(router: &mut Router<usize>, route: &str, handler: usize) -> (res: Result<(), RouteError>)
    requires
        route_params(route.spec_bytes()) <= MAX_ROUTE_PARAMS,
    ensures
        res == insert_result(*old(router), route@),
        res is Ok ==> !route_table(*old(router)).contains_key(route@) && route_table(*final(router))
            == route_table(*old(router)).insert(route@, handler),
        res is Err ==> route_table(*final(router)) == route_table(*old(router)),
{
    match router.insert(route, handler) {
        Ok(()) => Ok(()),
        Err(InsertError::Conflict { with }) => Err(RouteError::Conflict { with }),
        Err(InsertError::InvalidParamSegment) => Err(RouteError::InvalidParamSegment),
        Err(InsertError::InvalidParam) => Err(RouteError::InvalidParam),
        Err(InsertError::InvalidCatchAll) => Err(RouteError::InvalidCatchAll),
        Err(_) => Err(RouteError::Other),
    }
}

/// The three routing tables of a server.
pub struct ServerRoutes {
    rpc_methods: Router<usize>,
    sub_channels: Router<usize>,
    pub_channels: Router<usize>,
}

impl ServerRoutes {
    /// Routes of RPC methods.
    pub closed spec fn rpc_routes(&self) -> Map<Seq<char>, usize> {
        route_table(self.rpc_methods)
    }

    /// Routes of channels that can be subscribed to.
    pub closed spec fn sub_routes(&self) -> Map<Seq<char>, usize> {
        route_table(self.sub_channels)
    }

    /// The router of RPC methods.
    pub closed spec fn rpc_router(&self) -> Router<usize> {
        self.rpc_methods
    }

    /// The router of subscription channels.
    pub closed spec fn sub_router(&self) -> Router<usize> {
        self.sub_channels
    }

    /// The router of publication channels.
    pub closed spec fn pub_router(&self) -> Router<usize> {
        self.pub_channels
    }

    /// Routes of channels that accept publications.
    pub closed spec fn pub_routes(&self) -> Map<Seq<char>, usize> {
        route_table(self.pub_channels)
    }

    /// Empty tables.
    pub fn new() -> (r: Self)
        ensures
            r.rpc_routes() =~= Map::empty(),
            r.sub_routes() =~= Map::empty(),
            r.pub_routes() =~= Map::empty(),
    {
        ServerRoutes { rpc_methods: new_router(), sub_channels: new_router(), pub_channels: new_router() }
    }

    /// Registers the RPC method route `name` with `handler`; whether it is
    /// taken is what `matchit` answers for the router (`insert_result`).
    pub fn add_rpc_method(&mut self, name: &str, handler: usize) -> (res: Result<(), RouteError>)
        requires
            route_params(name.spec_bytes()) <= MAX_ROUTE_PARAMS,
        ensures
            res == insert_result(old(self).rpc_router(), name@),
            res is Ok ==> !old(self).rpc_routes().contains_key(name@) && final(self).rpc_routes()
                == old(self).rpc_routes().insert(name@, handler),
            res is Err ==> final(self).rpc_routes() == old(self).rpc_routes(),
            final(self).sub_routes() == old(self).sub_routes(),
            final(self).pub_routes() == old(self).pub_routes(),
            final(self).sub_router() == old(self).sub_router(),
            final(self).pub_router() == old(self).pub_router(),
    {
        router_insert(&mut self.rpc_methods, name, handler)
    }

    /// Registers the subscription channel route `name` with `handler`;
    /// whether it is taken is what `matchit` answers (`insert_result`).
    pub fn add_channel(&mut self, name: &str, handler: usize) -> (res: Result<(), RouteError>)
        requires
            route_params(name.spec_bytes()) <= MAX_ROUTE_PARAMS,
        ensures
            res == insert_result(old(self).sub_router(), name@),
            res is Ok ==> !old(self).sub_routes().contains_key(name@) && final(self).sub_routes()
                == old(self).sub_routes().insert(name@, handler),
            res is Err ==> final(self).sub_routes() == old(self).sub_routes(),
            final(self).rpc_routes() == old(self).rpc_routes(),
            final(self).pub_routes() == old(self).pub_routes(),
            final(self).rpc_router() == old(self).rpc_router(),
            final(self).pub_router() == old(self).pub_router(),
    {
        router_insert(&mut self.sub_channels, name, handler)
    }

    /// Registers the publication channel route `name` with `handler`;
    /// whether it is taken is what `matchit` answers (`insert_result`).
    pub fn on_publication(&mut self, name: &str, handler: usize) -> (res: Result<(), RouteError>)
        requires
            route_params(name.spec_bytes()) <= MAX_ROUTE_PARAMS,
        ensures
            res == insert_result(old(self).pub_router(), name@),
            res is Ok ==> !old(self).pub_routes().contains_key(name@) && final(self).pub_routes()
                == old(self).pub_routes().insert(name@, handler),
            res is Err ==> final(self).pub_routes() == old(self).pub_routes(),
            final(self).rpc_routes() == old(self).rpc_routes(),
            final(self).sub_routes() == old(self).sub_routes(),
            final(self).rpc_router() == old(self).rpc_router(),
            final(self).sub_router() == old(self).sub_router(),
    {
        router_insert(&mut self.pub_channels, name, handler)
    }

    /// The RPC method that handles `method`.
    pub fn find_rpc_method(&self, method: &str) -> (m: Option<RouteMatch>)
        ensures
            match_view(m) == route_match(self.rpc_router(), method@),
    {
        Self::lookup(&self.rpc_methods, method)
    }

    /// The subscription channel that serves `channel`.
    pub fn find_channel(&self, channel: &str) -> (m: Option<RouteMatch>)
        ensures
            match_view(m) == route_match(self.sub_router(), channel@),
    {
        Self::lookup(&self.sub_channels, channel)
    }

    /// The publication handler of `channel`.
    pub fn find_publication(&self, channel: &str) -> (m: Option<RouteMatch>)
        ensures
            match_view(m) == route_match(self.pub_router(), channel@),
    {
        Self::lookup(&self.pub_channels, channel)
    }

    fn lookup(r: &Router<usize>, path: &str) -> (m: Option<RouteMatch>)
        ensures
            match_view(m) == route_match(*r, path@),
            m matches Some(x) ==> exists|k: Seq<char>|
                route_table(*r).contains_key(k) && route_table(*r)[k] == x.handler,
            route_table(*r).contains_key(path@) && is_static_route(path@) ==> (m matches Some(x)
                && x.handler == route_table(*r)[path@] && x.params@.len() == 0),
    {
        router_at(r, path)
    }
}

} // verus!
