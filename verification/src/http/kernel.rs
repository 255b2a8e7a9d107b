//! The plan by which routes, logging and cross-origin rules are set up.
use ntex::http::Method;
use vstd::prelude::*;

verus! {

/// A controller: the path under which its handlers are mounted.
#[derive(Debug, Clone)]
pub struct Controller {
    pub path: String,
}

/// A group of controllers under one prefix, wrapped by a number of
/// middlewares.
#[derive(Debug)]
pub struct Route {
    pub prefix: String,
    /// How many middlewares the route has.
    pub middlewares: usize,
    pub controllers: Vec<Controller>,
}

/// One scope to register: its path and the positions of the middlewares
/// that wrap it, in wrapping order.
#[derive(Debug)]
pub struct Scope {
    pub path: String,
    pub wraps: Vec<usize>,
}

/// The positions of the middlewares that wrap a scope: none for the root
/// scope, whose path is empty; otherwise the first, the second and the last
/// of them, as far as there are that many.
pub open spec fn wraps_of(path: Seq<char>, middlewares: usize) -> Seq<usize> {
    if path.len() == 0 || middlewares == 0 {
        Seq::empty()
    } else if middlewares == 1 {
        seq![0usize]
    } else if middlewares == 2 {
        seq![0usize, 1usize]
    } else {
        seq![0usize, 1usize, (middlewares - 1) as usize]
    }
}

/// The scopes of one route from its controller `from` on, in order.
pub open spec fn route_scopes(route: Route, from: int) -> Seq<(Seq<char>, Seq<usize>)>
    decreases route.controllers@.len() - from,
{
    if from < 0 || from >= route.controllers@.len() {
        Seq::empty()
    } else {
        let path = route.prefix@ + route.controllers@[from].path@;
        seq![(path, wraps_of(path, route.middlewares))] + route_scopes(route, from + 1)
    }
}

/// The scopes of the routes from `from` on: route by route, controller by
/// controller.
pub open spec fn all_scopes(routes: Seq<Route>, from: int) -> Seq<(Seq<char>, Seq<usize>)>
    decreases routes.len() - from,
{
    if from < 0 || from >= routes.len() {
        Seq::empty()
    } else {
        route_scopes(routes[from], 0) + all_scopes(routes, from + 1)
    }
}

/// The paths and wraps of a list of scopes.
pub open spec fn scope_views(scopes: Seq<Scope>) -> Seq<(Seq<char>, Seq<usize>)> {
    scopes.map_values(|s: Scope| (s.path@, s.wraps@))
}

/// The scope for a controller mounted at `path` under `prefix`, on a route
/// with `middlewares` middlewares.
pub fn plan_scope(prefix: &str, path: &str, middlewares: usize) -> (r: Scope)
    ensures
        r.path@ == prefix@ + path@,
        r.wraps@ == wraps_of(prefix@ + path@, middlewares),
{
    let mut full = String::from_str(prefix);
    full.append(path);
    let mut wraps: Vec<usize> = Vec::new();
    if !full.as_str().is_empty() && middlewares > 0 {
        wraps.push(0);
        if middlewares >= 2 {
            wraps.push(1);
        }
        if middlewares > 2 {
            wraps.push(middlewares - 1);
        }
    }
    assert(wraps@ == wraps_of(full@, middlewares));
    Scope { path: full, wraps }
}

/// The scopes to register for `routes`, in the order in which they are
/// registered.
pub fn register_routes(routes: &Vec<Route>) -> (r: Vec<Scope>)
    ensures
        scope_views(r@) == all_scopes(routes@, 0),
{
    let mut scopes: Vec<Scope> = Vec::new();
    assert(scope_views(scopes@) == Seq::<(Seq<char>, Seq<usize>)>::empty());
    let mut i: usize = 0;
    while i < routes.len()
        invariant
            i <= routes.len(),
            scope_views(scopes@) + all_scopes(routes@, i as int) == all_scopes(routes@, 0),
        decreases routes.len() - i,
    {
        let route = &routes[i];
        let ghost before = scope_views(scopes@);
        let mut j: usize = 0;
        while j < route.controllers.len()
            invariant
                j <= route.controllers.len(),
                *route == routes@[i as int],
                scope_views(scopes@) + route_scopes(*route, j as int) == before + route_scopes(
                    *route,
                    0,
                ),
            decreases route.controllers.len() - j,
        {
            let ghost prior = scope_views(scopes@);
            let scope = plan_scope(
                route.prefix.as_str(),
                route.controllers[j].path.as_str(),
                route.middlewares,
            );
            scopes.push(scope);
            assert(scope_views(scopes@) == prior.push((scope.path@, scope.wraps@)));
            assert(prior + route_scopes(*route, j as int) == prior.push(
                (scope.path@, scope.wraps@),
            ) + route_scopes(*route, j + 1));
            j = j + 1;
        }
        assert(route_scopes(*route, j as int) == Seq::<(Seq<char>, Seq<usize>)>::empty());
        assert(scope_views(scopes@) + all_scopes(routes@, i + 1) == before + (route_scopes(
            *route,
            0,
        ) + all_scopes(routes@, i + 1)));
        i = i + 1;
    }
    assert(all_scopes(routes@, i as int) == Seq::<(Seq<char>, Seq<usize>)>::empty());
    scopes
}

/// The paths whose requests are not logged.
pub fn setup_logger() -> (r: Vec<String>)
    ensures
        r@.len() == 3,
        r@[0]@ == "/favicon.ico"@,
        r@[1]@ == "/system/health-check"@,
        r@[2]@ == "/api/v1/admin/health-check"@,
{
    let mut excluded: Vec<String> = Vec::new();
    excluded.push(String::from_str("/favicon.ico"));
    excluded.push(String::from_str("/system/health-check"));
    excluded.push(String::from_str("/api/v1/admin/health-check"));
    excluded
}

/// The methods that cross-origin requests may use.
pub enum CorsMethods {
    /// `GET`, `POST`, `PUT`, `PATCH`, `DELETE` and `OPTIONS`.
    Standard,
    /// The methods given.
    Given(Vec<Method>),
}

/// The cross-origin rules of an application.
pub struct CorsPlan {
    /// The allowed origins, with `All` standing for every origin.
    pub origins: Vec<String>,
    pub methods: CorsMethods,
    /// For how many seconds a browser may cache the rules.
    pub max_age: usize,
}

/// The origin as the rules name it: `All` for `*`, the origin itself
/// otherwise.
pub open spec fn origin_name(origin: Seq<char>) -> Seq<char> {
    if origin == "*"@ {
        "All"@
    } else {
        origin
    }
}

/// The names of a list of origins.
pub open spec fn origin_names(origins: Seq<String>) -> Seq<Seq<char>> {
    origins.map_values(|o: String| origin_name(o@))
}

/// The cross-origin rules for the given origins and methods: every origin
/// under its name, the standard methods where none is given, and a cache
/// time of one hour.
pub fn setup_cors(origins: Vec<String>, methods: Vec<Method>) -> (r: CorsPlan)
    ensures
        r.origins@.map_values(|o: String| o@) == origin_names(origins@),
        methods@.len() == 0 ==> r.methods is Standard,
        methods@.len() > 0 ==> r.methods == CorsMethods::Given(methods),
        r.max_age == 3600,
{
    let mut named: Vec<String> = Vec::new();
    let mut i: usize = 0;
    while i < origins.len()
        invariant
            i <= origins.len(),
            named@.map_values(|o: String| o@) == origin_names(origins@).take(i as int),
        decreases origins.len() - i,
    {
        let ghost before = named@.map_values(|o: String| o@);
        let name = if origins[i].as_str().eq("*") {
            String::from_str("All")
        } else {
            origins[i].clone()
        };
        named.push(name);
        assert(named@.map_values(|o: String| o@) == before.push(name@));
        assert(origin_names(origins@).take(i + 1) == origin_names(origins@).take(i as int).push(
            origin_name(origins@[i as int]@),
        ));
        i = i + 1;
    }
    assert(origin_names(origins@).take(i as int) == origin_names(origins@));
    let allowed = if methods.len() == 0 {
        CorsMethods::Standard
    } else {
        CorsMethods::Given(methods)
    };
    CorsPlan { origins: named, methods: allowed, max_age: 3600 }
}

} // verus!
