//! Service wiring: the repository handle and the route table, with the
//! blog routes mounted twice — once at the root and once, in the order the
//! service registers them, under the `/users` prefix.

use vstd::prelude::*;

use crate::repository::MongoRepo;

verus! {

/// The HTTP method of a route.
#[derive(Clone, Copy, PartialEq, Eq, Structural, Debug)]
pub enum Method {
    Get,
    Post,
    Put,
    Delete,
}

/// One mounted route: its method, the base it is mounted under, and its
/// path relative to that base.
#[derive(Clone, Copy)]
pub struct Route {
    pub method: Method,
    pub base: &'static str,
    pub path: &'static str,
}

/// The assembled service: one long-lived repository handle, shared by every
/// route, and the table of mounted routes.
pub struct Service {
    pub db: MongoRepo,
    pub routes: Vec<Route>,
}

pub open spec fn route_is(r: Route, m: Method, base: Seq<char>, path: Seq<char>) -> bool {
    r.method == m && r.base@ == base && r.path@ == path
}

/// The full route table: the five blog routes under the root, and the same
/// five (a mounting duplication, not a distinct resource) under `/users`.
pub open spec fn spec_route_table(rs: Seq<Route>) -> bool {
    &&& rs.len() == 10
    &&& route_is(rs[0], Method::Post, "/"@, "/blog"@)
    &&& route_is(rs[1], Method::Get, "/"@, "/blog/<path>"@)
    &&& route_is(rs[2], Method::Put, "/"@, "/blog/<path>"@)
    &&& route_is(rs[3], Method::Delete, "/"@, "/blog/<path>"@)
    &&& route_is(rs[4], Method::Get, "/"@, "/blogs"@)
    &&& route_is(rs[5], Method::Post, "/users"@, "/blog"@)
    &&& route_is(rs[6], Method::Get, "/users"@, "/blogs"@)
    &&& route_is(rs[7], Method::Put, "/users"@, "/blog/<path>"@)
    &&& route_is(rs[8], Method::Delete, "/users"@, "/blog/<path>"@)
    &&& route_is(rs[9], Method::Get, "/users"@, "/blog/<path>"@)
}

/// Builds the service: a fresh, empty repository and the ten mounted
/// routes.
pub fn rocket() -> (r: Service)
    ensures
        r.db.wf(),
        r.db.posts() == Seq::<crate::model::BlogView>::empty(),
        r.db.id_seed() == 0,
        spec_route_table(r.routes@),
{
    let db = MongoRepo::init();
    let mut routes: Vec<Route> = Vec::new();
    routes.push(Route { method: Method::Post, base: "/", path: "/blog" });
    routes.push(Route { method: Method::Get, base: "/", path: "/blog/<path>" });
    routes.push(Route { method: Method::Put, base: "/", path: "/blog/<path>" });
    routes.push(Route { method: Method::Delete, base: "/", path: "/blog/<path>" });
    routes.push(Route { method: Method::Get, base: "/", path: "/blogs" });
    routes.push(Route { method: Method::Post, base: "/users", path: "/blog" });
    routes.push(Route { method: Method::Get, base: "/users", path: "/blogs" });
    routes.push(Route { method: Method::Put, base: "/users", path: "/blog/<path>" });
    routes.push(Route { method: Method::Delete, base: "/users", path: "/blog/<path>" });
    routes.push(Route { method: Method::Get, base: "/users", path: "/blog/<path>" });
    Service { db, routes }
}

} // verus!
