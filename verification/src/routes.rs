//! Routes, and the choice of the most specific route for a request path.

use vstd::prelude::*;
use vstd::utf8::encode_utf8;
use crate::segments::{
    bytes_start_with, request_segments, segment_views, segments_start_with, split_path,
    split_request_path, split_segments,
};

verus! {

/// A route of the registry: requests whose path begins with `address` belong
/// to the service `image_name`.
#[derive(Debug, PartialEq, Eq)]
pub struct ContainerRoute {
    pub address: String,
    pub image_name: String,
}

/// What a route says, as plain text.
pub struct RouteView {
    pub address: Seq<char>,
    pub image_name: Seq<char>,
}

impl View for ContainerRoute {
    type V = RouteView;

    open spec fn view(&self) -> RouteView {
        RouteView { address: self.address@, image_name: self.image_name@ }
    }
}

impl ContainerRoute {
    /// A route from an address pattern to a service.
    pub fn new(address: String, image_name: String) -> (route: ContainerRoute)
        ensures
            route@.address == address@,
            route@.image_name == image_name@,
    {
        ContainerRoute { address, image_name }
    }

    /// A second route that says the same.
    pub fn duplicate(&self) -> (copy: ContainerRoute)
        ensures
            copy@ == self@,
    {
        ContainerRoute { address: self.address.clone(), image_name: self.image_name.clone() }
    }
}

/// What a list of routes says, route by route.
pub open spec fn route_table(routes: Seq<ContainerRoute>) -> Seq<RouteView> {
    routes.map_values(|route: ContainerRoute| route@)
}

/// The segments of a route's address.
pub open spec fn route_segments(route: RouteView) -> Seq<Seq<u8>> {
    split_segments(encode_utf8(route.address))
}

/// How specific a route is: the number of segments of its address. A route
/// with none is a catch-all.
pub open spec fn specificity(route: RouteView) -> nat {
    route_segments(route).len()
}

/// Whether the registry offers `route` for `path`: the bytes of the address
/// stand at the start of the bytes of the path.
pub open spec fn offered(route: RouteView, path: Seq<char>) -> bool {
    encode_utf8(route.address).is_prefix_of(encode_utf8(path))
}

/// Whether `route` can serve `path`: the segments of its address are the
/// first segments of the path, each one equal as a whole.
pub open spec fn eligible(route: RouteView, path: Seq<char>) -> bool {
    route_segments(route).is_prefix_of(request_segments(encode_utf8(path)))
}

/// Whether the route at `i` wins among the first `n` routes of `table`: it is
/// eligible, none of them that is eligible is more specific, and none before
/// it is as specific.
pub open spec fn wins_among(table: Seq<RouteView>, path: Seq<char>, n: int, i: int) -> bool {
    &&& 0 <= i < n <= table.len()
    &&& eligible(table[i], path)
    &&& forall|j: int|
        0 <= j < n && eligible(#[trigger] table[j], path) ==> specificity(table[j]) <= specificity(
            table[i],
        )
    &&& forall|j: int|
        0 <= j < i && eligible(#[trigger] table[j], path) ==> specificity(table[j]) < specificity(
            table[i],
        )
}

/// Whether the route at `i` is the one that serves `path`.
pub open spec fn wins(table: Seq<RouteView>, path: Seq<char>, i: int) -> bool {
    wins_among(table, path, table.len() as int, i)
}

/// Whether any route of `table` can serve `path`.
pub open spec fn some_eligible(table: Seq<RouteView>, path: Seq<char>) -> bool {
    exists|i: int| 0 <= i < table.len() && eligible(#[trigger] table[i], path)
}

/// The index of the route that is chosen for `path`, where some route can
/// serve it: the winner.
pub open spec fn chosen_index(table: Seq<RouteView>, path: Seq<char>) -> int
    recommends
        some_eligible(table, path),
{
    choose|i: int| wins(table, path, i)
}

/// The service that is chosen for `path` among the routes of `table`: that
/// of the winner, and none where no route can serve the path.
pub open spec fn chosen_service(table: Seq<RouteView>, path: Seq<char>) -> Option<Seq<char>> {
    if some_eligible(table, path) {
        Some(table[chosen_index(table, path)].image_name)
    } else {
        None
    }
}

/// What resolving `path` against the routes that the registry offered gives:
/// nothing for no route, the service of a single route as it is, and for
/// several the service that is chosen among them.
pub open spec fn identified(table: Seq<RouteView>, path: Seq<char>) -> Option<Seq<char>> {
    if table.len() == 0 {
        None
    } else if table.len() == 1 {
        Some(table[0].image_name)
    } else {
        chosen_service(table, path)
    }
}

/// The routes of `table` that the registry offers for `path`, in their order.
pub open spec fn offered_routes(table: Seq<RouteView>, path: Seq<char>) -> Seq<RouteView> {
    table.filter(|route: RouteView| offered(route, path))
}

/// Two routes that both win are the same route.
pub proof fn lemma_winner_is_unique(table: Seq<RouteView>, path: Seq<char>, a: int, b: int)
    requires
        wins(table, path, a),
        wins(table, path, b),
    ensures
        a == b,
{
    if a < b {
        assert(eligible(table[a], path));
    } else if b < a {
        assert(eligible(table[b], path));
    }
}

/// Among the first `n` routes, if one is eligible then one wins.
proof fn lemma_winner_exists(table: Seq<RouteView>, path: Seq<char>, n: int)
    requires
        0 <= n <= table.len(),
        exists|j: int| 0 <= j < n && eligible(#[trigger] table[j], path),
    ensures
        exists|i: int| wins_among(table, path, n, i),
    decreases n,
{
    let last = n - 1;
    if exists|j: int| 0 <= j < last && eligible(#[trigger] table[j], path) {
        lemma_winner_exists(table, path, last);
        let earlier = choose|i: int| wins_among(table, path, last, i);
        if eligible(table[last], path) && specificity(table[earlier]) < specificity(table[last]) {
            assert(wins_among(table, path, n, last));
        } else {
            assert(wins_among(table, path, n, earlier));
        }
    } else {
        assert(eligible(table[last], path));
        assert(wins_among(table, path, n, last));
    }
}

/// Where some route can serve the path, the chosen route is the one that
/// can serve it and has the most segments; of several with that many
/// segments it is the earliest in the table. No other route is chosen.
pub proof fn chosen_route_is_most_specific(table: Seq<RouteView>, path: Seq<char>)
    requires
        some_eligible(table, path),
    ensures
        wins(table, path, chosen_index(table, path)),
        forall|i: int| wins(table, path, i) ==> i == chosen_index(table, path),
{
    lemma_winner_exists(table, path, table.len() as int);
    let winner = choose|i: int| wins_among(table, path, table.len() as int, i);
    assert(wins(table, path, winner));
    let chosen = chosen_index(table, path);
    assert forall|i: int| wins(table, path, i) implies i == chosen by {
        lemma_winner_is_unique(table, path, i, chosen);
    }
}

/// Only a route that can serve the path is chosen: a service is chosen
/// exactly where some route is eligible, and it is the service of an
/// eligible route.
pub proof fn chosen_service_is_eligible(table: Seq<RouteView>, path: Seq<char>)
    ensures
        chosen_service(table, path) is Some <==> some_eligible(table, path),
        chosen_service(table, path) matches Some(name) ==> exists|i: int|
            0 <= i < table.len() && eligible(#[trigger] table[i], path) && table[i].image_name
                == name,
{
    if some_eligible(table, path) {
        chosen_route_is_most_specific(table, path);
        let chosen = chosen_index(table, path);
        assert(eligible(table[chosen], path));
    }
}

/// Several offered routes of which none can serve the path resolve to no
/// service; a single offered route is taken as it is.
pub proof fn ineligible_routes_resolve_to_none(table: Seq<RouteView>, path: Seq<char>)
    ensures
        identified(table, path) is None <==> table.len() != 1 && !some_eligible(table, path),
{
    if table.len() == 0 {
        assert(!some_eligible(table, path));
    }
}

/// A route whose address has no segment, such as `/`, can serve every path.
pub proof fn catch_all_is_eligible(route: RouteView, path: Seq<char>)
    requires
        specificity(route) == 0,
    ensures
        eligible(route, path),
{
    let none = route_segments(route);
    let all = request_segments(encode_utf8(path));
    assert(none =~= all.subrange(0, 0));
}

/// A path for which the registry offers no route resolves to no service.
pub proof fn unoffered_path_resolves_to_none(table: Seq<RouteView>, path: Seq<char>)
    requires
        forall|i: int| 0 <= i < table.len() ==> !offered(#[trigger] table[i], path),
    ensures
        identified(offered_routes(table, path), path) is None,
{
    let pred = |route: RouteView| offered(route, path);
    let found = table.filter(pred);
    if found.len() > 0 {
        table.lemma_filter_pred(pred, 0);
        assert(found.contains(found[0]));
        table.lemma_filter_contains_rev(pred, found[0]);
        let i = choose|i: int| 0 <= i < table.len() && table[i] == found[0];
        assert(offered(table[i], path));
    }
}

/// A path resolves to the service of a route that the registry offers for it,
/// never to another.
pub proof fn resolved_service_is_offered(table: Seq<RouteView>, path: Seq<char>)
    requires
        identified(offered_routes(table, path), path) is Some,
    ensures
        exists|i: int|
            0 <= i < table.len() && offered(#[trigger] table[i], path) && Some(
                table[i].image_name,
            ) == identified(offered_routes(table, path), path),
{
    let pred = |route: RouteView| offered(route, path);
    let found = table.filter(pred);
    let k = if found.len() == 1 {
        0
    } else {
        chosen_index(found, path)
    };
    if found.len() != 1 {
        chosen_route_is_most_specific(found, path);
    }
    table.lemma_filter_pred(pred, k);
    assert(found.contains(found[k]));
    table.lemma_filter_contains_rev(pred, found[k]);
    let i = choose|i: int| 0 <= i < table.len() && table[i] == found[k];
    assert(offered(table[i], path));
}

/// Among the routes that the registry offered, picks the service of the most
/// specific route that can serve `uri`; of several that are equally specific,
/// the earliest. Where no route can serve it, no service.
pub fn route_resolver(container_route_matches: Vec<ContainerRoute>, uri: String) -> (image: Option<
    String,
>)
    ensures
        image is Some <==> some_eligible(route_table(container_route_matches@), uri@),
        image matches Some(name) ==> name@ == route_table(container_route_matches@)[chosen_index(
            route_table(container_route_matches@),
            uri@,
        )].image_name,
        (match image {
            Some(name) => Some(name@),
            None => None,
        }) == chosen_service(route_table(container_route_matches@), uri@),
{
    let ghost table = route_table(container_route_matches@);
    let path = split_request_path(uri.as_str().as_bytes());
    let mut best: usize = 0;
    let mut best_len: usize = 0;
    let mut found: bool = false;
    let mut i: usize = 0;
    while i < container_route_matches.len()
        invariant
            i <= container_route_matches@.len(),
            table == route_table(container_route_matches@),
            segment_views(path@) == request_segments(encode_utf8(uri@)),
            !found ==> forall|j: int| 0 <= j < i ==> !eligible(#[trigger] table[j], uri@),
            found ==> wins_among(table, uri@, i as int, best as int) && best_len == specificity(
                table[best as int],
            ),
        decreases container_route_matches@.len() - i,
    {
        let pattern = split_path(container_route_matches[i].address.as_str().as_bytes());
        assert(table[i as int] == container_route_matches@[i as int]@);
        assert(segment_views(pattern@) == route_segments(table[i as int]));
        assert(segment_views(pattern@).len() == pattern@.len());
        if segments_start_with(&path, &pattern) && (!found || pattern.len() > best_len) {
            best = i;
            best_len = pattern.len();
            found = true;
        }
        i = i + 1;
    }
    if found {
        proof {
            assert(wins(table, uri@, best as int));
            assert(eligible(table[best as int], uri@));
            chosen_route_is_most_specific(table, uri@);
            assert(table[best as int] == container_route_matches@[best as int]@);
        }
        Some(container_route_matches[best].image_name.clone())
    } else {
        None
    }
}

/// Resolves `uri` against the routes that the registry offered for it: no
/// service for no route, the service of a single route without a further look
/// at it, and for several the choice of `route_resolver`, which is none where
/// none of them can serve `uri`.
pub fn route_identifier(uri: String, container_route_matches: Vec<ContainerRoute>) -> (image:
    Option<String>)
    ensures
        image is Some <==> container_route_matches@.len() == 1 || (container_route_matches@.len()
            > 1 && some_eligible(route_table(container_route_matches@), uri@)),
        (match image {
            Some(name) => Some(name@) == identified(route_table(container_route_matches@), uri@),
            None => identified(route_table(container_route_matches@), uri@) is None,
        }),
{
    if container_route_matches.len() == 0 {
        None
    } else if container_route_matches.len() == 1 {
        assert(route_table(container_route_matches@)[0] == container_route_matches@[0]@);
        Some(container_route_matches[0].image_name.clone())
    } else {
        route_resolver(container_route_matches, uri)
    }
}

/// Whether the registry offers a route with this address for `uri`.
pub fn address_matches(address: &str, uri: &str) -> (found: bool)
    ensures
        found == encode_utf8(address@).is_prefix_of(encode_utf8(uri@)),
{
    bytes_start_with(uri.as_bytes(), address.as_bytes())
}

/// The routes of `routes` that the registry offers for `uri`, in their order.
pub fn matching_routes(routes: &Vec<ContainerRoute>, uri: &str) -> (matches: Vec<ContainerRoute>)
    ensures
        route_table(matches@) == offered_routes(route_table(routes@), uri@),
{
    let ghost table = route_table(routes@);
    let ghost pred = |route: RouteView| offered(route, uri@);
    let mut matches: Vec<ContainerRoute> = Vec::new();
    let mut i: usize = 0;
    proof {
        reveal(Seq::filter);
        assert(table.take(0) =~= Seq::<RouteView>::empty());
        assert(route_table(matches@) =~= table.take(0).filter(pred));
    }
    while i < routes.len()
        invariant
            i <= routes@.len(),
            table == route_table(routes@),
            pred == (|route: RouteView| offered(route, uri@)),
            route_table(matches@) == table.take(i as int).filter(pred),
        decreases routes@.len() - i,
    {
        let ghost before = route_table(matches@);
        proof {
            reveal(Seq::filter);
            assert(table.take(i + 1).drop_last() =~= table.take(i as int));
            assert(table.take(i + 1).last() == routes@[i as int]@);
        }
        if address_matches(routes[i].address.as_str(), uri) {
            let copy = routes[i].duplicate();
            matches.push(copy);
            assert(route_table(matches@) =~= before.push(copy@));
        }
        i = i + 1;
    }
    assert(table.take(i as int) =~= table);
    matches
}

/// Resolves `uri` against all the routes of a registry: first the routes that
/// the registry offers for it, then the choice among them.
pub fn resolve(routes: &Vec<ContainerRoute>, uri: &str) -> (image: Option<String>)
    ensures
        (match image {
            Some(name) => Some(name@) == identified(
                offered_routes(route_table(routes@), uri@),
                uri@,
            ),
            None => identified(offered_routes(route_table(routes@), uri@), uri@) is None,
        }),
{
    let matches = matching_routes(routes, uri);
    route_identifier(uri.to_owned(), matches)
}

} // verus!
