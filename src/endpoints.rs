//! Unsigned URLs of the API's resources.
use vstd::prelude::*;
use crate::request_url::{RequestUrl, UrlView, is_plain_segment_char};

verus! {

/// The scheme and host of the API.
pub open spec fn api_prefix() -> Seq<char> {
    "https://timetableapi.ptv.vic.gov.au"@
}

/// A URL of the API with the given path and nothing else.
pub open spec fn api_url(path: Seq<char>) -> UrlView {
    UrlView { prefix: api_prefix(), path, query: None, fragment: None }
}

/// The ten decimal digits, in order.
pub open spec fn decimal_digits() -> Seq<char> {
    seq!['0', '1', '2', '3', '4', '5', '6', '7', '8', '9']
}

/// A number in decimal, without leading zeros.
pub open spec fn decimal(n: nat) -> Seq<char>
    decreases n,
{
    if n < 10 {
        seq![decimal_digits()[n as int]]
    } else {
        decimal(n / 10) + seq![decimal_digits()[(n % 10) as int]]
    }
}

/// Relies on std's `Display` for `usize` (through `to_string`): the number in
/// decimal, without sign or leading zeros.
#[verifier::external_body]
fn usize_to_decimal(n: usize) -> (r: String)
    ensures
        r@ == decimal(n as nat),
{
    n.to_string()
}

/// A decimal rendering holds only digits.
proof fn lemma_decimal_plain(n: nat)
    ensures
        forall|i: int| 0 <= i < decimal(n).len() ==> is_plain_segment_char(#[trigger] decimal(n)[i]),
    decreases n,
{
    let d = decimal_digits();
    assert(forall|k: int| 0 <= k < 10 ==> is_plain_segment_char(#[trigger] d[k])) by {
        assert(is_plain_segment_char(d[0]) && is_plain_segment_char(d[1]) && is_plain_segment_char(d[2])
            && is_plain_segment_char(d[3]) && is_plain_segment_char(d[4]) && is_plain_segment_char(d[5])
            && is_plain_segment_char(d[6]) && is_plain_segment_char(d[7]) && is_plain_segment_char(d[8])
            && is_plain_segment_char(d[9]));
    }
    if n >= 10 {
        lemma_decimal_plain(n / 10);
        let prev = decimal(n / 10);
        assert forall|i: int| 0 <= i < decimal(n).len() implies is_plain_segment_char(#[trigger] decimal(n)[i]) by {
            if i < prev.len() {
                assert(decimal(n)[i] == prev[i]);
            }
        }
    }
}

/// Appends a number as a path segment.
fn push_number(url: &mut RequestUrl, n: usize)
    ensures
        final(url)@ == old(url)@.with_segment(decimal(n as nat)),
{
    let s = usize_to_decimal(n);
    proof {
        lemma_decimal_plain(n as nat);
    }
    url.push_segment(s.as_str());
}

/// The URL of every route type.
pub fn route_types_url() -> (r: RequestUrl)
    ensures
        r@ == api_url("/v3/route_types"@),
{
    RequestUrl::from_parts("https://timetableapi.ptv.vic.gov.au", "/v3/route_types")
}

/// The URL of the directions of a route.
pub fn directions_for_route_url(route_id: usize) -> (r: RequestUrl)
    ensures
        r@ == api_url("/v3/directions/route"@).with_segment(decimal(route_id as nat)),
{
    let mut url = RequestUrl::from_parts("https://timetableapi.ptv.vic.gov.au", "/v3/directions/route");
    push_number(&mut url, route_id);
    url
}

/// The URL of the routes that travel in a direction.
pub fn directions_url(direction_id: usize) -> (r: RequestUrl)
    ensures
        r@ == api_url("/v3/directions"@).with_segment(decimal(direction_id as nat)),
{
    let mut url = RequestUrl::from_parts("https://timetableapi.ptv.vic.gov.au", "/v3/directions");
    push_number(&mut url, direction_id);
    url
}

/// The URL of a direction for one route type.
pub fn directions_for_route_type_url(direction_id: usize, route_type_id: usize) -> (r: RequestUrl)
    ensures
        r@ == api_url("/v3/directions"@).with_segment(decimal(direction_id as nat)).with_segment(
            "route_type"@,
        ).with_segment(decimal(route_type_id as nat)),
{
    let mut url = RequestUrl::from_parts("https://timetableapi.ptv.vic.gov.au", "/v3/directions");
    push_number(&mut url, direction_id);
    proof {
        reveal_strlit("route_type");
    }
    url.push_segment("route_type");
    push_number(&mut url, route_type_id);
    url
}

/// The URL of the ticket outlets, with at most `max_results` of them if given.
pub fn outlets_url(max_results: Option<usize>) -> (r: RequestUrl)
    ensures
        r@ == match max_results {
            Some(n) => api_url("/v3/outlets"@).with_pair("max_results"@, decimal(n as nat)),
            None => api_url("/v3/outlets"@),
        },
{
    let mut url = RequestUrl::from_parts("https://timetableapi.ptv.vic.gov.au", "/v3/outlets");
    match max_results {
        Some(n) => {
            let s = usize_to_decimal(n);
            url.append_pair("max_results", s.as_str());
        },
        None => {},
    }
    url
}

/// The URL with one `name=<n>` pair for each number, in order.
pub open spec fn with_numbers(u: UrlView, name: Seq<char>, ns: Seq<usize>) -> UrlView
    decreases ns.len(),
{
    if ns.len() == 0 {
        u
    } else {
        with_numbers(u, name, ns.drop_last()).with_pair(name, decimal(ns.last() as nat))
    }
}

/// The URL with `name=value` appended if a value is given.
pub open spec fn with_optional(u: UrlView, name: Seq<char>, value: Option<Seq<char>>) -> UrlView {
    match value {
        Some(v) => u.with_pair(name, v),
        None => u,
    }
}

/// The URL of the routes of the given route types (all routes if none is
/// given), whose name holds `route_name` if given.
pub fn routes_url(route_types: &[usize], route_name: Option<&str>) -> (r: RequestUrl)
    ensures
        r@ == with_optional(
            with_numbers(api_url("/v3/routes"@), "route_types"@, route_types@),
            "route_name"@,
            match route_name {
                Some(s) => Some(s@),
                None => None,
            },
        ),
{
    let mut url = RequestUrl::from_parts("https://timetableapi.ptv.vic.gov.au", "/v3/routes");
    let mut i: usize = 0;
    while i < route_types.len()
        invariant
            i <= route_types@.len(),
            url@ == with_numbers(api_url("/v3/routes"@), "route_types"@, route_types@.subrange(0, i as int)),
        decreases route_types@.len() - i,
    {
        let s = usize_to_decimal(route_types[i]);
        url.append_pair("route_types", s.as_str());
        assert(route_types@.subrange(0, i + 1).drop_last() =~= route_types@.subrange(0, i as int));
        i = i + 1;
    }
    assert(route_types@.subrange(0, route_types@.len() as int) =~= route_types@);
    match route_name {
        Some(name) => url.append_pair("route_name", name),
        None => {},
    }
    url
}

/// The URL of one route, with its geopaths if asked for, valid on the given
/// ISO 8601 date if one is given.
pub fn route_url(route_id: usize, include_geopath: bool, geopath_utc: Option<&str>) -> (r: RequestUrl)
    ensures
        r@ == with_optional(
            api_url("/v3/routes"@).with_segment(decimal(route_id as nat)).with_pair(
                "include_geopath"@,
                if include_geopath { "true"@ } else { "false"@ },
            ),
            "geopath_utc"@,
            match geopath_utc {
                Some(s) => Some(s@),
                None => None,
            },
        ),
{
    let mut url = RequestUrl::from_parts("https://timetableapi.ptv.vic.gov.au", "/v3/routes");
    push_number(&mut url, route_id);
    let flag = if include_geopath { "true" } else { "false" };
    url.append_pair("include_geopath", flag);
    match geopath_utc {
        Some(date) => url.append_pair("geopath_utc", date),
        None => {},
    }
    url
}

} // verus!
