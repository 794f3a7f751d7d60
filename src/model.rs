//! The records that responses decode into.
use vstd::prelude::*;

verus! {

/// The health of the API and its version, sent with every response.
#[derive(Clone, Debug, Hash, PartialEq, Eq)]
pub struct Status {
    pub health: usize,
    pub version: String,
}

/// A kind of route: train, tram, bus, and so on.
#[derive(Clone, Debug, Hash, PartialEq, Eq)]
pub struct RouteType {
    pub id: usize,
    pub name: String,
}

#[derive(Clone, Debug, Hash, PartialEq, Eq)]
pub struct RouteTypesResponse {
    pub route_types: Vec<RouteType>,
    pub status: Status,
}

/// A direction of travel along a route.
#[derive(Clone, Debug, Hash, PartialEq, Eq)]
pub struct Direction {
    pub route_direction_description: String,
    pub id: usize,
    pub name: String,
    pub route_id: usize,
    pub route_type: usize,
}

#[derive(Clone, Debug, Hash, PartialEq, Eq)]
pub struct DirectionsResponse {
    pub directions: Vec<Direction>,
    pub status: Status,
}

/// The drawn path of a route in one direction, over a period of validity.
#[derive(Clone, Debug, Hash, PartialEq, Eq)]
pub struct Geopath {
    pub direction_id: usize,
    pub valid_from: String,
    pub valid_to: String,
    pub paths: Vec<String>,
}

/// The largest offset from UTC, in seconds: 25:59:59.
pub const MAX_OFFSET_SECONDS: i32 = 93599;

/// A number below this is a valid count of nanoseconds within a second.
pub const NANOS_PER_SECOND: u32 = 1000000000;

/// An instant with the UTC offset it was written in: seconds since the Unix
/// epoch, the nanoseconds within that second, and the offset in seconds.
#[derive(Clone, Copy, Debug, Hash, PartialEq, Eq)]
pub struct Timestamp {
    unix_seconds: i64,
    nanosecond: u32,
    offset_seconds: i32,
}

/// The model of a timestamp.
pub struct TimestampView {
    pub unix_seconds: i64,
    pub nanosecond: u32,
    pub offset_seconds: i32,
}

impl View for Timestamp {
    type V = TimestampView;

    closed spec fn view(&self) -> TimestampView {
        TimestampView {
            unix_seconds: self.unix_seconds,
            nanosecond: self.nanosecond,
            offset_seconds: self.offset_seconds,
        }
    }
}

impl TimestampView {
    /// The nanoseconds are within one second and the offset within 25:59:59.
    pub open spec fn wf(self) -> bool {
        &&& self.nanosecond < NANOS_PER_SECOND
        &&& -MAX_OFFSET_SECONDS <= self.offset_seconds <= MAX_OFFSET_SECONDS
    }
}

impl Timestamp {
    /// Every timestamp is well formed.
    #[verifier::type_invariant]
    spec fn inv(self) -> bool {
        self@.wf()
    }

    /// The timestamp of these parts, or `None` where the nanoseconds reach a
    /// whole second or the offset lies beyond 25:59:59.
    pub fn new(unix_seconds: i64, nanosecond: u32, offset_seconds: i32) -> (r: Option<Timestamp>)
        ensures
            r is Some <==> (TimestampView { unix_seconds, nanosecond, offset_seconds }).wf(),
            r matches Some(t) ==> t@ == (TimestampView { unix_seconds, nanosecond, offset_seconds }),
    {
        if nanosecond < NANOS_PER_SECOND && -MAX_OFFSET_SECONDS <= offset_seconds && offset_seconds
            <= MAX_OFFSET_SECONDS {
            Some(Timestamp { unix_seconds, nanosecond, offset_seconds })
        } else {
            None
        }
    }

    pub fn unix_seconds(&self) -> (r: i64)
        ensures
            r == self@.unix_seconds,
    {
        self.unix_seconds
    }

    pub fn nanosecond(&self) -> (r: u32)
        ensures
            r == self@.nanosecond,
            r < NANOS_PER_SECOND,
    {
        proof {
            use_type_invariant(self);
        }
        self.nanosecond
    }

    pub fn offset_seconds(&self) -> (r: i32)
        ensures
            r == self@.offset_seconds,
            -MAX_OFFSET_SECONDS <= r <= MAX_OFFSET_SECONDS,
    {
        proof {
            use_type_invariant(self);
        }
        self.offset_seconds
    }
}

/// The service status of a route: a description and when it was set.
#[derive(Clone, Debug, Hash, PartialEq, Eq)]
pub struct ServiceStatus {
    pub description: String,
    pub timestamp: Timestamp,
}

/// A route: its service status, route type, name, number, GTFS id and
/// geopaths.
#[derive(Clone, Debug, Hash, PartialEq, Eq)]
pub struct Route {
    pub service_status: ServiceStatus,
    pub type_id: usize,
    pub name: String,
    pub number: String,
    pub gtfs_id: String,
    pub geopath: Vec<Geopath>,
}

#[derive(Clone, Debug, Hash, PartialEq, Eq)]
pub struct RouteResponse {
    pub route: Route,
    pub status: Status,
}

#[derive(Clone, Debug, Hash, PartialEq, Eq)]
pub struct RoutesResponse {
    pub routes: Vec<Route>,
    pub status: Status,
}

} // verus!
