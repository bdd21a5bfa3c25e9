use vstd::prelude::*;

verus! {

/// A geographic point as stored: the two coordinates of the submitted pair,
/// each held as the bit pattern of an IEEE-754 double, in the order received.
#[derive(Clone, Copy, Debug, PartialEq, Eq, Structural)]
pub struct GeoPoint {
    pub x: u64,
    pub y: u64,
}

/// What a check-in says, apart from what the store assigns.
pub struct CheckinData {
    pub gps: GeoPoint,
    pub location_name: Seq<char>,
    pub crowded_level: i32,
    pub user_id: Seq<char>,
    pub client_id: Seq<char>,
    pub missing_goods: Seq<Seq<char>>,
}

/// The contents of a list of strings.
pub open spec fn strings_view(v: Vec<String>) -> Seq<Seq<char>> {
    v@.map_values(|s: String| s@)
}

/// A validated check-in payload: the coordinate pair as received
/// (bit patterns of two doubles), and the remaining fields unchanged.
#[derive(Debug)]
pub struct CheckinRequest {
    pub gps: [u64; 2],
    pub location_name: String,
    pub crowded_level: i32,
    pub user_id: String,
    pub client_id: String,
    pub missing_goods: Vec<String>,
}

impl CheckinRequest {
    /// What the request says, its pair read as a point.
    pub open spec fn data(&self) -> CheckinData {
        CheckinData {
            gps: GeoPoint { x: self.gps@[0], y: self.gps@[1] },
            location_name: self.location_name@,
            crowded_level: self.crowded_level,
            user_id: self.user_id@,
            client_id: self.client_id@,
            missing_goods: strings_view(self.missing_goods),
        }
    }
}

/// A check-in in the shape the store inserts: no identifier, no timestamp.
#[derive(Debug)]
pub struct NewCheckin {
    pub gps: GeoPoint,
    pub location_name: String,
    pub crowded_level: i32,
    pub user_id: String,
    pub client_id: String,
    pub missing_goods: Vec<String>,
}

impl NewCheckin {
    /// What the record to insert says.
    pub open spec fn data(&self) -> CheckinData {
        CheckinData {
            gps: self.gps,
            location_name: self.location_name@,
            crowded_level: self.crowded_level,
            user_id: self.user_id@,
            client_id: self.client_id@,
            missing_goods: strings_view(self.missing_goods),
        }
    }

    /// The insertable record of a request: the pair becomes a point with
    /// its first coordinate as `x`, and every other field is moved unchanged.
    pub fn from_request(request: CheckinRequest) -> (r: NewCheckin)
        ensures
            r.data() == request.data(),
            r.gps.x == request.gps@[0],
            r.gps.y == request.gps@[1],
    {
        NewCheckin {
            gps: GeoPoint { x: request.gps[0], y: request.gps[1] },
            location_name: request.location_name,
            crowded_level: request.crowded_level,
            user_id: request.user_id,
            client_id: request.client_id,
            missing_goods: request.missing_goods,
        }
    }
}

/// A stored check-in: the store assigned `id` and `created_at`
/// (microseconds since the Unix epoch, UTC).
#[derive(Debug)]
pub struct Checkin {
    pub id: i32,
    pub created_at: i64,
    pub gps: GeoPoint,
    pub location_name: String,
    pub crowded_level: i32,
    pub user_id: String,
    pub client_id: String,
    pub missing_goods: Vec<String>,
}

impl Checkin {
    /// What the stored record says, apart from `id` and `created_at`.
    pub open spec fn data(&self) -> CheckinData {
        CheckinData {
            gps: self.gps,
            location_name: self.location_name@,
            crowded_level: self.crowded_level,
            user_id: self.user_id@,
            client_id: self.client_id@,
            missing_goods: strings_view(self.missing_goods),
        }
    }
}

} // verus!
