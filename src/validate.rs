use vstd::prelude::*;
use crate::model::{strings_view, CheckinData, CheckinRequest, GeoPoint};

verus! {

/// Largest request body, in bytes, that the create route accepts.
pub const MAX_BODY_BYTES: u64 = 16384;

/// Why an inbound payload was refused.
#[derive(Clone, Copy, Debug, PartialEq, Eq, Structural)]
pub enum RequestError {
    /// The body is longer than `MAX_BODY_BYTES`; it was not parsed.
    PayloadTooLarge,
    /// The body is not a check-in: bad JSON, a missing field or a wrong type.
    MalformedRequest,
}

/// The fields that decoding a JSON object found, each `None` when the
/// object lacks it. The pair is every number of `gps`, as the bit pattern of
/// a double; `crowded_level` is the integer as decoded.
#[derive(Debug)]
pub struct CheckinFields {
    pub gps: Option<Vec<u64>>,
    pub location_name: Option<String>,
    pub crowded_level: Option<i64>,
    pub user_id: Option<String>,
    pub client_id: Option<String>,
    pub missing_goods: Option<Vec<String>>,
}

impl CheckinFields {
    /// Every field is there, with the shape a check-in needs.
    pub open spec fn complete(&self) -> bool {
        &&& self.gps matches Some(g) && g@.len() == 2
        &&& self.location_name is Some
        &&& self.crowded_level matches Some(l) && i32::MIN <= l <= i32::MAX
        &&& self.user_id is Some
        &&& self.client_id is Some
        &&& self.missing_goods is Some
    }

    /// The check-in that complete fields describe.
    pub open spec fn data(&self) -> CheckinData
        recommends
            self.complete(),
    {
        CheckinData {
            gps: GeoPoint { x: self.gps->Some_0@[0], y: self.gps->Some_0@[1] },
            location_name: self.location_name->Some_0@,
            crowded_level: self.crowded_level->Some_0 as i32,
            user_id: self.user_id->Some_0@,
            client_id: self.client_id->Some_0@,
            missing_goods: strings_view(self.missing_goods->Some_0),
        }
    }
}

/// Admits a body of `len` bytes, before any parsing, when it does not exceed
/// the ceiling.
pub fn admit_body(len: u64) -> (r: Result<(), RequestError>)
    ensures
        r is Ok <==> len <= MAX_BODY_BYTES,
        r matches Err(e) ==> e == RequestError::PayloadTooLarge,
{
    if len <= MAX_BODY_BYTES {
        Ok(())
    } else {
        Err(RequestError::PayloadTooLarge)
    }
}

/// What `validate` returns for what decoding found (`None`: the body was not
/// a JSON object of the right field types).
pub open spec fn validated(parsed: Option<CheckinFields>, r: Result<CheckinRequest, RequestError>) -> bool {
    &&& (r is Ok <==> (parsed matches Some(f) && f.complete()))
    &&& (r matches Ok(req) ==> req.data() == parsed->Some_0.data())
    &&& (r matches Err(e) ==> e == RequestError::MalformedRequest)
}

/// Turns decoded fields into a request: every field is required, the pair
/// must hold exactly two numbers, and the level must fit in 32 bits. Nothing
/// is defaulted or changed.
pub fn validate(parsed: Option<CheckinFields>) -> (r: Result<CheckinRequest, RequestError>)
    ensures
        validated(parsed, r),
        r matches Ok(req) ==> req.gps@ == parsed->Some_0.gps->Some_0@,
{
    let fields = match parsed {
        Some(f) => f,
        None => return Err(RequestError::MalformedRequest),
    };
    let gps = match fields.gps {
        Some(g) => g,
        None => return Err(RequestError::MalformedRequest),
    };
    if gps.len() != 2 {
        return Err(RequestError::MalformedRequest);
    }
    let crowded_level: i32 = match fields.crowded_level {
        Some(l) => {
            if l < i32::MIN as i64 || l > i32::MAX as i64 {
                return Err(RequestError::MalformedRequest);
            }
            l as i32
        },
        None => return Err(RequestError::MalformedRequest),
    };
    match (fields.location_name, fields.user_id, fields.client_id, fields.missing_goods) {
        (Some(location_name), Some(user_id), Some(client_id), Some(missing_goods)) => {
            let request = CheckinRequest {
                gps: [gps[0], gps[1]],
                location_name,
                crowded_level,
                user_id,
                client_id,
                missing_goods,
            };
            assert(request.gps@ =~= gps@);
            Ok(request)
        },
        _ => Err(RequestError::MalformedRequest),
    }
}

} // verus!
