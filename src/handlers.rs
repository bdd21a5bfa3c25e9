use vstd::prelude::*;
use crate::listing::{listing_of, select_listing, ListPolicy, Listing};
use crate::model::{Checkin, CheckinRequest, NewCheckin};
use crate::validate::{validated, CheckinFields, RequestError};

verus! {

/// The HTTP statuses the check-in routes answer with.
#[derive(Clone, Copy, Debug, PartialEq, Eq, Structural)]
pub enum Status {
    Success,
    Created,
    BadRequest,
    PayloadTooLarge,
    InternalServerError,
}

impl Status {
    /// The numeric HTTP status code.
    pub open spec fn spec_code(self) -> u16 {
        match self {
            Status::Success => 200,
            Status::Created => 201,
            Status::BadRequest => 400,
            Status::PayloadTooLarge => 413,
            Status::InternalServerError => 500,
        }
    }

    /// The numeric HTTP status code.
    pub fn code(&self) -> (r: u16)
        ensures
            r == self.spec_code(),
    {
        match self {
            Status::Success => 200,
            Status::Created => 201,
            Status::BadRequest => 400,
            Status::PayloadTooLarge => 413,
            Status::InternalServerError => 500,
        }
    }
}

/// Why a store operation failed. Every kind answers 500.
#[derive(Clone, Copy, Debug, PartialEq, Eq, Structural)]
pub enum StoreError {
    /// No connection could be had from the pool.
    PoolExhausted,
    /// A connection to the store could not be made.
    ConnectFailed,
    /// The query itself failed.
    Persistence,
}

/// A reply: its status, and the listing it carries (`None`: an empty body).
#[derive(Debug)]
pub struct Reply {
    pub status: Status,
    pub listing: Option<Listing>,
}

/// A reply with a status and an empty body.
pub open spec fn bare(status: Status) -> Reply {
    Reply { status, listing: None }
}

/// The status that answers a refused payload.
pub open spec fn spec_request_error_status(e: RequestError) -> Status {
    match e {
        RequestError::PayloadTooLarge => Status::PayloadTooLarge,
        RequestError::MalformedRequest => Status::BadRequest,
    }
}

/// The status that answers a refused payload: 413 or 400.
pub fn request_error_status(e: RequestError) -> (r: Status)
    ensures
        r == spec_request_error_status(e),
{
    match e {
        RequestError::PayloadTooLarge => Status::PayloadTooLarge,
        RequestError::MalformedRequest => Status::BadRequest,
    }
}

/// The status that answers a failed store operation, whatever its kind.
pub fn store_error_status(e: StoreError) -> (r: Status)
    ensures
        r == Status::InternalServerError,
{
    Status::InternalServerError
}

/// What the create route does next.
#[derive(Debug)]
pub enum CreateStep {
    /// Insert this record, then answer with `create_checkin_reply`.
    Insert(NewCheckin),
    /// Answer at once; the store is not touched.
    Respond(Reply),
}

/// What `create_checkin` returns for a validated request or its refusal.
pub open spec fn create_step_of(request: Result<CheckinRequest, RequestError>, step: CreateStep) -> bool {
    match request {
        Ok(req) => step matches CreateStep::Insert(n) && n.data() == req.data(),
        Err(e) => step == CreateStep::Respond(bare(spec_request_error_status(e))),
    }
}

/// The create route's decision: a valid request becomes a record to insert,
/// with no identifier or timestamp; a refused one is answered with its status.
pub fn create_checkin(request: Result<CheckinRequest, RequestError>) -> (r: CreateStep)
    ensures
        create_step_of(request, r),
{
    match request {
        Ok(req) => CreateStep::Insert(NewCheckin::from_request(req)),
        Err(e) => CreateStep::Respond(Reply { status: request_error_status(e), listing: None }),
    }
}

/// The status that answers an insert: 201 when the store returned the stored
/// row, 500 on any store failure.
pub open spec fn create_status_of(outcome: Result<Checkin, StoreError>) -> Status {
    match outcome {
        Ok(_) => Status::Created,
        Err(_) => Status::InternalServerError,
    }
}

/// The reply to an insert: its status, with an empty body either way.
pub fn create_checkin_reply(outcome: Result<Checkin, StoreError>) -> (r: Reply)
    ensures
        r == bare(create_status_of(outcome)),
{
    match outcome {
        Ok(_) => Reply { status: Status::Created, listing: None },
        Err(e) => Reply { status: store_error_status(e), listing: None },
    }
}

/// What `list_checkins` returns for the outcome of loading the stored check-ins.
pub open spec fn list_reply_of(outcome: Result<Vec<Checkin>, StoreError>, policy: ListPolicy, r: Reply) -> bool {
    match outcome {
        Ok(records) => {
            &&& r.status == Status::Success
            &&& r.listing matches Some(l) && listing_of(records@, policy, l)
        },
        Err(_) => r == bare(Status::InternalServerError),
    }
}

/// The read route's reply: 200 with what `policy` hands out of the stored
/// check-ins (`Nothing` on an empty store), or 500 with an empty body when the
/// store could not be read.
pub fn list_checkins(outcome: Result<Vec<Checkin>, StoreError>, policy: ListPolicy) -> (r: Reply)
    ensures
        list_reply_of(outcome, policy, r),
{
    match outcome {
        Ok(records) => Reply { status: Status::Success, listing: Some(select_listing(records, policy)) },
        Err(e) => Reply { status: store_error_status(e), listing: None },
    }
}

} // verus!
