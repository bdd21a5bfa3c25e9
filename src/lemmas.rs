use vstd::prelude::*;
use crate::handlers::{bare, create_status_of, create_step_of, list_reply_of, CreateStep, Reply, Status, StoreError};
use crate::listing::{ListPolicy, Listing};
use crate::model::{Checkin, CheckinRequest};
use crate::validate::{validated, CheckinFields, RequestError};

verus! {

broadcast use vstd::seq_lib::group_to_multiset_ensures;

/// A complete payload is inserted with every field as submitted, the
/// coordinate pair in the order received; once the store returns the row,
/// whose fields are those it was given, the reply is 201.
pub proof fn lemma_valid_payload_stored_as_sent(
    parsed: Option<CheckinFields>,
    request: Result<CheckinRequest, RequestError>,
    step: CreateStep,
    stored: Checkin,
)
    requires
        parsed matches Some(f) && f.complete(),
        validated(parsed, request),
        create_step_of(request, step),
        step matches CreateStep::Insert(n) ==> stored.data() == n.data(),
    ensures
        step matches CreateStep::Insert(n) && n.data() == parsed->Some_0.data(),
        stored.data() == parsed->Some_0.data(),
        stored.gps.x == parsed->Some_0.gps->Some_0@[0],
        stored.gps.y == parsed->Some_0.gps->Some_0@[1],
        create_status_of(Ok(stored)) == Status::Created,
{
}

/// A payload that lacks a field, or has one of the wrong shape, is answered
/// with 400 and never becomes a record to insert.
pub proof fn lemma_incomplete_payload_rejected(
    parsed: Option<CheckinFields>,
    request: Result<CheckinRequest, RequestError>,
    step: CreateStep,
)
    requires
        !(parsed matches Some(f) && f.complete()),
        validated(parsed, request),
        create_step_of(request, step),
    ensures
        step == CreateStep::Respond(bare(Status::BadRequest)),
        !(step is Insert),
{
}

/// Reading an empty store answers 200 with nothing listed, never 500.
pub proof fn lemma_empty_store_lists_nothing(records: Vec<Checkin>, policy: ListPolicy, reply: Reply)
    requires
        records@.len() == 0,
        list_reply_of(Ok(records), policy, reply),
    ensures
        reply.status == Status::Success,
        reply.listing matches Some(l) && match policy {
            ListPolicy::FirstOnly => l is Nothing,
            ListPolicy::FullList => l matches Listing::All(v) && v@.len() == 0,
        },
{
    if policy == ListPolicy::FullList {
        let v = reply.listing->Some_0->All_0;
        assert(v@.to_multiset().len() == 0);
    }
}

/// After one check-in is created and stored, reading the store answers 200
/// with that record, whose fields are those of the request.
pub proof fn lemma_created_then_listed(
    request: CheckinRequest,
    step: CreateStep,
    stored: Checkin,
    records: Vec<Checkin>,
    policy: ListPolicy,
    reply: Reply,
)
    requires
        create_step_of(Ok(request), step),
        step matches CreateStep::Insert(n) ==> stored.data() == n.data(),
        records@ == seq![stored],
        list_reply_of(Ok(records), policy, reply),
    ensures
        reply.status == Status::Success,
        reply.listing matches Some(l) && match policy {
            ListPolicy::FirstOnly => l matches Listing::One(c) && c == stored,
            ListPolicy::FullList => l matches Listing::All(v) && v@ == seq![stored],
        },
        stored.data() == request.data(),
{
    if policy == ListPolicy::FirstOnly {
        let i = choose|i: int| crate::listing::is_first_latest(records@, i) && reply.listing->Some_0->One_0 == records@[i];
        assert(i == 0);
    } else {
        let v = reply.listing->Some_0->All_0;
        assert(v@.to_multiset().len() == seq![stored].to_multiset().len());
        assert(v@.len() == 1);
        assert(v@.to_multiset().count(v@[0]) > 0);
        assert(seq![stored].contains(v@[0]));
        assert(v@ =~= seq![stored]);
    }
}

/// A store failure answers 500 with an empty body on both routes.
pub proof fn lemma_store_failure_answers_500(e: StoreError, policy: ListPolicy, reply: Reply)
    requires
        list_reply_of(Err(e), policy, reply),
    ensures
        reply == bare(Status::InternalServerError),
        create_status_of(Err(e)) == Status::InternalServerError,
        bare(create_status_of(Err(e))).listing is None,
{
}

} // verus!
