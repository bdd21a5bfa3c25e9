use checkins::{
    admit_body, create_checkin, create_checkin_reply, latest_index, list_checkins,
    order_most_recent_first, pool_settings, request_error_status, select_listing,
    store_error_status, validate, Checkin, CheckinFields, CreateStep, GeoPoint, ListPolicy,
    Listing, NewCheckin, RequestError, StartupError, Status, StoreError, MAX_BODY_BYTES,
    MAX_POOL_SIZE,
};

fn fields(gps: Vec<f64>, level: i64, goods: Vec<&str>) -> CheckinFields {
    CheckinFields {
        gps: Some(gps.iter().map(|g| g.to_bits()).collect()),
        location_name: Some("some location".to_string()),
        crowded_level: Some(level),
        user_id: Some("some user".to_string()),
        client_id: Some("some client".to_string()),
        missing_goods: Some(goods.iter().map(|g| g.to_string()).collect()),
    }
}

fn stored(id: i32, created_at: i64) -> Checkin {
    Checkin {
        id,
        created_at,
        gps: GeoPoint { x: 1.5f64.to_bits(), y: (-3.25f64).to_bits() },
        location_name: format!("place {}", id),
        crowded_level: id,
        user_id: "u".to_string(),
        client_id: "c".to_string(),
        missing_goods: vec![],
    }
}

fn stored_from(new: NewCheckin, id: i32, created_at: i64) -> Checkin {
    Checkin {
        id,
        created_at,
        gps: new.gps,
        location_name: new.location_name,
        crowded_level: new.crowded_level,
        user_id: new.user_id,
        client_id: new.client_id,
        missing_goods: new.missing_goods,
    }
}

fn post(body_len: u64, parsed: Option<CheckinFields>) -> CreateStep {
    match admit_body(body_len) {
        Err(e) => create_checkin(Err(e)),
        Ok(()) => create_checkin(validate(parsed)),
    }
}

fn status_of(step: &CreateStep) -> Option<u16> {
    match step {
        CreateStep::Respond(r) => {
            assert!(r.listing.is_none());
            Some(r.status.code())
        }
        CreateStep::Insert(_) => None,
    }
}

#[test]
fn test_checkin() {
    let step = post(120, Some(fields(vec![1.1, 2.2], 3, vec!["flour"])));
    let new = match step {
        CreateStep::Insert(n) => n,
        CreateStep::Respond(_) => panic!("valid payload was refused"),
    };
    let reply = create_checkin_reply(Ok(stored_from(new, 1, 10)));
    assert_eq!(reply.status.code(), 201);
}

#[test]
fn valid_payload_is_inserted_as_sent() {
    let step = post(200, Some(fields(vec![1.1, 2.2], 3, vec!["flour", "milk"])));
    let new = match step {
        CreateStep::Insert(n) => n,
        CreateStep::Respond(_) => panic!("valid payload was refused"),
    };
    assert_eq!(f64::from_bits(new.gps.x), 1.1);
    assert_eq!(f64::from_bits(new.gps.y), 2.2);
    assert_eq!(new.location_name, "some location");
    assert_eq!(new.crowded_level, 3);
    assert_eq!(new.user_id, "some user");
    assert_eq!(new.client_id, "some client");
    assert_eq!(new.missing_goods, vec!["flour".to_string(), "milk".to_string()]);
}

#[test]
fn empty_missing_goods_is_accepted() {
    let r = validate(Some(fields(vec![0.0, 0.0], 0, vec![]))).unwrap();
    assert!(r.missing_goods.is_empty());
}

#[test]
fn crowded_level_is_not_range_checked() {
    assert_eq!(validate(Some(fields(vec![0.0, 0.0], -7, vec![]))).unwrap().crowded_level, -7);
    assert_eq!(
        validate(Some(fields(vec![0.0, 0.0], i32::MAX as i64, vec![]))).unwrap().crowded_level,
        i32::MAX
    );
    assert_eq!(
        validate(Some(fields(vec![0.0, 0.0], i32::MIN as i64, vec![]))).unwrap().crowded_level,
        i32::MIN
    );
}

#[test]
fn crowded_level_beyond_32_bits_is_malformed() {
    let r = validate(Some(fields(vec![0.0, 0.0], i32::MAX as i64 + 1, vec![])));
    assert_eq!(r.unwrap_err(), RequestError::MalformedRequest);
    let r = validate(Some(fields(vec![0.0, 0.0], i32::MIN as i64 - 1, vec![])));
    assert_eq!(r.unwrap_err(), RequestError::MalformedRequest);
}

#[test]
fn body_at_ceiling_is_admitted() {
    assert_eq!(MAX_BODY_BYTES, 16384);
    assert_eq!(admit_body(16384), Ok(()));
    assert_eq!(admit_body(0), Ok(()));
}

#[test]
fn body_over_ceiling_is_413() {
    assert_eq!(admit_body(16385), Err(RequestError::PayloadTooLarge));
    let step = post(16385, Some(fields(vec![1.1, 2.2], 3, vec![])));
    assert_eq!(status_of(&step), Some(413));
}

#[test]
fn missing_user_id_is_400_and_not_inserted() {
    let mut f = fields(vec![1.1, 2.2], 3, vec!["flour"]);
    f.user_id = None;
    let step = post(100, Some(f));
    assert_eq!(status_of(&step), Some(400));
}

#[test]
fn each_missing_field_is_malformed() {
    for k in 0..6 {
        let mut f = fields(vec![1.1, 2.2], 3, vec!["flour"]);
        match k {
            0 => f.gps = None,
            1 => f.location_name = None,
            2 => f.crowded_level = None,
            3 => f.user_id = None,
            4 => f.client_id = None,
            _ => f.missing_goods = None,
        }
        assert_eq!(validate(Some(f)).unwrap_err(), RequestError::MalformedRequest);
    }
}

#[test]
fn undecodable_body_is_malformed() {
    assert_eq!(validate(None).unwrap_err(), RequestError::MalformedRequest);
    assert_eq!(status_of(&post(10, None)), Some(400));
}

#[test]
fn gps_needs_exactly_two_numbers() {
    let r = validate(Some(fields(vec![1.0], 3, vec![])));
    assert_eq!(r.unwrap_err(), RequestError::MalformedRequest);
    let r = validate(Some(fields(vec![1.0, 2.0, 3.0], 3, vec![])));
    assert_eq!(r.unwrap_err(), RequestError::MalformedRequest);
}

#[test]
fn empty_store_lists_nothing() {
    let reply = list_checkins(Ok(vec![]), ListPolicy::FirstOnly);
    assert_eq!(reply.status.code(), 200);
    assert!(matches!(reply.listing, Some(Listing::Nothing)));
    let reply = list_checkins(Ok(vec![]), ListPolicy::FullList);
    assert_eq!(reply.status, Status::Success);
    match reply.listing {
        Some(Listing::All(v)) => assert!(v.is_empty()),
        _ => panic!("expected a full list"),
    }
}

#[test]
fn created_then_listed() {
    let step = post(100, Some(fields(vec![1.1, 2.2], 4, vec!["salt"])));
    let new = match step {
        CreateStep::Insert(n) => n,
        CreateStep::Respond(_) => panic!("valid payload was refused"),
    };
    let reply = list_checkins(Ok(vec![stored_from(new, 9, 500)]), ListPolicy::default_policy());
    assert_eq!(reply.status.code(), 200);
    match reply.listing {
        Some(Listing::One(c)) => {
            assert_eq!(c.id, 9);
            assert_eq!(f64::from_bits(c.gps.x), 1.1);
            assert_eq!(f64::from_bits(c.gps.y), 2.2);
            assert_eq!(c.location_name, "some location");
            assert_eq!(c.crowded_level, 4);
            assert_eq!(c.user_id, "some user");
            assert_eq!(c.client_id, "some client");
            assert_eq!(c.missing_goods, vec!["salt".to_string()]);
        }
        _ => panic!("expected one record"),
    }
}

#[test]
fn first_only_picks_most_recent() {
    let records = vec![stored(1, 100), stored(2, 300), stored(3, 200)];
    match select_listing(records, ListPolicy::FirstOnly) {
        Listing::One(c) => assert_eq!(c.id, 2),
        _ => panic!("expected one record"),
    }
}

#[test]
fn first_only_tie_picks_first_stored() {
    let records = vec![stored(1, 100), stored(2, 300), stored(3, 300)];
    assert_eq!(latest_index(&records), Some(1));
    assert_eq!(latest_index(&vec![]), None);
}

#[test]
fn full_list_is_most_recent_first() {
    let records = vec![stored(1, 100), stored(2, 300), stored(3, 200), stored(4, 300)];
    match list_checkins(Ok(records), ListPolicy::FullList).listing {
        Some(Listing::All(v)) => {
            let ts: Vec<i64> = v.iter().map(|c| c.created_at).collect();
            assert_eq!(ts, vec![300, 300, 200, 100]);
            let mut ids: Vec<i32> = v.iter().map(|c| c.id).collect();
            ids.sort();
            assert_eq!(ids, vec![1, 2, 3, 4]);
        }
        _ => panic!("expected a full list"),
    }
}

#[test]
fn ordering_keeps_every_record() {
    let out = order_most_recent_first(vec![stored(5, -1), stored(6, 7), stored(7, 3)]);
    let ids: Vec<i32> = out.iter().map(|c| c.id).collect();
    assert_eq!(ids, vec![6, 7, 5]);
}

#[test]
fn store_failure_on_create_is_500() {
    for e in [StoreError::PoolExhausted, StoreError::ConnectFailed, StoreError::Persistence] {
        let reply = create_checkin_reply(Err(e));
        assert_eq!(reply.status.code(), 500);
        assert!(reply.listing.is_none());
        assert_eq!(store_error_status(e), Status::InternalServerError);
    }
}

#[test]
fn store_failure_on_list_is_500() {
    let reply = list_checkins(Err(StoreError::ConnectFailed), ListPolicy::FirstOnly);
    assert_eq!(reply.status.code(), 500);
    assert!(reply.listing.is_none());
    let reply = list_checkins(Err(StoreError::Persistence), ListPolicy::FullList);
    assert_eq!(reply.status.code(), 500);
}

#[test]
fn status_codes() {
    assert_eq!(Status::Success.code(), 200);
    assert_eq!(Status::Created.code(), 201);
    assert_eq!(Status::BadRequest.code(), 400);
    assert_eq!(Status::PayloadTooLarge.code(), 413);
    assert_eq!(Status::InternalServerError.code(), 500);
    assert_eq!(request_error_status(RequestError::PayloadTooLarge), Status::PayloadTooLarge);
    assert_eq!(request_error_status(RequestError::MalformedRequest), Status::BadRequest);
}

#[test]
fn pool_settings_from_url() {
    let s = pool_settings(Some("postgres://localhost/checkins".to_string())).unwrap();
    assert_eq!(s.max_size, 15);
    assert_eq!(MAX_POOL_SIZE, 15);
    assert_eq!(s.database_url, "postgres://localhost/checkins");
    assert_eq!(pool_settings(None).unwrap_err(), StartupError::MissingDatabaseUrl);
}
