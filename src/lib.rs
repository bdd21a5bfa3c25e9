//! Request handling for a check-in service: payload validation, the listing
//! policy of the read route, connection pool settings, and the mapping of
//! outcomes to HTTP replies.
pub mod handlers;
pub mod lemmas;
pub mod listing;
pub mod model;
pub mod pool;
pub mod validate;

pub use handlers::{
    create_checkin, create_checkin_reply, list_checkins, request_error_status, store_error_status,
    CreateStep, Reply, Status, StoreError,
};
pub use listing::{latest_index, order_most_recent_first, select_listing, ListPolicy, Listing};
pub use model::{Checkin, CheckinData, CheckinRequest, GeoPoint, NewCheckin};
pub use pool::{pool_settings, PoolSettings, StartupError, MAX_POOL_SIZE};
pub use validate::{admit_body, validate, CheckinFields, RequestError, MAX_BODY_BYTES};
