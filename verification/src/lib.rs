mod cctaxiiclient;
mod error;
mod taxiiclient;

pub use cctaxiiclient::CCEnvelope;
pub use cctaxiiclient::CCIndicator;
pub use cctaxiiclient::CCTaxiiClient;
pub use cctaxiiclient::Pagination;
pub use cctaxiiclient::base64_of;
pub use cctaxiiclient::collect_pages;
pub use cctaxiiclient::first_collection;
pub use cctaxiiclient::lemma_missing_cursor_stops;
pub use cctaxiiclient::lemma_pagination_termination;
pub use cctaxiiclient::lemma_single_page_when_not_following;
pub use cctaxiiclient::objects_query;
pub use cctaxiiclient::spec_all_objects;
pub use cctaxiiclient::spec_basic_auth;
pub use cctaxiiclient::spec_collected;
pub use cctaxiiclient::spec_continues;
pub use cctaxiiclient::spec_dec;
pub use cctaxiiclient::spec_digit;
pub use cctaxiiclient::spec_match_params;
pub use cctaxiiclient::spec_objects_query;
pub use cctaxiiclient::spec_pages_consumed;
pub use cctaxiiclient::usize_dec;

pub use taxiiclient::Collection;
pub use taxiiclient::Collections;
pub use taxiiclient::Discovery;
pub use taxiiclient::Envelope;
pub use taxiiclient::collection_ids;
pub use taxiiclient::collections_path;
pub use taxiiclient::discovery_path;
pub use error::RawResponse;
pub use error::TaxiiError;
pub use error::TransportOutcome;
pub use error::classify_response;
pub use error::spec_classify;
pub use error::is_success_status;
