//! A typed model of the Google Geocoding web service: queries and their wire
//! encoding, replies and their classification, and the life cycle of one call.
//!
//! The crate performs no I/O. A caller builds a query, asks a [`Connection`]
//! for the [`Pipeline`] of one call, and drives it: the pipeline says which
//! request to send, the caller reports what came back, and the pipeline ends in
//! a list of replies or in a [`GeocodingError`].

pub mod address_type;
pub mod api_set;
pub mod component;
pub mod connection;
pub mod coordinates;
pub mod error;
pub mod language;
pub mod location_type;
pub mod query;
pub mod region;
pub mod reply;
pub mod status;
pub mod tag;
pub mod wire;

pub use crate::address_type::Type;
pub use crate::api_set::ApiSet;
pub use crate::component::ComponentFilterRule;
pub use crate::connection::{Action, Connection, Event, Pipeline};
pub use crate::coordinates::{Coordinates, Viewport};
pub use crate::error::{
    ApiStatusError, ConstructionError, DecodeError, GeocodingError, RequestError,
};
pub use crate::language::Language;
pub use crate::location_type::LocationType;
pub use crate::query::{DegeocodeQuery, GeocodeQuery, Place};
pub use crate::region::Region;
pub use crate::reply::{
    addresses, decode_location, decode_tag, locations, AddressComponent, FormattedAddress,
    Geometry, PlaceId, Reply, ReplyResult,
};
pub use crate::status::StatusCode;
pub use crate::tag::{same_token, to_token, variant_name, FromLabel, SetItem, Tagged};
