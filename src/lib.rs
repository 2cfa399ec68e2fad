//! Validated domain model of announced industrial facilities: bounded
//! coordinates, calendar dates, the facility aggregate, its storage row, the
//! normalization of list-query filters, and what storage answers mean.

pub mod coordinate;
pub mod date;
pub mod domain;
pub mod filter;
pub mod models;
pub mod storage;

pub use coordinate::{Latitude, LatitudeBoundsError, Longitude, LongitudeBoundsError};
pub use date::CalendarDate;
pub use domain::{Facility, FacilityError, PayloadError};
pub use filter::{FacilitiesFilter, FilterError};
pub use storage::StorageError;
