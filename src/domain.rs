//! The facility aggregate and its validating constructor.
use vstd::prelude::*;
use crate::coordinate::{latitude_in_range, longitude_in_range, Latitude, Longitude};
use crate::date::{date_in_text, CalendarDate};

verus! {

/// Why a facility could not be built: the coordinate that was out of range.
#[derive(Clone, Copy, Debug, PartialEq, Eq)]
pub enum FacilityError {
    LatitudeBounds,
    LongitudeBounds,
}

/// The outcome that the facility constructor owes for two raw coordinates:
/// `None` where both are in range, else the error of the first one that is not,
/// latitude before longitude.
pub open spec fn coordinate_error(latitude: u32, longitude: u32) -> Option<FacilityError> {
    if !latitude_in_range(latitude) {
        Some(FacilityError::LatitudeBounds)
    } else if !longitude_in_range(longitude) {
        Some(FacilityError::LongitudeBounds)
    } else {
        None
    }
}

/// Why a facility payload received from a client was refused.
#[derive(Clone, Copy, Debug, PartialEq, Eq)]
pub enum PayloadError {
    /// A coordinate is out of range.
    Coordinates(FacilityError),
    /// The announcement date is no `YYYY-MM-DD` date.
    AnnouncementDate,
}

/// An announced industrial site. Its coordinates are in range by construction
/// of `Latitude` and `Longitude`.
#[derive(Clone, Debug, PartialEq)]
pub struct Facility {
    pub uid: String,
    pub company: String,
    pub segment: String,
    pub technology: String,
    pub latitude: Latitude,
    pub longitude: Longitude,
    pub announcement_date: CalendarDate,
    pub estimated_investment: Option<i64>,
}

impl Facility {
    /// Whether this facility holds exactly the given fields, coordinates given
    /// as the bits of their `f32` values.
    pub open spec fn holds(
        self,
        uid: Seq<char>,
        company: Seq<char>,
        segment: Seq<char>,
        technology: Seq<char>,
        latitude: u32,
        longitude: u32,
        announcement_date: CalendarDate,
        estimated_investment: Option<i64>,
    ) -> bool {
        &&& self.uid@ == uid
        &&& self.company@ == company
        &&& self.segment@ == segment
        &&& self.technology@ == technology
        &&& self.latitude@ == latitude
        &&& self.longitude@ == longitude
        &&& self.announcement_date == announcement_date
        &&& self.estimated_investment == estimated_investment
    }

    /// Builds a facility, checking the latitude and then the longitude; no
    /// other field is checked.
    pub fn new(
        uid: String,
        company: String,
        segment: String,
        technology: String,
        latitude: u32,
        longitude: u32,
        announcement_date: CalendarDate,
        estimated_investment: Option<i64>,
    ) -> (r: Result<Facility, FacilityError>)
        ensures
            !latitude_in_range(latitude) ==> r == Err::<Facility, FacilityError>(
                FacilityError::LatitudeBounds,
            ),
            latitude_in_range(latitude) && !longitude_in_range(longitude) ==> r == Err::<
                Facility,
                FacilityError,
            >(FacilityError::LongitudeBounds),
            match coordinate_error(latitude, longitude) {
                Some(e) => r == Err::<Facility, FacilityError>(e),
                None => r matches Ok(f) && f.holds(
                    uid@,
                    company@,
                    segment@,
                    technology@,
                    latitude,
                    longitude,
                    announcement_date,
                    estimated_investment,
                ),
            },
    {
        let lat = match Latitude::try_from_bits(latitude) {
            Ok(v) => v,
            Err(_) => return Err(FacilityError::LatitudeBounds),
        };
        let lon = match Longitude::try_from_bits(longitude) {
            Ok(v) => v,
            Err(_) => return Err(FacilityError::LongitudeBounds),
        };
        Ok(Facility {
            uid,
            company,
            segment,
            technology,
            latitude: lat,
            longitude: lon,
            announcement_date,
            estimated_investment,
        })
    }

    /// Builds a facility from the fields of a received payload, the date still
    /// as text: the coordinates are checked as by `new`, then the date is read.
    pub fn from_payload(
        uid: String,
        company: String,
        segment: String,
        technology: String,
        latitude: u32,
        longitude: u32,
        announcement_date: &str,
        estimated_investment: Option<i64>,
    ) -> (r: Result<Facility, PayloadError>)
        ensures
            match coordinate_error(latitude, longitude) {
                Some(e) => r == Err::<Facility, PayloadError>(PayloadError::Coordinates(e)),
                None => match date_in_text(announcement_date@) {
                    None => r == Err::<Facility, PayloadError>(PayloadError::AnnouncementDate),
                    Some(v) => r matches Ok(f) && f.announcement_date@ == v && f.holds(
                        uid@,
                        company@,
                        segment@,
                        technology@,
                        latitude,
                        longitude,
                        f.announcement_date,
                        estimated_investment,
                    ),
                },
            },
    {
        if let Some(e) = coordinate_check(latitude, longitude) {
            return Err(PayloadError::Coordinates(e));
        }
        let date = match CalendarDate::parse(announcement_date) {
            Some(d) => d,
            None => return Err(PayloadError::AnnouncementDate),
        };
        match Facility::new(
            uid,
            company,
            segment,
            technology,
            latitude,
            longitude,
            date,
            estimated_investment,
        ) {
            Ok(f) => Ok(f),
            Err(e) => Err(PayloadError::Coordinates(e)),
        }
    }
}

/// The error `Facility::new` gives for two raw coordinates, if any.
fn coordinate_check(latitude: u32, longitude: u32) -> (r: Option<FacilityError>)
    ensures
        r == coordinate_error(latitude, longitude),
{
    if Latitude::try_from_bits(latitude).is_err() {
        Some(FacilityError::LatitudeBounds)
    } else if Longitude::try_from_bits(longitude).is_err() {
        Some(FacilityError::LongitudeBounds)
    } else {
        None
    }
}

} // verus!
