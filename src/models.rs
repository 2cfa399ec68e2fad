//! The storage row of a facility: plain fields, coordinates as `f32` bits.
use vstd::prelude::*;
use crate::date::CalendarDate;
use crate::domain::{coordinate_error, Facility as Validated, FacilityError};

verus! {

/// A facility as stored: every field plain, nothing checked.
#[derive(Clone, Debug, PartialEq)]
pub struct Facility {
    pub uid: String,
    pub company: String,
    pub segment: String,
    pub technology: String,
    pub latitude: u32,
    pub longitude: u32,
    pub announcement_date: CalendarDate,
    pub estimated_investment: Option<i64>,
}

impl Facility {
    /// Whether a validated facility holds the fields of this row.
    pub open spec fn is_held_by(self, f: Validated) -> bool {
        f.holds(
            self.uid@,
            self.company@,
            self.segment@,
            self.technology@,
            self.latitude,
            self.longitude,
            self.announcement_date,
            self.estimated_investment,
        )
    }

    /// What validating this row owes: `None` where its coordinates are in range.
    pub open spec fn error(self) -> Option<FacilityError> {
        coordinate_error(self.latitude, self.longitude)
    }

    /// The row that stores a validated facility; its coordinates are in range.
    pub fn from_domain(item: Validated) -> (r: Facility)
        ensures
            r.is_held_by(item),
            r.error() is None,
    {
        let latitude = item.latitude.to_bits();
        let longitude = item.longitude.to_bits();
        Facility {
            uid: item.uid,
            company: item.company,
            segment: item.segment,
            technology: item.technology,
            latitude,
            longitude,
            announcement_date: item.announcement_date,
            estimated_investment: item.estimated_investment,
        }
    }

    /// Validates this row into a facility, with the checks of `Facility::new`.
    pub fn to_domain(&self) -> (r: Result<Validated, FacilityError>)
        ensures
            match self.error() {
                Some(e) => r == Err::<Validated, FacilityError>(e),
                None => r matches Ok(f) && self.is_held_by(f),
            },
    {
        Validated::new(
            self.uid.clone(),
            self.company.clone(),
            self.segment.clone(),
            self.technology.clone(),
            self.latitude,
            self.longitude,
            self.announcement_date,
            self.estimated_investment,
        )
    }
}

} // verus!
