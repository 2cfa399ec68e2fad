//! Normalization of list-query parameters into a typed filter.
use vstd::prelude::*;
use crate::date::{date_in_text, CalendarDate};

verus! {

/// Offset used when a query gives none.
pub const DEFAULT_OFFSET: u32 = 0;

/// Limit used when a query gives none.
pub const DEFAULT_LIMIT: u32 = 100;

/// Whether a query parameter sets no constraint: absent, or present and empty.
pub open spec fn is_unset(param: Option<String>) -> bool {
    match param {
        Some(s) => s@.len() == 0,
        None => true,
    }
}

/// What a text parameter constrains to: nothing when unset, else its text.
pub open spec fn text_constraint(param: Option<String>) -> Option<Seq<char>> {
    match param {
        Some(s) => if s@.len() == 0 {
            None
        } else {
            Some(s@)
        },
        None => None,
    }
}

/// Whether a normalized date constraint is what a parameter owes: nothing when
/// unset, else the date its text reads as.
pub open spec fn date_constraint_of(param: Option<String>, c: Option<CalendarDate>) -> bool {
    match param {
        Some(s) => if s@.len() == 0 {
            c is None
        } else {
            c matches Some(d) && date_in_text(s@) == Some(d@)
        },
        None => c is None,
    }
}

/// Whether a date parameter is set to a text that is no date.
pub open spec fn is_bad_date(param: Option<String>) -> bool {
    !is_unset(param) && date_in_text(param->0@) is None
}

/// A date parameter held a text that is no date.
#[derive(Clone, Copy, Debug, PartialEq, Eq)]
pub struct DateParseError;

/// A query parameter that could not be read.
#[derive(Clone, Copy, Debug, PartialEq, Eq)]
pub enum FilterError {
    AnnouncedBefore,
    AnnouncedAfter,
}

/// Constraints of a listing of facilities.
#[derive(Clone, Debug, PartialEq)]
pub struct FacilitiesFilter {
    /// Exact segment, if any.
    pub segment: Option<String>,
    /// Exact technology, if any.
    pub technology: Option<String>,
    /// Announcements strictly before this date, if any.
    pub announced_before: Option<CalendarDate>,
    /// Announcements strictly after this date, if any.
    pub announced_after: Option<CalendarDate>,
    /// Number of records to skip.
    pub offset: u32,
    /// Largest number of records to return.
    pub limit: u32,
}

/// The offset of a query that gives none.
pub fn default_offset() -> (r: u32)
    ensures
        r == 0,
{
    DEFAULT_OFFSET
}

/// The limit of a query that gives none; no upper bound is applied to a given one.
pub fn default_limit() -> (r: u32)
    ensures
        r == 100,
{
    DEFAULT_LIMIT
}

/// Maps an absent or empty text parameter to `None`, and keeps any other text.
pub fn empty_string_as_none(param: Option<String>) -> (r: Option<String>)
    ensures
        match text_constraint(param) {
            Some(t) => r matches Some(s) && s@ == t,
            None => r is None,
        },
{
    match param {
        Some(s) => if s.as_str().is_empty() {
            None
        } else {
            Some(s)
        },
        None => None,
    }
}

/// Maps an absent or empty date parameter to `None`, and reads any other text
/// as a date, failing where it is none.
pub fn empty_string_as_no_date(param: Option<String>) -> (r: Result<Option<CalendarDate>, DateParseError>)
    ensures
        r is Err <==> is_bad_date(param),
        r matches Ok(c) ==> date_constraint_of(param, c),
{
    match param {
        Some(s) => if s.as_str().is_empty() {
            Ok(None)
        } else {
            match CalendarDate::parse(s.as_str()) {
                Some(d) => Ok(Some(d)),
                None => Err(DateParseError),
            }
        },
        None => Ok(None),
    }
}

impl FacilitiesFilter {
    /// Builds a filter from raw query parameters: unset text and date
    /// parameters set no constraint, dates are read from their text, and
    /// absent pagination takes `DEFAULT_OFFSET` and `DEFAULT_LIMIT`. A date
    /// that cannot be read fails, `announced_before` checked first.
    pub fn from_query(
        segment: Option<String>,
        technology: Option<String>,
        announced_before: Option<String>,
        announced_after: Option<String>,
        offset: Option<u32>,
        limit: Option<u32>,
    ) -> (r: Result<FacilitiesFilter, FilterError>)
        ensures
            is_bad_date(announced_before) ==> r == Err::<FacilitiesFilter, FilterError>(
                FilterError::AnnouncedBefore,
            ),
            !is_bad_date(announced_before) && is_bad_date(announced_after) ==> r == Err::<
                FacilitiesFilter,
                FilterError,
            >(FilterError::AnnouncedAfter),
            !is_bad_date(announced_before) && !is_bad_date(announced_after) ==> r is Ok,
            r matches Ok(f) ==> {
                &&& match text_constraint(segment) {
                    Some(t) => f.segment matches Some(s) && s@ == t,
                    None => f.segment is None,
                }
                &&& match text_constraint(technology) {
                    Some(t) => f.technology matches Some(s) && s@ == t,
                    None => f.technology is None,
                }
                &&& date_constraint_of(announced_before, f.announced_before)
                &&& date_constraint_of(announced_after, f.announced_after)
                &&& f.offset == match offset {
                    Some(o) => o,
                    None => 0u32,
                }
                &&& f.limit == match limit {
                    Some(l) => l,
                    None => 100u32,
                }
            },
    {
        let announced_before = match empty_string_as_no_date(announced_before) {
            Ok(c) => c,
            Err(_) => return Err(FilterError::AnnouncedBefore),
        };
        let announced_after = match empty_string_as_no_date(announced_after) {
            Ok(c) => c,
            Err(_) => return Err(FilterError::AnnouncedAfter),
        };
        let offset = match offset {
            Some(o) => o,
            None => default_offset(),
        };
        let limit = match limit {
            Some(l) => l,
            None => default_limit(),
        };
        Ok(FacilitiesFilter {
            segment: empty_string_as_none(segment),
            technology: empty_string_as_none(technology),
            announced_before,
            announced_after,
            offset,
            limit,
        })
    }
}

} // verus!
