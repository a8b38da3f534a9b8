use vstd::prelude::*;
use vstd::string::StrSliceExecFns;
use vstd::string::StringExecFns;
use crate::errors::WeatherError;
use crate::text::find_char;
use crate::text::find_char_at;
use crate::text::lemma_find_char;

verus! {

/// The two textual coordinates of a query point, exactly as they stood
/// in the location argument: no trimming, no numeric validation. They
/// are reused as text when the service URLs are built.
pub struct Location {
    pub latitude: String,
    pub longitude: String,
}

/// A location string is well-formed when it has at least one comma,
/// that is, at least two comma-separated parts.
pub open spec fn location_ok(s: Seq<char>) -> bool {
    find_char(s, ',', 0) < s.len()
}

/// The text before the first comma.
pub open spec fn spec_latitude(s: Seq<char>) -> Seq<char> {
    s.subrange(0, find_char(s, ',', 0))
}

/// The text between the first comma and the second comma or the end.
pub open spec fn spec_longitude(s: Seq<char>) -> Seq<char> {
    let i = find_char(s, ',', 0);
    s.subrange(i + 1, find_char(s, ',', i + 1))
}

/// Splits a location argument at its first comma into latitude and
/// longitude; a third comma-separated part, if any, is ignored. A
/// string without a comma is rejected rather than read out of bounds.
pub fn parse_location(s: &str) -> (r: Result<Location, WeatherError>)
    ensures
        r is Ok <==> location_ok(s@),
        r matches Ok(loc) ==> loc.latitude@ == spec_latitude(s@) && loc.longitude@
            == spec_longitude(s@),
        r matches Err(e) ==> e == WeatherError::InvalidLocation,
{
    let n = s.unicode_len();
    let i = find_char_at(s, ',', 0);
    proof {
        lemma_find_char(s@, ',', 0);
    }
    if i == n {
        return Err(WeatherError::InvalidLocation);
    }
    let j = find_char_at(s, ',', i + 1);
    proof {
        lemma_find_char(s@, ',', i + 1);
    }
    let latitude = s.substring_char(0, i).to_owned();
    let longitude = s.substring_char(i + 1, j).to_owned();
    Ok(Location { latitude, longitude })
}

} // verus!
