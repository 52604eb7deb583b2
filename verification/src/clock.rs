use vstd::prelude::*;

verus! {

/// A date token as the filename stamp uses it: a zero-padded year, month and
/// day, at least eight characters, all ASCII digits except that a year
/// outside the four-digit range is printed with an explicit leading sign.
pub open spec fn spec_date_token(d: Seq<char>) -> bool {
    &&& d.len() >= 8
    &&& forall|i: int| 1 <= i < d.len() ==> 48 <= (#[trigger] d[i]) as u32 <= 57
    &&& (48 <= d[0] as u32 <= 57 || d[0] == '+' || d[0] == '-')
}

/// Relies on chrono's DateTime conversion from the system clock (total, even
/// for clocks before the Unix epoch) and DateTime::format with "%Y%m%d": the
/// current UTC date printed as a zero-padded year (at least four digits,
/// signed when outside 0 through 9999) followed by two-digit month and day.
#[verifier::external_body]
pub(crate) fn utc_date_compact() -> (r: String)
    ensures
        spec_date_token(r@),
{
    let now = chrono::DateTime::<chrono::Utc>::from(std::time::SystemTime::now());
    now.format("%Y%m%d").to_string()
}

} // verus!
