//! Rendering a feed timestamp in the timezone a payload names, falling
//! back to UTC when the zone name is not a known IANA zone.

use vstd::prelude::*;

verus! {

/// Whether `name` is an IANA zone name that the zone table knows.
/// Names the success of `chrono_tz::Tz::from_str`, an exact lookup in a
/// static table: the same name gives the same answer everywhere.
pub uninterp spec fn zone_is_valid(name: Seq<char>) -> bool;

/// The display text of the instant `epoch` (non-leap seconds since the
/// Unix epoch) in the zone named `zone`. Names the output of chrono's
/// `Display` for a `DateTime` converted into a `chrono_tz` zone: a fixed
/// format over compiled-in zone data, a function of its arguments alone.
pub uninterp spec fn rendered_timestamp(epoch: int, zone: Seq<char>) -> Seq<char>;

/// The last instant that is rendered: 9999-12-31T23:59:59Z.
pub const MAX_RENDERABLE_EPOCH: i64 = 253402300799;

/// Epoch seconds from 1970 through `MAX_RENDERABLE_EPOCH`: well inside
/// the range chrono documents as representable.
pub open spec fn in_chrono_range(epoch: i64) -> bool {
    0 <= epoch <= MAX_RENDERABLE_EPOCH
}

/// Relies on `chrono_tz::Tz::from_str` (an exact lookup in the static zone
/// table), `chrono::DateTime::from_timestamp` (documented `Some` for an
/// in-range number of seconds), `DateTime::with_timezone`, and chrono's
/// `Display` for the converted value.
#[verifier::external_body]
fn format_in_zone(epoch: i64, zone: &str) -> (r: Option<String>)
    ensures
        r is Some ==> zone_is_valid(zone@),
        zone_is_valid(zone@) && in_chrono_range(epoch) ==> r is Some,
        r matches Some(s) ==> s@ == rendered_timestamp(epoch as int, zone@),
{
    let tz: chrono_tz::Tz = match zone.parse() {
        Ok(tz) => tz,
        Err(_) => return None,
    };
    chrono::DateTime::from_timestamp(epoch, 0).map(|at| at.with_timezone(&tz).to_string())
}

/// Relies on `chrono_tz::Tz::name`: the canonical name of `Tz::UTC` is
/// `"UTC"`, and the zone table maps that name back to `Tz::UTC`, so the
/// returned name parses.
#[verifier::external_body]
fn utc_zone_name() -> (r: String)
    ensures
        r@ == "UTC"@ && zone_is_valid(r@),
{
    chrono_tz::Tz::UTC.name().to_string()
}

/// Display text of the instant `epoch` in the zone named `zone`, or in
/// UTC when `zone` is not a known zone name. `None` only for an instant
/// outside the renderable range.
pub fn render_timestamp(epoch: i64, zone: &str) -> (r: Option<String>)
    ensures
        r is Some <==> in_chrono_range(epoch),
        r matches Some(s) ==> s@ == rendered_timestamp(
            epoch as int,
            if zone_is_valid(zone@) {
                zone@
            } else {
                "UTC"@
            },
        ),
{
    if !(0 <= epoch && epoch <= MAX_RENDERABLE_EPOCH) {
        return None;
    }
    match format_in_zone(epoch, zone) {
        Some(s) => Some(s),
        None => {
            let utc = utc_zone_name();
            format_in_zone(epoch, utc.as_str())
        },
    }
}

} // verus!
