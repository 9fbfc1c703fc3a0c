//! The typed payload a system-information fetch decodes into.

use vstd::prelude::*;

verus! {

/// The wrapping level every feed document carries: the payload plus the
/// time the feed was last updated, in non-leap seconds since the Unix
/// epoch.
#[derive(Debug)]
pub struct Gbfs<T> {
    pub last_updated: i64,
    pub data: T,
}

/// The system-information payload of one bike-share provider.
#[derive(Debug)]
pub struct SystemInformation {
    pub system_id: String,
    pub language: String,
    pub name: String,
    pub operator: String,
    /// An IANA zone name; an unknown name falls back to UTC for display.
    pub timezone: String,
    pub phone_number: String,
    pub email: String,
}

} // verus!
