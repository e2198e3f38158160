//! The ports to the external data backends.
//!
//! The geolocation database, the timezone boundary engine and the
//! clock-dependent timezone arithmetic live outside the library; each
//! is reached through a trait that the embedding program implements and
//! injects at construction time.  The library promises nothing of what
//! comes back through a port: every caller handles every outcome.

use vstd::prelude::*;

use crate::models::GeoData;
use crate::models::TimezoneDetails;

verus! {

/// Why a lookup produced no record.
#[derive(Debug, Clone)]
pub enum GeoIpError {
    /// The address is not in the database.
    NotFound,
    /// The backend failed, with its own message.
    Backend { message: String },
}

impl GeoIpError {
    /// A human-readable account of the failure.
    pub fn describe(&self) -> (r: String)
        ensures
            self is NotFound ==> r@ == "IP address not found in database"@,
            self matches GeoIpError::Backend { message } ==> r@ == message@,
    {
        match self {
            GeoIpError::NotFound => String::from_str("IP address not found in database"),
            GeoIpError::Backend { message } => message.clone(),
        }
    }
}

/// The geolocation lookup port.
pub trait GeoIpLookup {
    /// Look the address string up in the backing database.
    fn lookup(&self, ip_str: &str) -> Result<GeoData, GeoIpError>;
}

/// The coordinate-to-timezone-name port.  Coordinates are E7; `None`
/// stands for a point in no zone (open sea) or out of range.
pub trait TimezoneNamePort {
    fn resolve(&self, lat: i64, lng: i64) -> Option<String>;
}

/// The timezone detail port: offsets, DST state and current local time
/// of a named zone; `None` for a name the backend does not know.
pub trait TimezoneDetailPort {
    fn details(&self, tz_name: &str) -> Option<TimezoneDetails>;
}

} // verus!
