use vstd::prelude::*;

verus! {

/// Inventory descriptor for website traffic.
pub struct BidSite {
    /// Optional site identifier.
    pub id: Option<String>,
    /// Domain the impression would be served on.
    pub domain: String,
}

/// Inventory descriptor for in-app traffic.
pub struct BidApp {
    /// Application bundle identifier.
    pub bundle: String,
}

/// Device the impression would be shown on.
pub struct BidDevice {
    /// Optional device IP address.
    pub ip: Option<String>,
    /// Optional operating system name.
    pub os: Option<String>,
    /// "Limit ad tracking" flag: 1 means the user opted out of tracking.
    pub lmt: i32,
    /// Optional user agent string.
    pub ua: Option<String>,
}

/// User on whose behalf the request is made.
pub struct BidUser {
    /// User identifier.
    pub id: String,
}

/// An inbound bid request: the unit of work of the admission pipeline.
///
/// Absent optional fields are `None`, which the pipeline keeps distinct
/// from an empty string throughout.
pub struct BidRequest {
    /// Opaque request identifier; must be non-empty to be admitted.
    pub id: String,
    /// Optional website inventory context.
    pub site: Option<BidSite>,
    /// Optional application inventory context.
    pub app: Option<BidApp>,
    /// Optional device context.
    pub device: Option<BidDevice>,
    /// Optional user context.
    pub user: Option<BidUser>,
}

} // verus!
