//! Service configuration: which root URL the service advertises.

use vstd::prelude::*;

verus! {

/// Configuration of the rendering service.  Built by the driver from
/// the environment.
#[derive(Debug, Clone, Copy, PartialEq, Eq, Structural)]
pub struct AppConfig {
    /// Whether the service runs on its public host rather than
    /// locally.
    pub shuttle: bool,
}

impl AppConfig {
    /// The root under which the service's own URLs are formed: the
    /// public host when deployed, the local address otherwise.
    pub fn root_url(&self) -> (r: &'static str)
        ensures
            self.shuttle ==> r@ == "https://raytracing-iow.shuttleapp.rs"@,
            !self.shuttle ==> r@ == "http://localhost:8000"@,
    {
        if self.shuttle {
            "https://raytracing-iow.shuttleapp.rs"
        } else {
            "http://localhost:8000"
        }
    }
}

} // verus!
