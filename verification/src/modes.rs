use vstd::prelude::*;

verus! {

/// How the location-feed daemon is launched: from a GPS receiver attached
/// to the host, or from a phone that forwards fixes to the host. Both
/// modes feed the same read/parse/store pipeline.
#[derive(Clone, Copy, Debug, PartialEq, Eq, Structural)]
pub enum GpsMode {
    Host,
    Phone,
}

impl GpsMode {
    /// The name under which this mode appears on the command line and in
    /// diagnostics.
    pub fn label(&self) -> (r: &'static str)
        ensures
            *self == GpsMode::Host ==> r@ == "host"@,
            *self == GpsMode::Phone ==> r@ == "phone"@,
    {
        match self {
            GpsMode::Host => "host",
            GpsMode::Phone => "phone",
        }
    }
}

} // verus!
