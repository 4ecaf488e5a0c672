//! Presence advertisement on the local network.

use vstd::prelude::*;

verus! {

/// The presence service did not take an announcement.
#[derive(Clone, Copy, Debug, PartialEq, Eq, Structural)]
pub struct AdvertiseError;

/// Hands an instance name and the port it listens on to the presence
/// service. No service is attached yet: every input is accepted, nothing is
/// published, and the call reports success.
pub fn advertise_instance(_instance_name: &str, _port: u16) -> (r: Result<(), AdvertiseError>)
    ensures
        r is Ok,
{
    Ok(())
}

} // verus!
