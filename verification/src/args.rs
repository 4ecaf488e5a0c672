//! What the command line supplies before any pipeline is built.

use vstd::prelude::*;

verus! {

/// Port that audio is sent to where none is given.
pub const DEFAULT_SEND_PORT: u16 = 5002;

/// Port that audio is received on where none is given.
pub const DEFAULT_LISTEN_PORT: u16 = 5004;

/// The arguments of the daemon.
#[derive(Clone, Debug, PartialEq, Eq)]
pub struct Args {
    /// The device to capture from: a name, or an index where the platform
    /// counts its devices.
    pub capture_device: Option<String>,
    /// The host to send to. Without one nothing is sent.
    pub send_to: Option<String>,
    /// The port to send to.
    pub send_port: u16,
    /// The port to receive on.
    pub listen_port: u16,
    /// Whether the instance is advertised on the local network.
    pub mdns: bool,
}

impl Default for Args {
    /// The arguments of a daemon that was started without any: it only
    /// receives, on port 5004, and advertises itself.
    fn default() -> (a: Args)
        ensures
            a.capture_device is None,
            a.send_to is None,
            a.send_port == 5002,
            a.listen_port == 5004,
            a.mdns,
    {
        Args {
            capture_device: None,
            send_to: None,
            send_port: DEFAULT_SEND_PORT,
            listen_port: DEFAULT_LISTEN_PORT,
            mdns: true,
        }
    }
}

} // verus!
