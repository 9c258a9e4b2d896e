//! Handles to the tunnel device.

use vstd::prelude::*;
use crate::error::Error;
use crate::service::{bypass_result, result_view, CallOutcome};

verus! {

/// Handle to a tunnel device on Android. It names the device by its file
/// descriptor and does not own it: the provider that gave the handle out says
/// when the descriptor is to be released.
#[derive(Clone, Copy, Debug, PartialEq, Eq, Structural)]
pub struct VpnServiceTun {
    tunnel: i32,
}

impl View for VpnServiceTun {
    type V = i32;

    /// The file descriptor of the tunnel device.
    closed spec fn view(&self) -> i32 {
        self.tunnel
    }
}

impl VpnServiceTun {
    /// A handle to the device behind `tunnel`.
    pub(crate) fn over(tunnel: i32) -> (tun: VpnServiceTun)
        ensures
            tun@ == tunnel,
    {
        VpnServiceTun { tunnel }
    }

    /// Retrieve the tunnel interface name.
    pub fn interface_name(&self) -> (name: &'static str)
        ensures
            name@ == "tun"@,
    {
        "tun"
    }

    /// The file descriptor of the tunnel device, to set up packet I/O with.
    pub fn as_raw_fd(&self) -> (fd: i32)
        ensures
            fd == self@,
    {
        self.tunnel
    }

    /// Allow a socket to bypass the tunnel. Calls `bypass` once, with
    /// `socket`, and reads how the call ended: success where the service
    /// returned `true`, a refusal where it returned `false`.
    pub fn bypass<F: FnOnce(i32) -> CallOutcome>(&self, socket: i32, bypass: F) -> (result: Result<
        (),
        Error,
    >)
        requires
            bypass.requires((socket,)),
        ensures
            exists|outcome: CallOutcome|
                {
                    &&& #[trigger] bypass.ensures((socket,), outcome)
                    &&& result_view(result) == bypass_result(outcome@)
                },
    {
        bypass(socket).into_bypass()
    }
}

} // verus!
