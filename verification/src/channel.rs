//! Validation of the selector that names the datapath channel transport.

use vstd::prelude::*;

verus! {

/// Why a channel selector was turned down. The caller gets this back before
/// anything is started; it is no reason to abort.
#[derive(Debug)]
pub enum ChannelError {
    /// The transport layer does not know the selector; the text is the
    /// transport layer's own message.
    InvalidSelector(String),
}

/// The selectors that some platform accepts.
pub open spec fn selector_known(s: Seq<char>) -> bool {
    s == "netlink"@ || s == "unix"@ || s == "char"@
}

/// Calls `portus::algs::ipc_valid`. That validator is compiled per platform:
/// on Linux it accepts `netlink`, `unix` and `char`, elsewhere `unix` alone.
/// The contract states what holds on both: `unix` is always accepted, and
/// nothing outside the three names ever is.
#[verifier::external_body]
fn ipc_valid(v: String) -> (r: Result<(), String>)
    ensures
        v@ == "unix"@ ==> r is Ok,
        r is Ok ==> selector_known(v@),
{
    portus::algs::ipc_valid(v)
}

/// Turns the transport layer's verdict on a selector into this library's
/// result: acceptance stays acceptance, and a refusal keeps its message.
pub fn selector_verdict(verdict: Result<(), String>) -> (r: Result<(), ChannelError>)
    ensures
        verdict is Ok <==> r is Ok,
        verdict matches Err(msg) ==> r == Err::<(), ChannelError>(ChannelError::InvalidSelector(msg)),
{
    match verdict {
        Ok(()) => Ok(()),
        Err(msg) => Err(ChannelError::InvalidSelector(msg)),
    }
}

/// Checks a channel selector once, before startup. `unix` is accepted on
/// every platform; a selector other than `netlink`, `unix` and `char` is
/// refused on every platform; for `netlink` and `char` the platform decides.
pub fn validate_ipc(ipc: &str) -> (r: Result<(), ChannelError>)
    ensures
        ipc@ == "unix"@ ==> r is Ok,
        r is Ok ==> selector_known(ipc@),
{
    selector_verdict(ipc_valid(ipc.to_owned()))
}

} // verus!
