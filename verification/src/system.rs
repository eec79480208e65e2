//! What the machine says of itself: its name, the user, the thread.

use vstd::prelude::*;

verus! {

/// `gethostname::gethostname`, with the name turned into a string.
///
/// Trusted: nothing is claimed of the name; it is `None` where the machine's
/// name is not valid UTF-8.
#[verifier::external_body]
pub(crate) fn system_host_name() -> (name: Option<String>) {
    gethostname::gethostname().into_string().ok()
}

/// `whoami::username`.
///
/// Trusted: nothing is claimed of the name; it is `None` where the lookup
/// fails.
#[verifier::external_body]
pub(crate) fn system_user_name() -> (name: Option<String>) {
    whoami::username().ok()
}

/// `nix::unistd::gettid`, as an unsigned number.
///
/// Trusted: nothing is claimed of the id.
#[verifier::external_body]
pub(crate) fn get_tid() -> (id: u64) {
    nix::unistd::gettid().as_raw() as u64
}

} // verus!
