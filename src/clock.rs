use vstd::prelude::*;

verus! {

/// Relies on `kstool::time::get_current_timestamp`: the system clock read as
/// milliseconds since the Unix epoch. Nothing is assumed about the value; the
/// function panics only if the system clock stands before the epoch.
#[verifier::external_body]
pub(crate) fn current_timestamp() -> (r: u128) {
    kstool::prelude::get_current_timestamp()
}

} // verus!
