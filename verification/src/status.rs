//! The running-state detector's decision: mapping the outcome of probing the
//! lock artifact to the reported status text.

use vstd::prelude::*;

use crate::model::LockProbe;

verus! {

/// The status text reported for a lock-probe outcome: no lock file or an
/// unopenable one gives `"unknown"`, a free lock means the server is not
/// running (`"offline"`), a held lock means it is (`"online"`).
pub open spec fn status_text(p: LockProbe) -> Seq<char> {
    match p {
        LockProbe::Missing => "unknown"@,
        LockProbe::OpenFailed => "unknown"@,
        LockProbe::Acquired => "offline"@,
        LockProbe::Held => "online"@,
    }
}

/// Classifies a lock-probe outcome as `"online"`, `"offline"` or
/// `"unknown"`.
pub fn check_server_status(probe: &LockProbe) -> (r: String)
    ensures
        r@ == status_text(*probe),
{
    match probe {
        LockProbe::Missing => String::from_str("unknown"),
        LockProbe::OpenFailed => String::from_str("unknown"),
        LockProbe::Acquired => String::from_str("offline"),
        LockProbe::Held => String::from_str("online"),
    }
}

} // verus!
