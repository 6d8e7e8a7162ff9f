use vstd::prelude::*;

verus! {

/// Where the updater stands; observers read it and only the updater changes it.
#[derive(Clone, Copy, PartialEq, Eq, Structural, Debug)]
pub enum AutoUpdateStatus {
    Idle,
    Checking,
    Downloading,
    Installing,
    Updated,
    Errored,
}

impl AutoUpdateStatus {
    /// Whether a status may stand while no update cycle is running.
    pub open spec fn is_resting(self) -> bool {
        self == AutoUpdateStatus::Idle || self == AutoUpdateStatus::Updated
            || self == AutoUpdateStatus::Errored
    }
}

} // verus!
