//! The shared master-mute flag of the playback device.

use vstd::prelude::*;
use std::sync::Arc;
use std::sync::atomic::AtomicBool;

verus! {

/// Emergency master mute, shared with the audio callback: set to silence
/// the output, clear to restore.
pub type MuteFlag = Arc<AtomicBool>;

/// A fresh mute flag, cleared. (An atomic's contents have no model that a
/// contract can speak of, so no clause states it.)
pub fn new_mute_flag() -> MuteFlag {
    Arc::new(AtomicBool::new(false))
}

} // verus!
