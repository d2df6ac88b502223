//! Size limits of projects and editor operations.
use vstd::prelude::*;

verus! {

/// The longest movie a project may hold, in frames.
pub const MAX_PROJECT_FRAMES: u64 = 16_777_216;

/// The most frames one private playback request executes.
pub const MAX_EDITOR_SEEK_EXECUTION_FRAMES: u64 = 18_000;

/// The most discontiguous ranges the marked-range list holds.
pub const MAX_MARKED_INPUT_RANGES: usize = 64;

/// The most undo steps a session keeps.
pub const MAX_UNDO_HISTORY: usize = 32;

} // verus!
