//! Notification commands.

use vstd::prelude::*;

verus! {

/// Error wrapper for commands
#[derive(Debug, Clone)]
pub struct CommandError {
    pub message: String,
}

} // verus!
