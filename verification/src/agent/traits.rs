//! What the agent needs from a terminal, as a trait that terminal front ends
//! implement.

use vstd::prelude::*;

verus! {

/// Runs commands in a terminal and reads its screen. Implementations return
/// when the command finishes or the timeout passes (`None`: no timeout).
pub trait TerminalExecutor: Send + Sync {
    /// Runs a command; its output (stdout and stderr), or why it failed.
    fn execute_command(&self, cmd: String, timeout: Option<std::time::Duration>) -> Result<String, String>;

    /// The text currently on the screen, or why it could not be read.
    fn get_screen(&self) -> Result<String, String>;
}

} // verus!
