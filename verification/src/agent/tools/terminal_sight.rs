//! The terminal sight tool: what it answers for a snapshot of the screen.

use vstd::prelude::*;
use crate::agent::traits::TerminalExecutor;
use crate::text::{concat, is_blank, to_owned, trim_seq};

verus! {

/// The answer of the terminal sight tool for a screen snapshot: a notice
/// for a blank screen, else the snapshot under a heading.
pub fn sight_output(screen: &str) -> (r: String)
    ensures
        trim_seq(screen@).len() == 0 ==> r@ == "Terminal is currently empty or has no visible text."@,
        trim_seq(screen@).len() > 0 ==> r@ == "## Terminal Screen Snapshot:\n\n"@ + screen@,
{
    if is_blank(screen) {
        to_owned("Terminal is currently empty or has no visible text.")
    } else {
        concat("## Terminal Screen Snapshot:\n\n", screen)
    }
}

/// The tool that shows the agent the terminal's screen.
pub struct TerminalSightTool<T: TerminalExecutor> {
    pub terminal: T,
}

impl<T: TerminalExecutor> TerminalSightTool<T> {
    pub fn new(terminal: T) -> (r: Self)
        ensures
            r.terminal == terminal,
    {
        TerminalSightTool { terminal }
    }

    /// Reads the screen and answers with `sight_output` of it; a failed read
    /// is returned as it is. The arguments are ignored.
    pub fn call(&self, args: &str) -> (r: Result<String, String>)
        ensures
            r matches Ok(s) ==> (s@ == "Terminal is currently empty or has no visible text."@ || (
            s@.len() >= "## Terminal Screen Snapshot:\n\n"@.len() && s@.take(
                "## Terminal Screen Snapshot:\n\n"@.len() as int,
            ) == "## Terminal Screen Snapshot:\n\n"@)),
    {
        match self.terminal.get_screen() {
            Ok(screen) => {
                let out = sight_output(screen.as_str());
                proof {
                    let h = "## Terminal Screen Snapshot:\n\n"@;
                    if trim_seq(screen@).len() > 0 {
                        assert((h + screen@).take(h.len() as int) =~= h);
                    }
                }
                Ok(out)
            },
            Err(e) => Err(e),
        }
    }
}

} // verus!
