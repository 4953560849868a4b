//! The write-file tool: how its arguments are read, and what it answers.

use vstd::prelude::*;
use crate::agent::types::events::ToolResult;
use crate::context::pack::first_char_from;
use crate::text::{chars_of, concat, string_of, to_owned};

verus! {

/// The tool that writes a file, creating its directories.
#[derive(Debug, Clone, Copy, Default)]
pub struct WriteFileTool;

/// What to write where.
#[derive(Debug, Clone)]
pub struct WriteTarget {
    pub path: String,
    pub content: String,
}

/// The error for arguments that are neither an object nor a string.
pub const WRITE_ARGS_ERROR: &'static str = "Expected '{\"path\": \"...\", \"content\": \"...\"}' or string arguments";

/// The error for a string argument without a space.
pub const WRITE_SPLIT_ERROR: &'static str = "Expected 'path content' format with space separator";

impl WriteFileTool {
    /// The tool.
    pub fn new() -> (r: Self) {
        WriteFileTool
    }

    /// Reads the target: the `path` and `content` of an object argument
    /// (`structured`) where there is one; else a string argument `text`,
    /// split at its first space into path and content.
    pub fn write_target(structured: Option<WriteTarget>, text: Option<&str>) -> (r: Result<
        WriteTarget,
        String,
    >)
        ensures
            match structured {
                Some(t) => r matches Ok(w) && w.path@ == t.path@ && w.content@ == t.content@,
                None => match text {
                    None => r matches Err(e) && e@ == WRITE_ARGS_ERROR@,
                    Some(s) => {
                        let j = first_char_from(s@, ' ', 0);
                        if j < s@.len() {
                            r matches Ok(w) && w.path@ == s@.take(j) && w.content@ == s@.skip(j + 1)
                        } else {
                            r matches Err(e) && e@ == WRITE_SPLIT_ERROR@
                        }
                    },
                },
            },
    {
        if let Some(t) = structured {
            return Ok(t);
        }
        let s = match text {
            None => return Err(to_owned(WRITE_ARGS_ERROR)),
            Some(s) => s,
        };
        let v = chars_of(s);
        let mut i: usize = 0;
        while i < v.len() && v[i] != ' '
            invariant
                i <= v.len(),
                v@ == s@,
                first_char_from(s@, ' ', 0) == first_char_from(s@, ' ', i as int),
            decreases v.len() - i,
        {
            i += 1;
        }
        if i >= v.len() {
            return Err(to_owned(WRITE_SPLIT_ERROR));
        }
        let mut p: Vec<char> = Vec::new();
        let mut k: usize = 0;
        while k < i
            invariant
                k <= i < v.len(),
                p@ == v@.take(k as int),
            decreases i - k,
        {
            p.push(v[k]);
            k += 1;
        }
        let mut c: Vec<char> = Vec::new();
        let mut k2: usize = i + 1;
        while k2 < v.len()
            invariant
                i + 1 <= k2 <= v.len(),
                c@ == v@.subrange(i + 1, k2 as int),
            decreases v.len() - k2,
        {
            c.push(v[k2]);
            k2 += 1;
        }
        assert(c@ =~= s@.skip(i + 1));
        Ok(WriteTarget { path: string_of(&p), content: string_of(&c) })
    }
}

/// The message of a successful write.
pub fn written_message(path_display: &str) -> (r: String)
    ensures
        r@ == "File written successfully: "@ + path_display@,
{
    concat("File written successfully: ", path_display)
}

/// The result when the directories could not be created.
pub fn mkdir_error(error: &str) -> (r: ToolResult)
    ensures
        r matches ToolResult::Error { message, code, retryable } && message@
            == "Cannot create directory: "@ + error@ && (code matches Some(c) && c@
            == "MKDIR_ERROR"@) && !retryable,
{
    ToolResult::Error {
        message: concat("Cannot create directory: ", error),
        code: Some(to_owned("MKDIR_ERROR")),
        retryable: false,
    }
}

/// The result when the file could not be written.
pub fn write_error(error: &str) -> (r: ToolResult)
    ensures
        r matches ToolResult::Error { message, code, retryable } && message@
            == "Error writing file: "@ + error@ && (code matches Some(c) && c@ == "WRITE_ERROR"@)
            && !retryable,
{
    ToolResult::Error {
        message: concat("Error writing file: ", error),
        code: Some(to_owned("WRITE_ERROR")),
        retryable: false,
    }
}

} // verus!
