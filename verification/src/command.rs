//! The outcome of one `adb` run, and how the process's raw output becomes it.

use vstd::prelude::*;
use vstd::string::*;
use vstd::utf8::*;
use crate::text::{trim, trim_str};

verus! {

/// Whether a command succeeded, and what it printed.
pub struct CommandResult {
    pub success: bool,
    pub output: String,
}

/// What a finished `adb` process reports: its standard output, followed by a
/// newline and its standard error when that is not empty, trimmed.
pub open spec fn joined_output(stdout: Seq<char>, stderr: Seq<char>) -> Seq<char> {
    trim(
        if stderr.len() == 0 {
            stdout
        } else {
            stdout + seq!['\n'] + stderr
        },
    )
}

/// The text that `String::from_utf8_lossy` makes of `bytes`.
pub uninterp spec fn utf8_lossy(bytes: Seq<u8>) -> Seq<char>;

/// `String::from_utf8_lossy`, made an owned `String`. Claimed: the result is
/// `utf8_lossy` of the bytes; it is empty exactly when the bytes are (every
/// invalid sequence becomes U+FFFD, so nothing non-empty decodes to nothing);
/// and bytes that are valid UTF-8 decode to exactly their characters. How
/// invalid sequences are replaced is left unsaid beyond that.
#[verifier::external_body]
fn decode_lossy(bytes: &[u8]) -> (s: String)
    ensures
        s@ == utf8_lossy(bytes@),
        bytes@.len() == 0 <==> s@.len() == 0,
        valid_utf8(bytes@) ==> s@ == decode_utf8(bytes@),
{
    String::from_utf8_lossy(bytes).into_owned()
}

impl View for CommandResult {
    type V = (bool, Seq<char>);

    open spec fn view(&self) -> (bool, Seq<char>) {
        (self.success, self.output@)
    }
}

impl CommandResult {
    /// A failed result carrying `message`.
    pub fn failed(message: &str) -> (r: CommandResult)
        ensures
            !r.success,
            r.output@ == message@,
    {
        CommandResult { success: false, output: String::from_str(message) }
    }

    /// A successful result carrying `message`.
    pub fn succeeded(message: &str) -> (r: CommandResult)
        ensures
            r.success,
            r.output@ == message@,
    {
        CommandResult { success: true, output: String::from_str(message) }
    }
}

/// The result of a finished `adb` process, from its decoded output streams and
/// whether it exited successfully.
pub fn combine_output(stdout: &str, stderr: &str, success: bool) -> (r: CommandResult)
    ensures
        r.success == success,
        r.output@ == joined_output(stdout@, stderr@),
{
    let mut out = String::from_str(stdout);
    if !stderr.is_empty() {
        proof {
            reveal_strlit("\n");
        }
        assert("\n"@ =~= seq!['\n']);
        out.append("\n");
        out.append(stderr);
    }
    assert(out@ =~= if stderr@.len() == 0 {
        stdout@
    } else {
        stdout@ + seq!['\n'] + stderr@
    });
    let output = trim_str(out.as_str());
    CommandResult { success, output }
}

/// The result of a finished `adb` process, from the raw bytes of its output
/// streams and whether it exited successfully.
pub fn command_result_from_output(stdout: &[u8], stderr: &[u8], success: bool) -> (r:
    CommandResult)
    ensures
        r.success == success,
        r.output@ == joined_output(utf8_lossy(stdout@), utf8_lossy(stderr@)),
        r.output@ == trim(
            if stderr@.len() == 0 {
                utf8_lossy(stdout@)
            } else {
                utf8_lossy(stdout@) + seq!['\n'] + utf8_lossy(stderr@)
            },
        ),
        valid_utf8(stdout@) && valid_utf8(stderr@) ==> r.output@ == joined_output(
            decode_utf8(stdout@),
            decode_utf8(stderr@),
        ),
{
    let out = decode_lossy(stdout);
    let err = decode_lossy(stderr);
    combine_output(out.as_str(), err.as_str(), success)
}

/// The result when no `adb` executable is known.
pub fn adb_not_found() -> (r: CommandResult)
    ensures
        !r.success,
        r.output@ == "ADB not found"@,
{
    CommandResult::failed("ADB not found")
}

/// The result when `adb` could not be run; `reason` describes the failure.
pub fn launch_failed(reason: &str) -> (r: CommandResult)
    ensures
        !r.success,
        r.output@ == "Error: "@ + reason@,
{
    let mut out = String::from_str("Error: ");
    out.append(reason);
    CommandResult { success: false, output: out }
}

} // verus!
