//! Running a command line: validation of the line itself and the policy
//! applied to a finished process's outcome.
//!
//! Spawning the process is the host application's business; it hands back
//! either a [`RawCapture`] from a process that ran to completion, or the
//! cause of a spawn failure.

use crate::clock::now_rfc3339;
use crate::text::{
    decode_utf8_lossy, split_into_lines, split_lines, split_whitespace_tokens, utf8_lossy,
    whitespace_tokens,
};
use vstd::prelude::*;

verus! {

/// Why a poll produced no output.
#[derive(Debug, Clone, PartialEq, Eq)]
pub enum RunError {
    /// The command line holds no token to invoke.
    NoCommand,
    /// The process ran and exited with a non-zero status.
    NonZeroExit,
    /// The process could not be started; the cause as the host reported it.
    SpawnFailed(String),
}

/// What the host hands back from a process that ran to completion.
#[derive(Debug, Clone)]
pub struct RawCapture {
    /// Captured standard output, as raw bytes.
    pub stdout: Vec<u8>,
    /// Whether the exit status signalled success.
    pub exit_ok: bool,
}

/// A successful capture: the output split into lines, and when it was taken.
#[derive(Debug, Clone)]
pub struct CapturedOutput {
    pub lines: Vec<String>,
    pub timestamp: String,
}

/// The lines a process's raw standard output decodes to.
pub open spec fn captured_lines(stdout: Seq<u8>) -> Seq<Seq<char>> {
    split_lines(utf8_lossy(stdout))
}

/// Splits a command line into its whitespace-separated tokens, the program
/// name first. A line with no token cannot be invoked. Quoting is not
/// interpreted; the split is plain whitespace tokenization.
pub fn split_command(cmdline: &str) -> (r: Result<Vec<String>, RunError>)
    ensures
        ({
            let toks = whitespace_tokens(cmdline@);
            if toks.len() == 0 {
                r == Err::<Vec<String>, RunError>(RunError::NoCommand)
            } else {
                r is Ok && r->Ok_0.deep_view() == toks
            }
        }),
{
    let toks = split_whitespace_tokens(cmdline);
    if toks.len() == 0 {
        Err(RunError::NoCommand)
    } else {
        Ok(toks)
    }
}

/// Applies the capture policy to a finished spawn: a spawn failure is
/// reported with its cause, a non-zero exit is reported as such, and a
/// successful run has its standard output decoded, split into lines and
/// stamped with the time of capture.
pub fn capture(raw: Result<RawCapture, String>) -> (r: Result<CapturedOutput, RunError>)
    ensures
        ({
            match raw {
                Result::Err(cause) => r == Err::<CapturedOutput, RunError>(
                    RunError::SpawnFailed(cause),
                ),
                Result::Ok(rc) => {
                    if !rc.exit_ok {
                        r == Err::<CapturedOutput, RunError>(RunError::NonZeroExit)
                    } else {
                        r is Ok && r->Ok_0.lines.deep_view() == captured_lines(rc.stdout@)
                    }
                },
            }
        }),
{
    match raw {
        Err(cause) => Err(RunError::SpawnFailed(cause)),
        Ok(rc) => {
            if !rc.exit_ok {
                return Err(RunError::NonZeroExit);
            }
            let text = decode_utf8_lossy(rc.stdout.as_slice());
            let lines = split_into_lines(text.as_str());
            Ok(CapturedOutput { lines, timestamp: now_rfc3339() })
        },
    }
}

} // verus!
