//! What an external program left behind when it ended, and how its failure
//! is reported.

use vstd::prelude::*;
use vstd::string::*;
use vstd::utf8::{decode_utf8, valid_utf8};
use crate::decimal::{format_signed, signed_decimal};

verus! {

/// The outcome of one run of an external program.
#[derive(Debug)]
pub struct ProcessOutput {
    /// Whether the program reported success.
    pub success: bool,
    /// The exit code, where the program ended with one.
    pub exit_code: Option<i32>,
    /// What the program wrote to its standard output.
    pub stdout: Vec<u8>,
    /// What the program wrote to its error stream.
    pub stderr: Vec<u8>,
}

/// An outcome as plain values.
pub struct ProcessOutputView {
    pub success: bool,
    pub exit_code: Option<i32>,
    pub stdout: Seq<u8>,
    pub stderr: Seq<u8>,
}

impl View for ProcessOutput {
    type V = ProcessOutputView;

    open spec fn view(&self) -> ProcessOutputView {
        ProcessOutputView {
            success: self.success,
            exit_code: self.exit_code,
            stdout: self.stdout@,
            stderr: self.stderr@,
        }
    }
}

/// An external program that ran and reported failure.
#[derive(Debug)]
pub enum ExternalProcessError {
    /// The text generator failed.
    GeneratorFailed { exit_code: Option<i32>, stderr: String },
    /// The query for the staged changes failed.
    DiffFailed { stderr: String },
    /// The commit command failed.
    CommitFailed { exit_code: Option<i32> },
}

/// The text that `bytes` stand for when read as UTF-8, with a replacement
/// character wherever they are not valid UTF-8.
pub uninterp spec fn lossy_text(bytes: Seq<u8>) -> Seq<char>;

/// Whether `text` is what `bytes` are read as: their lossy reading, which
/// for valid UTF-8 is the text that they encode.
pub open spec fn reads_as(bytes: Seq<u8>, text: Seq<char>) -> bool {
    &&& text == lossy_text(bytes)
    &&& valid_utf8(bytes) ==> text == decode_utf8(bytes)
}

/// Notation of an exit code in reports: `Some(..)` around the number, or
/// `None` where the program ended without one.
pub open spec fn exit_code_text(exit_code: Option<i32>) -> Seq<char> {
    match exit_code {
        Some(code) => "Some("@ + signed_decimal(code as int) + ")"@,
        None => "None"@,
    }
}

impl ExternalProcessError {
    /// The text that reports this failure.
    pub open spec fn message(&self) -> Seq<char> {
        match self {
            ExternalProcessError::GeneratorFailed { exit_code, stderr } => {
                "Generator command failed with exit code "@ + exit_code_text(*exit_code)
                    + "\nstderr: "@ + stderr@
            },
            ExternalProcessError::DiffFailed { stderr } => {
                "Git diff command failed: "@ + stderr@
            },
            ExternalProcessError::CommitFailed { exit_code } => {
                "Git commit command failed with exit code: "@ + exit_code_text(*exit_code)
            },
        }
    }

    /// Renders the report for the user.
    pub fn to_string(&self) -> (text: String)
        ensures
            text@ == self.message(),
    {
        match self {
            ExternalProcessError::GeneratorFailed { exit_code, stderr } => {
                let mut text = String::from_str("Generator command failed with exit code ");
                let code = format_exit_code(*exit_code);
                text.append(code.as_str());
                text.append("\nstderr: ");
                text.append(stderr.as_str());
                text
            },
            ExternalProcessError::DiffFailed { stderr } => {
                let mut text = String::from_str("Git diff command failed: ");
                text.append(stderr.as_str());
                text
            },
            ExternalProcessError::CommitFailed { exit_code } => {
                let mut text = String::from_str("Git commit command failed with exit code: ");
                let code = format_exit_code(*exit_code);
                text.append(code.as_str());
                text
            },
        }
    }
}

/// Writes an exit code the way reports show it.
pub fn format_exit_code(exit_code: Option<i32>) -> (text: String)
    ensures
        text@ == exit_code_text(exit_code),
{
    match exit_code {
        Some(code) => {
            let mut text = String::from_str("Some(");
            let number = format_signed(code);
            text.append(number.as_str());
            text.append(")");
            text
        },
        None => String::from_str("None"),
    }
}

/// Reads `bytes` as UTF-8 text with `String::from_utf8_lossy`.
///
/// The contract names the result `lossy_text` of the bytes, and claims of it
/// that valid UTF-8 is decoded as it stands. How invalid bytes are replaced
/// is left to the standard library.
#[verifier::external_body]
pub(crate) fn decode_lossy(bytes: &[u8]) -> (text: String)
    ensures
        text@ == lossy_text(bytes@),
        valid_utf8(bytes@) ==> text@ == decode_utf8(bytes@),
{
    String::from_utf8_lossy(bytes).into_owned()
}

} // verus!
