//! What is made of the version control commands' outcomes.

use vstd::prelude::*;
use vstd::string::*;
use vstd::utf8::{encode_utf8, valid_utf8};
use crate::process::{decode_lossy, reads_as, ExternalProcessError, ProcessOutput};

verus! {

/// Where the generated message is put for the commit command to pick up,
/// relative to the repository's root.
pub open spec fn commit_message_file() -> Seq<char> {
    ".git/COMMIT_MSG_GENERATED"@
}

/// The path of the file that takes the generated message.
pub fn commit_message_path() -> (path: &'static str)
    ensures
        path@ == commit_message_file(),
{
    ".git/COMMIT_MSG_GENERATED"
}

/// Takes the staged diff from what the diff query returned.
///
/// A run that reported success yields its standard output as it is: nothing
/// is trimmed, and valid UTF-8 comes back byte for byte. Any other run is a
/// failure that carries what was written to the error stream.
pub fn diff_from_output(output: &ProcessOutput) -> (result: Result<String, ExternalProcessError>)
    ensures
        result is Ok <==> output@.success,
        result matches Ok(diff) ==> reads_as(output@.stdout, diff@) && (valid_utf8(
            output@.stdout,
        ) ==> encode_utf8(diff@) == output@.stdout),
        result matches Err(e) ==> e matches ExternalProcessError::DiffFailed { stderr }
            && reads_as(output@.stderr, stderr@),
{
    if output.success {
        let diff = decode_lossy(output.stdout.as_slice());
        proof {
            if valid_utf8(output.stdout@) {
                vstd::utf8::decode_utf8_encode_utf8(output.stdout@);
            }
        }
        Ok(diff)
    } else {
        Err(ExternalProcessError::DiffFailed { stderr: decode_lossy(output.stderr.as_slice()) })
    }
}

/// Judges how the commit command ended: success as reported, or a failure
/// that carries the exit code.
pub fn commit_outcome(success: bool, exit_code: Option<i32>) -> (result: Result<
    (),
    ExternalProcessError,
>)
    ensures
        result is Ok <==> success,
        result matches Err(e) ==> e == (ExternalProcessError::CommitFailed { exit_code }),
{
    if success {
        Ok(())
    } else {
        Err(ExternalProcessError::CommitFailed { exit_code })
    }
}

} // verus!
