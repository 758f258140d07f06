//! The exchange with the text generator: what it is asked, and what is made
//! of its answer.

use vstd::prelude::*;
use vstd::string::*;
use vstd::utf8::{decode_utf8, valid_utf8};
use crate::config::Config;
use crate::encoding::byte_length;
use crate::process::{decode_lossy, lossy_text, reads_as, ExternalProcessError, ProcessOutput};
use crate::prompt::{self, composed};
use crate::validation::{prompt_size, within_limit, SizeExceeded};
use crate::whitespace::{trim, trimmed};

verus! {

/// Builds the prompt from the configured template and `diff`.
///
/// The size is not looked at here; [`prepare_request`] does that first.
pub fn build_prompt(diff: &str, config: &Config) -> (prompt: String)
    ensures
        prompt@ == composed(config@.prompt, diff@),
{
    prompt::compose(config.prompt.as_str(), diff)
}

/// Prepares what the generator is asked: the prompt for `diff` under the
/// configured template, provided that it stays within the configured ceiling.
pub fn prepare_request(diff: &str, config: &Config) -> (result: Result<String, SizeExceeded>)
    ensures
        result is Ok <==> within_limit(config@.prompt, diff@, config@.max_prompt_size),
        result matches Ok(prompt) ==> prompt@ == composed(config@.prompt, diff@) && byte_length(
            prompt@,
        ) <= config@.max_prompt_size,
        result matches Err(e) ==> e.total == prompt_size(config@.prompt, diff@) && e.max_size
            == config@.max_prompt_size,
{
    prompt::build_prompt(diff, config.prompt.as_str(), config.max_prompt_size)
}

/// Takes the commit message from what the generator returned.
///
/// A run that reported success yields its standard output without the
/// whitespace around it. Any other run is a failure that carries the exit
/// code and what was written to the error stream.
pub fn read_response(output: &ProcessOutput) -> (result: Result<String, ExternalProcessError>)
    ensures
        result is Ok <==> output@.success,
        result matches Ok(message) ==> message@ == trimmed(lossy_text(output@.stdout)) && (
        valid_utf8(output@.stdout) ==> message@ == trimmed(decode_utf8(output@.stdout))),
        result matches Err(e) ==> e matches ExternalProcessError::GeneratorFailed {
            exit_code,
            stderr,
        } && exit_code == output@.exit_code && reads_as(output@.stderr, stderr@),
{
    if output.success {
        let text = decode_lossy(output.stdout.as_slice());
        Ok(String::from_str(trim(text.as_str())))
    } else {
        Err(
            ExternalProcessError::GeneratorFailed {
                exit_code: output.exit_code,
                stderr: decode_lossy(output.stderr.as_slice()),
            },
        )
    }
}

} // verus!
