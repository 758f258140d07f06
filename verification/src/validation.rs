//! Size limits on the combined prompt, measured in bytes.
//!
//! The size of a prompt is known before the prompt exists: it is the size of
//! the template, of the diff and of the separator between them. Checking it
//! first means that an oversized diff is turned down without being copied.

use vstd::prelude::*;
use vstd::string::*;
use crate::decimal::{decimal, format_decimal};
use crate::encoding::{byte_length, lemma_byte_length_bounds};

verus! {

/// Default ceiling on the combined prompt size, in bytes.
pub const MAX_PROMPT_SIZE: usize = 1_000_000;

/// Length in bytes of the separator that stands between template and diff.
pub const SEPARATOR_SIZE: usize = 2;

/// Size in bytes of the prompt composed from `template` and `diff`:
/// both texts and the separator between them.
pub open spec fn prompt_size(template: Seq<char>, diff: Seq<char>) -> nat {
    byte_length(template) + SEPARATOR_SIZE as nat + byte_length(diff)
}

/// Whether the prompt composed from `template` and `diff` is accepted under
/// the ceiling `max_size`. The ceiling itself is still accepted.
pub open spec fn within_limit(template: Seq<char>, diff: Seq<char>, max_size: nat) -> bool {
    prompt_size(template, diff) <= max_size
}

/// A prompt that would be larger than the ceiling allows.
#[derive(Debug, PartialEq, Eq, Structural)]
pub struct SizeExceeded {
    /// Size in bytes that the combined prompt would have. The field is wide
    /// enough for the sum of any two lengths and the separator.
    pub total: u128,
    /// The ceiling that was applied, in bytes.
    pub max_size: usize,
}

impl SizeExceeded {
    /// The text that reports this condition: both sizes, and what to do about it.
    pub open spec fn message(&self) -> Seq<char> {
        "Prompt size ("@ + decimal(self.total as nat)
            + " bytes) exceeds maximum allowed size ("@ + decimal(self.max_size as nat)
            + " bytes). Consider reducing the size of staged changes or splitting into multiple commits."@
    }

    /// Renders the report for the user.
    pub fn to_string(&self) -> (text: String)
        ensures
            text@ == self.message(),
    {
        let mut text = String::from_str("Prompt size (");
        let total = format_decimal(self.total);
        text.append(total.as_str());
        text.append(" bytes) exceeds maximum allowed size (");
        let max_size = format_decimal(self.max_size as u128);
        text.append(max_size.as_str());
        text.append(
            " bytes). Consider reducing the size of staged changes or splitting into multiple commits.",
        );
        text
    }
}

/// Checks the size of the combined prompt against `max_size` before the
/// prompt is built.
///
/// Succeeds exactly when template, separator and diff together take at most
/// `max_size` bytes. The failure carries the size that was found and the
/// ceiling.
pub fn validate_size(prompt_template: &str, diff: &str, max_size: usize) -> (result: Result<
    (),
    SizeExceeded,
>)
    ensures
        result is Ok <==> within_limit(prompt_template@, diff@, max_size as nat),
        result matches Err(e) ==> e.total == prompt_size(prompt_template@, diff@) && e.max_size
            == max_size,
{
    let template_size: usize = prompt_template.as_bytes().len();
    let diff_size: usize = diff.as_bytes().len();
    let total: u128 = template_size as u128 + SEPARATOR_SIZE as u128 + diff_size as u128;
    if total > max_size as u128 {
        Err(SizeExceeded { total, max_size })
    } else {
        Ok(())
    }
}

/// Checks the size of the combined prompt against [`MAX_PROMPT_SIZE`].
pub fn validate_prompt_size(prompt_template: &str, diff: &str) -> (result: Result<
    (),
    SizeExceeded,
>)
    ensures
        result is Ok <==> within_limit(prompt_template@, diff@, MAX_PROMPT_SIZE as nat),
        result matches Err(e) ==> e.total == prompt_size(prompt_template@, diff@) && e.max_size
            == MAX_PROMPT_SIZE,
{
    validate_size(prompt_template, diff, MAX_PROMPT_SIZE)
}

/// Computes the size of the combined prompt without building it.
///
/// The size is counted in bytes, so it is never below the number of
/// characters in both texts plus the separator. The sum has to fit the
/// result's type.
pub fn calculate_prompt_size(prompt_template: &str, diff: &str) -> (size: usize)
    requires
        prompt_size(prompt_template@, diff@) <= usize::MAX,
    ensures
        size == prompt_size(prompt_template@, diff@),
        size >= prompt_template@.len() + SEPARATOR_SIZE + diff@.len(),
{
    proof {
        lemma_size_counts_bytes(prompt_template@, diff@);
    }
    prompt_template.as_bytes().len() + SEPARATOR_SIZE + diff.as_bytes().len()
}

/// The ceiling is inclusive: a prompt of exactly `max_size` bytes is
/// accepted, one of a single byte more is not.
pub proof fn lemma_limit_is_inclusive(template: Seq<char>, diff: Seq<char>, max_size: nat)
    ensures
        prompt_size(template, diff) == max_size ==> within_limit(template, diff, max_size),
        prompt_size(template, diff) == max_size + 1 ==> !within_limit(template, diff, max_size),
{
}

/// Sizes are counted in bytes, not in characters: the size is never below
/// the number of characters plus the separator, and where a text takes more
/// bytes than it has characters, the size exceeds that number.
pub proof fn lemma_size_counts_bytes(template: Seq<char>, diff: Seq<char>)
    ensures
        prompt_size(template, diff) >= template.len() + SEPARATOR_SIZE + diff.len(),
        prompt_size(template, diff) > template.len() + diff.len(),
        byte_length(template) != template.len() || byte_length(diff) != diff.len()
            ==> prompt_size(template, diff) > template.len() + SEPARATOR_SIZE + diff.len(),
{
    lemma_byte_length_bounds(template);
    lemma_byte_length_bounds(diff);
}

/// Acceptance is monotone in the ceiling, and no ceiling below the
/// separator's size accepts anything.
pub proof fn lemma_limit_is_monotone(
    template: Seq<char>,
    diff: Seq<char>,
    max_size: nat,
    larger: nat,
)
    requires
        max_size <= larger,
    ensures
        within_limit(template, diff, max_size) ==> within_limit(template, diff, larger),
        max_size < SEPARATOR_SIZE ==> !within_limit(template, diff, max_size),
{
}

} // verus!
