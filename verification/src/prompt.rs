//! Composition of the prompt from template and diff.

use vstd::prelude::*;
use vstd::string::*;
use crate::encoding::{byte_length, lemma_byte_length_concat};
use crate::validation::{prompt_size, validate_size, within_limit, SizeExceeded, SEPARATOR_SIZE};

verus! {

/// Default ceiling on the combined prompt size, in bytes.
pub const DEFAULT_MAX_PROMPT_SIZE: usize = 1_000_000;

/// What stands between template and diff: two line feeds.
pub open spec fn separator() -> Seq<char> {
    seq!['\n', '\n']
}

/// The prompt for `template` and `diff`: the template, the separator, the
/// diff, each exactly as given.
pub open spec fn composed(template: Seq<char>, diff: Seq<char>) -> Seq<char> {
    template + separator() + diff
}

/// Joins template and diff around the separator.
///
/// Nothing is checked, trimmed or normalised here: the size is the caller's
/// concern, see [`build_prompt`], and the texts are taken over as they are.
pub fn compose(prompt_template: &str, diff: &str) -> (prompt: String)
    ensures
        prompt@ == composed(prompt_template@, diff@),
{
    let mut prompt = String::from_str(prompt_template);
    prompt.append("\n\n");
    prompt.append(diff);
    proof {
        reveal_strlit("\n\n");
    }
    prompt
}

/// Builds the prompt for `prompt_template` and `diff`, provided that it takes
/// no more than `max_size` bytes.
///
/// The size is checked first; an oversized prompt is never allocated. What
/// is handed out is the composed prompt, and it takes at most `max_size`
/// bytes.
pub fn build_prompt(diff: &str, prompt_template: &str, max_size: usize) -> (result: Result<
    String,
    SizeExceeded,
>)
    ensures
        result is Ok <==> within_limit(prompt_template@, diff@, max_size as nat),
        result matches Ok(prompt) ==> prompt@ == composed(prompt_template@, diff@) && byte_length(
            prompt@,
        ) <= max_size,
        result matches Err(e) ==> e.total == prompt_size(prompt_template@, diff@) && e.max_size
            == max_size,
{
    match validate_size(prompt_template, diff, max_size) {
        Ok(()) => {
            proof {
                lemma_composed_size(prompt_template@, diff@);
            }
            Ok(compose(prompt_template, diff))
        },
        Err(e) => Err(e),
    }
}

/// The separator takes [`SEPARATOR_SIZE`] bytes.
pub proof fn lemma_separator_size()
    ensures
        byte_length(separator()) == SEPARATOR_SIZE,
{
    reveal_with_fuel(vstd::utf8::encode_utf8, 3);
    assert(separator().drop_first() =~= seq!['\n']);
    assert(seq!['\n'].drop_first() =~= Seq::<char>::empty());
}

/// The size that is validated is the size of what is built: the composed
/// prompt takes exactly `prompt_size` bytes.
pub proof fn lemma_composed_size(template: Seq<char>, diff: Seq<char>)
    ensures
        byte_length(composed(template, diff)) == prompt_size(template, diff),
{
    lemma_separator_size();
    lemma_byte_length_concat(template, separator());
    lemma_byte_length_concat(template + separator(), diff);
}

/// The composed prompt begins with the template, continues with the
/// separator and ends with the diff; with both empty it is the separator
/// alone.
pub proof fn lemma_composed_parts(template: Seq<char>, diff: Seq<char>)
    ensures
        composed(template, diff).len() == template.len() + separator().len() + diff.len(),
        composed(template, diff).take(template.len() as int) == template,
        composed(template, diff).skip(template.len() as int).take(separator().len() as int)
            == separator(),
        composed(template, diff).skip((template.len() + separator().len()) as int) == diff,
        composed(Seq::empty(), Seq::empty()) == separator(),
{
    assert(composed(template, diff).take(template.len() as int) =~= template);
    assert(composed(template, diff).skip((template.len() + separator().len()) as int) =~= diff);
}

} // verus!
