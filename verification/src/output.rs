//! The generated message as a JSON document for other programs to read.

use vstd::prelude::*;
use vstd::string::*;

verus! {

/// `serde_json::Error`, the error type of the JSON encoder. Values of it are
/// carried through unopened.
#[verifier::external_type_specification]
#[verifier::external_body]
pub struct ExJsonError(serde_json::Error);

/// The generated commit message, as it is handed out in JSON.
#[derive(Debug)]
pub struct CommitMessage {
    /// The message text.
    pub message: String,
}

impl View for CommitMessage {
    type V = Seq<char>;

    open spec fn view(&self) -> Seq<char> {
        self.message@
    }
}

/// The encoder turned the message down.
#[derive(Debug)]
pub struct EncodeError {
    /// What the encoder said.
    pub detail: String,
}

/// What the encoder makes of `text`: its JSON string literal, which is the
/// text between double quotes with the characters escaped that JSON does not
/// take as they are, or `None` where the encoder turns the text down.
pub uninterp spec fn json_string(text: Seq<char>) -> Option<Seq<char>>;

/// The document that holds `quoted_message`, a JSON string literal, as its
/// only field: `{"message":` and the literal, closed by `}`, with no
/// whitespace in between.
pub open spec fn message_document(quoted_message: Seq<char>) -> Seq<char> {
    "{\"message\":"@ + quoted_message + "}"@
}

/// Puts a JSON string literal into the document's only field.
pub fn frame_message(quoted_message: &str) -> (document: String)
    ensures
        document@ == message_document(quoted_message@),
{
    let mut document = String::from_str("{\"message\":");
    document.append(quoted_message);
    document.append("}");
    document
}

/// Encodes `text` as a JSON string literal with `serde_json::to_string`.
///
/// The contract names the outcome `json_string` of the text: the same text
/// always gives the same literal, or always fails. It claims nothing else of
/// the literal, and does not claim that the call succeeds.
#[verifier::external_body]
fn quote(text: &str) -> (result: Result<String, serde_json::Error>)
    ensures
        match result {
            Ok(quoted) => json_string(text@) == Some(quoted@),
            Err(_) => json_string(text@) is None,
        },
{
    serde_json::to_string(text)
}

/// Renders a `serde_json::Error` as text through its `Display`
/// implementation. Nothing is claimed of the text.
#[verifier::external_body]
fn describe(error: &serde_json::Error) -> (detail: String) {
    error.to_string()
}

impl CommitMessage {
    /// Renders the message as a JSON document with the single field
    /// `message`.
    ///
    /// The document frames the literal that the encoder gives for the message
    /// text; the call fails exactly where the encoder does.
    pub fn to_json(&self) -> (result: Result<String, EncodeError>)
        ensures
            match result {
                Ok(document) => json_string(self@) matches Some(quoted) && document@
                    == message_document(quoted),
                Err(_) => json_string(self@) is None,
            },
    {
        match quote(self.message.as_str()) {
            Ok(quoted) => Ok(frame_message(quoted.as_str())),
            Err(error) => Err(EncodeError { detail: describe(&error) }),
        }
    }
}

} // verus!
