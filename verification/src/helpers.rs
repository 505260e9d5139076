//! Small helpers of the surrounding services: the playground message types,
//! frame formatting, and the schema-name casing used when the message
//! vocabulary is spelled out.

use vstd::prelude::*;
use vstd::string::StrSliceExecFns;
use vstd::string::StringExecFns;

verus! {

/// The two flavours of traffic a playground server tells apart.
#[derive(Debug, Clone, Copy)]
pub enum MessageKind {
    Incoming,
    Errored,
}

impl Default for MessageKind {
    /// Traffic counts as incoming unless said otherwise.
    fn default() -> (r: MessageKind)
        ensures
            r is Incoming,
    {
        MessageKind::Incoming
    }
}

/// A message arrived without the frame that carries its content.
#[derive(Debug, Clone, Copy)]
pub struct NoRequiredDataError;

/// The opaque text payload the playground services broadcast.
#[derive(Debug, Clone)]
pub struct RequestData {
    pub content: String,
}

/// The text that a byte frame carries, replacing invalid encoding if any.
pub uninterp spec fn utf8_text_of(bytes: Seq<u8>) -> Seq<char>;

/// Relies on `String::from_utf8_lossy`: the text depends on the bytes alone.
#[verifier::external_body]
fn bytes_to_text(bytes: &[u8]) -> (text: String)
    ensures
        text@ == utf8_text_of(bytes@),
{
    String::from_utf8_lossy(bytes).into_owned()
}

/// The displayable content of a multi-frame message: the last frame carries
/// the content; a message without frames has none to show.
pub fn format_zmq_message(message_frames: Vec<Vec<u8>>) -> (r: Result<String, NoRequiredDataError>)
    ensures
        r is Ok <==> message_frames@.len() > 0,
        r is Ok ==> r->Ok_0@ == utf8_text_of(message_frames@.last()@),
{
    let mut frames = message_frames;
    match frames.pop() {
        Some(content_frame) => Ok(bytes_to_text(content_frame.as_slice())),
        None => Err(NoRequiredDataError),
    }
}

/// The first character of a character's uppercase mapping.
pub uninterp spec fn uppercase_first_char(c: char) -> char;

/// Relies on `char::to_uppercase`: the uppercase mapping depends on the
/// character alone and is never empty; its first character is kept, as a
/// one-character string.
#[verifier::external_body]
fn char_to_uppercase(c: char) -> (upper: String)
    ensures
        upper@ == seq![uppercase_first_char(c)],
{
    let mut upper = String::new();
    upper.push(c.to_uppercase().next().unwrap());
    upper
}

/// The string with its first character uppercased — how a schema file name
/// becomes a type name.
pub fn uppercase_first(string: String) -> (r: String)
    requires
        string@.len() > 0,
    ensures
        r@ == seq![uppercase_first_char(string@[0])] + string@.skip(1),
{
    let first = string.as_str().get_char(0);
    let mut result = char_to_uppercase(first);
    let len = string.as_str().unicode_len();
    let rest = string.as_str().substring_char(1, len);
    result.append(rest);
    proof {
        assert(result@ =~= seq![uppercase_first_char(string@[0])] + string@.skip(1));
    }
    result
}

} // verus!
