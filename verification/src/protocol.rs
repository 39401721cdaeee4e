//! The message codec: a chat message, its legacy and structured wire forms.

use crate::error::ChatError;
use crate::json::{
    is_single_line, json_string_members, lemma_quoted_prefix_free, lemma_quoted_single_line, quote,
    quoted, read_string_members,
};
use crate::text::{
    find_first, first_index_of, is_blank, lemma_first_index_of, lemma_first_index_of_is,
    lemma_trim_blank, text_of, to_chars, trim, trim_bounds, trimmed, white_space,
};
use vstd::prelude::*;

verus! {

/// One chat message: who says it, and what.
#[derive(Debug, PartialEq, Eq)]
pub struct ChatMessage {
    pub sender: String,
    pub content: String,
}

/// A chat message as two texts.
pub struct MessageText {
    pub sender: Seq<char>,
    pub content: Seq<char>,
}

impl View for ChatMessage {
    type V = MessageText;

    open spec fn view(&self) -> MessageText {
        MessageText { sender: self.sender@, content: self.content@ }
    }
}

impl Clone for ChatMessage {
    fn clone(&self) -> (copy: Self)
        ensures
            copy@ == self@,
    {
        ChatMessage { sender: self.sender.clone(), content: self.content.clone() }
    }
}

/// The separator of the legacy form.
pub open spec fn separator() -> char {
    ':'
}

/// Name of the member that holds the sender in the structured form.
pub open spec fn sender_key() -> Seq<char> {
    "sender"@
}

/// Name of the member that holds the content in the structured form.
pub open spec fn content_key() -> Seq<char> {
    "content"@
}

/// The legacy form `sender:content`: the text is split at its first colon and
/// both parts are trimmed. A text without a colon is no message.
pub open spec fn legacy(raw: Seq<char>) -> Option<MessageText> {
    match first_index_of(raw, separator()) {
        Some(i) => Some(
            MessageText { sender: trim(raw.take(i)), content: trim(raw.skip(i + 1)) },
        ),
        None => None,
    }
}

/// What a payload decodes to, given the two string members that the JSON reader
/// found in it, if it found both: the structured form goes first, the legacy
/// form is the fallback, and a payload of whitespace alone is never a message.
pub open spec fn decode(raw: Seq<char>, members: Option<(Seq<char>, Seq<char>)>) -> Result<
    MessageText,
    ChatError,
> {
    if trim(raw).len() == 0 {
        Err(ChatError::MalformedMessage)
    } else {
        match members {
            Some(pair) => Ok(MessageText { sender: pair.0, content: pair.1 }),
            None => match legacy(raw) {
                Some(m) => Ok(m),
                None => Err(ChatError::MalformedMessage),
            },
        }
    }
}

/// What a payload decodes to: `decode`, on what the JSON reader finds in the
/// trimmed payload.
pub open spec fn parsed(raw: Seq<char>) -> Result<MessageText, ChatError> {
    decode(raw, json_string_members(trim(raw), sender_key(), content_key()))
}

/// The structured wire form of a message: a JSON object with the members
/// `sender` and `content`, in this order and without spaces.
pub open spec fn wire_text(m: MessageText) -> Seq<char> {
    "{\"sender\":"@ + quoted(m.sender) + ",\"content\":"@ + quoted(m.content) + "}"@
}

/// A message as one frame: its wire form and the line feed that ends it.
pub open spec fn wire_line(m: MessageText) -> Seq<char> {
    wire_text(m) + "\n"@
}

/// The members the JSON reader finds in a payload, as the decoder takes them.
pub open spec fn members_view(members: Option<(String, String)>) -> Option<(Seq<char>, Seq<char>)> {
    match members {
        Some(pair) => Some((pair.0@, pair.1@)),
        None => None,
    }
}

impl ChatMessage {
    fn legacy_of(chars: &Vec<char>) -> (r: Result<ChatMessage, ChatError>)
        ensures
            match r {
                Ok(m) => legacy(chars@) == Some(m@),
                Err(e) => e == ChatError::MalformedMessage && legacy(chars@) is None,
            },
    {
        match find_first(chars, ':') {
            Some(i) => {
                let (a, b) = trim_bounds(chars, 0, i);
                let (c, d) = trim_bounds(chars, i + 1, chars.len());
                assert(chars@.subrange(0, i as int) == chars@.take(i as int));
                assert(chars@.subrange(i + 1, chars@.len() as int) == chars@.skip(i + 1));
                let sender = text_of(chars, a, b);
                let content = text_of(chars, c, d);
                Ok(ChatMessage { sender, content })
            },
            None => Err(ChatError::MalformedMessage),
        }
    }

    /// Reads the legacy form `sender:content`, and no other: `Ok` exactly of
    /// the texts that hold a colon.
    pub fn from_legacy(raw: &str) -> (r: Result<ChatMessage, ChatError>)
        ensures
            match r {
                Ok(m) => legacy(raw@) == Some(m@),
                Err(e) => e == ChatError::MalformedMessage && legacy(raw@) is None,
            },
    {
        let chars = to_chars(raw);
        ChatMessage::legacy_of(&chars)
    }

    /// Decodes a payload for which the JSON reader has already been asked.
    pub fn decode_with(raw: &str, members: Option<(String, String)>) -> (r: Result<
        ChatMessage,
        ChatError,
    >)
        ensures
            match r {
                Ok(m) => decode(raw@, members_view(members)) == Ok::<MessageText, ChatError>(m@),
                Err(e) => decode(raw@, members_view(members)) == Err::<MessageText, ChatError>(e),
            },
    {
        let chars = to_chars(raw);
        let (lo, hi) = trim_bounds(&chars, 0, chars.len());
        assert(chars@.subrange(0, chars@.len() as int) == chars@);
        if lo == hi {
            return Err(ChatError::MalformedMessage);
        }
        match members {
            Some(pair) => Ok(ChatMessage { sender: pair.0, content: pair.1 }),
            None => ChatMessage::legacy_of(&chars),
        }
    }

    /// Decodes a payload: the structured form if the payload, trimmed, is a
    /// JSON object with string members `sender` and `content`, the legacy form
    /// `sender:content` otherwise.
    pub fn from_raw(raw: &str) -> (r: Result<ChatMessage, ChatError>)
        ensures
            match r {
                Ok(m) => parsed(raw@) == Ok::<MessageText, ChatError>(m@),
                Err(e) => parsed(raw@) == Err::<MessageText, ChatError>(e),
            },
    {
        let text = trimmed(raw);
        if text.as_str().is_empty() {
            return Err(ChatError::MalformedMessage);
        }
        let members = read_string_members(text.as_str(), "sender", "content");
        ChatMessage::decode_with(raw, members)
    }

    /// The structured wire form of the message.
    pub fn to_json(&self) -> (r: Result<String, ChatError>)
        ensures
            r is Ok,
            r->Ok_0@ == wire_text(self@),
    {
        let sender = match quote(self.sender.as_str()) {
            Ok(text) => text,
            Err(_) => { return Err(ChatError::Encoding); },
        };
        let content = match quote(self.content.as_str()) {
            Ok(text) => text,
            Err(_) => { return Err(ChatError::Encoding); },
        };
        let mut out = String::from_str("{\"sender\":");
        out.append(sender.as_str());
        out.append(",\"content\":");
        out.append(content.as_str());
        out.append("}");
        Ok(out)
    }

    /// The message as one frame for a connection: the wire form, then a line
    /// feed.
    pub fn to_line(&self) -> (r: Result<String, ChatError>)
        ensures
            r is Ok,
            r->Ok_0@ == wire_line(self@),
    {
        let mut line = self.to_json()?;
        line.append("\n");
        Ok(line)
    }
}

/// Whatever the sender and the content hold, the wire form of a message is one
/// line: the line feed that ends a frame never occurs inside it.
pub proof fn lemma_wire_text_single_line(m: MessageText)
    ensures
        is_single_line(wire_text(m)),
        !wire_text(m).contains('\n'),
{
    reveal_strlit("{\"sender\":");
    reveal_strlit(",\"content\":");
    reveal_strlit("}");
    lemma_quoted_single_line(m.sender);
    lemma_quoted_single_line(m.content);
}

/// The wire form says which message it stands for: two messages with the same
/// wire form are the same message.
pub proof fn lemma_wire_text_injective(a: MessageText, b: MessageText)
    requires
        wire_text(a) == wire_text(b),
    ensures
        a == b,
{
    let open = "{\"sender\":"@;
    let middle = ",\"content\":"@;
    let close = "}"@;
    let tail_a = middle + quoted(a.content) + close;
    let tail_b = middle + quoted(b.content) + close;
    assert(wire_text(a).skip(open.len() as int) == quoted(a.sender) + tail_a);
    assert(wire_text(b).skip(open.len() as int) == quoted(b.sender) + tail_b);
    lemma_quoted_prefix_free(a.sender, b.sender, tail_a, tail_b);
    assert(tail_a.skip(middle.len() as int) == quoted(a.content) + close);
    assert(tail_b.skip(middle.len() as int) == quoted(b.content) + close);
    lemma_quoted_prefix_free(a.content, b.content, close, close);
}

/// A frame holds its line feed at the end and nowhere before: a reader that
/// cuts at the first line feed gets the wire form whole.
pub proof fn lemma_wire_line_ends_at_line_feed(m: MessageText)
    ensures
        first_index_of(wire_line(m), '\n') == Some(wire_text(m).len() as int),
        wire_line(m).take(wire_text(m).len() as int) == wire_text(m),
{
    reveal_strlit("\n");
    lemma_wire_text_single_line(m);
    lemma_first_index_of_is(wire_line(m), '\n', wire_text(m).len() as int);
}

/// The wire form has nothing to trim: it begins with `{` and ends with `}`.
pub proof fn lemma_wire_text_is_trimmed(m: MessageText)
    ensures
        trim(wire_text(m)) == wire_text(m),
        wire_text(m).len() > 0,
{
    reveal_strlit("{\"sender\":");
    reveal_strlit(",\"content\":");
    reveal_strlit("}");
    let w = wire_text(m);
    assert(w.first() == '{');
    assert(w.last() == '}');
}

/// Decoding the wire form of a message gives the message back, given that the
/// JSON reader finds in it the two members that were written there.
pub proof fn lemma_wire_text_decodes_back(m: MessageText)
    ensures
        decode(wire_text(m), Some((m.sender, m.content))) == Ok::<MessageText, ChatError>(m),
{
    lemma_wire_text_is_trimmed(m);
}

/// A payload of whitespace alone is never a message, whatever the JSON reader
/// makes of it, and has no legacy reading either.
pub proof fn lemma_blank_is_rejected(raw: Seq<char>, members: Option<(Seq<char>, Seq<char>)>)
    requires
        is_blank(raw),
    ensures
        decode(raw, members) == Err::<MessageText, ChatError>(ChatError::MalformedMessage),
        legacy(raw) is None,
{
    lemma_trim_blank(raw);
    lemma_first_index_of(raw, separator());
}

/// The two forms agree: a legacy payload `sender:content`, with a sender that
/// holds no colon, and a structured payload whose members are the trimmed
/// sender and the trimmed content decode to the same message.
pub proof fn lemma_forms_agree(sender: Seq<char>, content: Seq<char>, structured: Seq<char>)
    requires
        !sender.contains(separator()),
        !is_blank(structured),
    ensures
        decode(sender + seq![separator()] + content, None) == decode(
            structured,
            Some((trim(sender), trim(content))),
        ),
        decode(sender + seq![separator()] + content, None) == Ok::<MessageText, ChatError>(
            MessageText { sender: trim(sender), content: trim(content) },
        ),
{
    let raw = sender + seq![separator()] + content;
    lemma_trim_blank(structured);
    lemma_trim_blank(raw);
    assert(!white_space(raw[sender.len() as int]));
    assert forall|j: int| 0 <= j < sender.len() implies raw[j] != separator() by {
        assert(raw[j] == sender[j]);
        assert(sender.contains(sender[j]));
    }
    lemma_first_index_of_is(raw, separator(), sender.len() as int);
    assert(raw.take(sender.len() as int) == sender);
    assert(raw.skip(sender.len() as int + 1) == content);
}

} // verus!
