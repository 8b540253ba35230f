//! Messages and the content blocks they are made of, with their JSON wire
//! forms.

pub use crate::completion::{CompletionRequest, CompletionResponse, StopReason, Usage};
pub use crate::proxy::{ProxyRequest, ProxyResponse};

use crate::errors::GenAiError;
use crate::errors::GenAiErrorView;
use crate::json::array_value;
use crate::json::bool_value;
use crate::json::map_fields;
use crate::json::no_fields;
use crate::json::object_value;
use crate::json::string_value;
use crate::json::value_json;
use crate::json::values_json;
use crate::json::JsonView;
use crate::text::same_text;
use crate::wire::as_fields;
use crate::wire::cloned_values;
use crate::wire::collect;
use crate::wire::expected;
use crate::wire::expected_fault;
use crate::wire::fault;
use crate::wire::fields_of;
use crate::wire::items_at;
use crate::wire::lemma_collect_all;
use crate::wire::lemma_collect_first_error;
use crate::wire::opt_flag_at;
use crate::wire::outcome;
use crate::wire::read_items;
use crate::wire::read_opt_flag;
use crate::wire::read_text;
use crate::wire::required;
use crate::wire::text_at;
use crate::wire::value_at;
use crate::wire::Decoded;
use serde_json::Value;
use vstd::prelude::*;

verus! {

/// Role of the message sender.
#[derive(Debug, Clone, Copy, PartialEq, Eq)]
pub enum Role {
    User,
    Assistant,
    System,
}

impl View for Role {
    type V = Role;

    open spec fn view(&self) -> Role {
        *self
    }
}

/// The tokens of the roles are pairwise different texts.
pub proof fn lemma_role_tokens_differ()
    ensures
        "user"@ != "assistant"@,
        "user"@ != "system"@,
        "assistant"@ != "system"@,
{
    reveal_strlit("user");
    reveal_strlit("assistant");
    reveal_strlit("system");
    assert("user"@.len() == 4);
    assert("assistant"@.len() == 9);
    assert("system"@.len() == 6);
}

impl Role {
    /// The lowercase token that stands for the role on the wire.
    pub open spec fn token(self) -> Seq<char> {
        match self {
            Role::User => "user"@,
            Role::Assistant => "assistant"@,
            Role::System => "system"@,
        }
    }

    /// The role that a token stands for; no other text stands for one.
    pub open spec fn named(token: Seq<char>) -> Option<Role> {
        if token == "user"@ {
            Some(Role::User)
        } else if token == "assistant"@ {
            Some(Role::Assistant)
        } else if token == "system"@ {
            Some(Role::System)
        } else {
            None
        }
    }

    /// The wire form: the token as a JSON string.
    pub open spec fn encoded(self) -> JsonView {
        JsonView::Str(self.token())
    }

    /// The role that a wire form stands for.
    pub open spec fn decoded(j: JsonView) -> Decoded<Role> {
        match j {
            JsonView::Str(s) => match Self::named(s) {
                Some(role) => Ok(role),
                None => Err("unknown role"@),
            },
            _ => Err(expected("role"@, "a string"@)),
        }
    }

    /// A role's token stands for that role, and a text stands for a role
    /// only where it is that role's token.
    pub proof fn lemma_token_names(self, token: Seq<char>)
        ensures
            Self::named(self.token()) == Some(self),
            Self::named(token) == Some(self) ==> token == self.token(),
    {
        lemma_role_tokens_differ();
    }

    /// Decoding the wire form of a role gives the role back.
    pub proof fn lemma_round_trip(self)
        ensures
            Self::decoded(self.encoded()) == Ok::<Role, Seq<char>>(self),
    {
        lemma_role_tokens_differ();
    }

    /// A string decodes only to the role whose token it is; a string that
    /// is no role's token is an error.
    pub proof fn lemma_token_decides(token: Seq<char>)
        ensures
            Self::decoded(JsonView::Str(token)) matches Ok(role) ==> role.token() == token,
            Self::named(token) is None ==> Self::decoded(JsonView::Str(token)) == Err::<
                Role,
                Seq<char>,
            >("unknown role"@),
    {
    }

    /// The token of the role.
    pub fn as_str(&self) -> (r: &'static str)
        ensures
            r@ == self.token(),
    {
        match self {
            Role::User => "user",
            Role::Assistant => "assistant",
            Role::System => "system",
        }
    }

    /// The role of a token. A text that is no role's token gives
    /// `InvalidResponse`.
    pub fn from_token(token: &str) -> (r: Result<Role, GenAiError>)
        ensures
            match Self::named(token@) {
                Some(role) => r == Ok::<Role, GenAiError>(role),
                None => r matches Err(e) && e@ == GenAiErrorView::InvalidResponse("Invalid role"@),
            },
    {
        if same_text(token, "user") {
            Ok(Role::User)
        } else if same_text(token, "assistant") {
            Ok(Role::Assistant)
        } else if same_text(token, "system") {
            Ok(Role::System)
        } else {
            Err(GenAiError::InvalidResponse("Invalid role".to_owned()))
        }
    }

    /// Encodes the role as a JSON value.
    pub fn encode(&self) -> (r: Value)
        ensures
            value_json(r) == self.encoded(),
    {
        string_value(self.as_str().to_owned())
    }

    /// Decodes a JSON value. A value that is no string, or a string that is
    /// no role's token, gives `JsonError`.
    pub fn decode(v: &Value) -> (r: Result<Role, GenAiError>)
        ensures
            outcome(r, Self::decoded(value_json(*v))),
    {
        match v.as_str() {
            Some(s) => {
                if same_text(s, "user") {
                    Ok(Role::User)
                } else if same_text(s, "assistant") {
                    Ok(Role::Assistant)
                } else if same_text(s, "system") {
                    Ok(Role::System)
                } else {
                    Err(fault("unknown role".to_owned()))
                }
            },
            None => Err(expected_fault("role", "a string")),
        }
    }
}

/// One block of content in a message. The `input` of a tool use and the
/// items of a tool result are JSON values whose shape the tools define; they
/// are kept as they are.
#[derive(Debug, Clone, PartialEq, Eq)]
pub enum MessageContent {
    Text { text: String },
    ToolUse { id: String, name: String, input: Value },
    ToolResult { tool_use_id: String, content: Vec<Value>, is_error: Option<bool> },
}

/// A `MessageContent` with its texts as character sequences and its JSON
/// values by their contents.
pub enum MessageContentView {
    Text { text: Seq<char> },
    ToolUse { id: Seq<char>, name: Seq<char>, input: JsonView },
    ToolResult { tool_use_id: Seq<char>, content: Seq<JsonView>, is_error: Option<bool> },
}

impl View for MessageContent {
    type V = MessageContentView;

    open spec fn view(&self) -> MessageContentView {
        match *self {
            MessageContent::Text { text } => MessageContentView::Text { text: text@ },
            MessageContent::ToolUse { id, name, input } => MessageContentView::ToolUse {
                id: id@,
                name: name@,
                input: value_json(input),
            },
            MessageContent::ToolResult {
                tool_use_id,
                content,
                is_error,
            } => MessageContentView::ToolResult {
                tool_use_id: tool_use_id@,
                content: values_json(content@),
                is_error,
            },
        }
    }
}

/// The tags of the content blocks, and the keys of each block, are pairwise
/// different texts.
pub proof fn lemma_content_texts_differ()
    ensures
        "text"@ != "tool_use"@,
        "text"@ != "tool_result"@,
        "tool_use"@ != "tool_result"@,
        "type"@ != "text"@,
        "type"@ != "id"@,
        "type"@ != "name"@,
        "type"@ != "input"@,
        "type"@ != "tool_use_id"@,
        "type"@ != "content"@,
        "type"@ != "is_error"@,
        "id"@ != "name"@,
        "id"@ != "input"@,
        "name"@ != "input"@,
        "tool_use_id"@ != "content"@,
        "tool_use_id"@ != "is_error"@,
        "content"@ != "is_error"@,
{
    reveal_strlit("text");
    reveal_strlit("tool_use");
    reveal_strlit("tool_result");
    reveal_strlit("type");
    reveal_strlit("id");
    reveal_strlit("name");
    reveal_strlit("input");
    reveal_strlit("tool_use_id");
    reveal_strlit("content");
    reveal_strlit("is_error");
    assert("text"@.len() == 4);
    assert("tool_use"@.len() == 8);
    assert("tool_result"@.len() == 11);
    assert("type"@.len() == 4);
    assert("id"@.len() == 2);
    assert("name"@.len() == 4);
    assert("input"@.len() == 5);
    assert("tool_use_id"@.len() == 11);
    assert("content"@.len() == 7);
    assert("is_error"@.len() == 8);
    assert("type"@[1] != "text"@[1]);
    assert("type"@[0] != "name"@[0]);
}

impl MessageContentView {
    /// The value of the `type` field that marks the variant.
    pub open spec fn tag(self) -> Seq<char> {
        match self {
            MessageContentView::Text { .. } => "text"@,
            MessageContentView::ToolUse { .. } => "tool_use"@,
            MessageContentView::ToolResult { .. } => "tool_result"@,
        }
    }

    /// Whether a text is the tag of a variant.
    pub open spec fn known_tag(tag: Seq<char>) -> bool {
        tag == "text"@ || tag == "tool_use"@ || tag == "tool_result"@
    }

    /// The wire form: an object whose `type` field holds the tag, with the
    /// fields of the variant beside it. `is_error` is there only where the
    /// block has one.
    pub open spec fn encoded(self) -> JsonView {
        let tagged = no_fields().insert("type"@, JsonView::Str(self.tag()));
        match self {
            MessageContentView::Text { text } => JsonView::Object(
                tagged.insert("text"@, JsonView::Str(text)),
            ),
            MessageContentView::ToolUse { id, name, input } => JsonView::Object(
                tagged.insert("id"@, JsonView::Str(id)).insert("name"@, JsonView::Str(name)).insert(
                    "input"@,
                    input,
                ),
            ),
            MessageContentView::ToolResult { tool_use_id, content, is_error } => {
                let fields = tagged.insert("tool_use_id"@, JsonView::Str(tool_use_id)).insert(
                    "content"@,
                    JsonView::Array(content),
                );
                match is_error {
                    Some(b) => JsonView::Object(fields.insert("is_error"@, JsonView::Bool(b))),
                    None => JsonView::Object(fields),
                }
            },
        }
    }

    /// The text block that the fields of a wire form stand for.
    pub open spec fn decoded_text(m: Map<Seq<char>, JsonView>) -> Decoded<MessageContentView> {
        match text_at(m, "text"@) {
            Err(e) => Err(e),
            Ok(text) => Ok(MessageContentView::Text { text }),
        }
    }

    /// The tool use that the fields of a wire form stand for. `input` must
    /// be there and may be any value, `null` too.
    pub open spec fn decoded_tool_use(m: Map<Seq<char>, JsonView>) -> Decoded<MessageContentView> {
        match text_at(m, "id"@) {
            Err(e) => Err(e),
            Ok(id) => match text_at(m, "name"@) {
                Err(e) => Err(e),
                Ok(name) => match value_at(m, "input"@) {
                    Err(e) => Err(e),
                    Ok(input) => Ok(MessageContentView::ToolUse { id, name, input }),
                },
            },
        }
    }

    /// The tool result that the fields of a wire form stand for. An
    /// `is_error` that is missing or `null` is absent.
    pub open spec fn decoded_tool_result(m: Map<Seq<char>, JsonView>) -> Decoded<
        MessageContentView,
    > {
        match text_at(m, "tool_use_id"@) {
            Err(e) => Err(e),
            Ok(tool_use_id) => match items_at(m, "content"@) {
                Err(e) => Err(e),
                Ok(content) => match opt_flag_at(m, "is_error"@) {
                    Err(e) => Err(e),
                    Ok(is_error) => Ok(
                        MessageContentView::ToolResult { tool_use_id, content, is_error },
                    ),
                },
            },
        }
    }

    /// The block that a wire form stands for. The `type` field alone picks
    /// the variant; fields that the variant does not have are ignored.
    pub open spec fn decoded(j: JsonView) -> Decoded<MessageContentView> {
        match as_fields(j) {
            Err(e) => Err(e),
            Ok(m) => match text_at(m, "type"@) {
                Err(e) => Err(e),
                Ok(tag) => if tag == "text"@ {
                    Self::decoded_text(m)
                } else if tag == "tool_use"@ {
                    Self::decoded_tool_use(m)
                } else if tag == "tool_result"@ {
                    Self::decoded_tool_result(m)
                } else {
                    Err("unknown content type"@)
                },
            },
        }
    }

    /// Decoding the wire form of a block gives the block back: the same
    /// variant, the same texts and values, and `is_error` absent, `false` or
    /// `true` as it was.
    pub proof fn lemma_round_trip(self)
        ensures
            Self::decoded(self.encoded()) == Ok::<MessageContentView, Seq<char>>(self),
    {
        lemma_content_texts_differ();
    }

    /// A wire form decodes only to the variant that its `type` field names;
    /// a wire form without a `type`, or with one that names no variant, is
    /// an error.
    pub proof fn lemma_tag_decides(j: JsonView)
        ensures
            Self::decoded(j) matches Ok(c) ==> as_fields(j) matches Ok(m) && text_at(m, "type"@)
                == Ok::<Seq<char>, Seq<char>>(c.tag()),
            as_fields(j) matches Ok(m) && text_at(m, "type"@) is Err ==> Self::decoded(j) is Err,
            as_fields(j) matches Ok(m) && text_at(m, "type"@) matches Ok(tag) && !Self::known_tag(
                tag,
            ) ==> Self::decoded(j) == Err::<MessageContentView, Seq<char>>(
                "unknown content type"@,
            ),
    {
        lemma_content_texts_differ();
    }

    /// The wire form of a tool result has the key `is_error` exactly where
    /// the block has one, and then with its value.
    pub proof fn lemma_is_error_key(self)
        requires
            self is ToolResult,
        ensures
            self.encoded() matches JsonView::Object(m) && match self->is_error {
                Some(b) => m.contains_key("is_error"@) && m["is_error"@] == JsonView::Bool(b),
                None => !m.contains_key("is_error"@),
            },
    {
        lemma_content_texts_differ();
    }
}

impl MessageContent {
    /// Encodes the block as a JSON value.
    pub fn encode(&self) -> (r: Value)
        ensures
            value_json(r) == self@.encoded(),
    {
        let mut m = serde_json::Map::new();
        match self {
            MessageContent::Text { text } => {
                m.insert("type".to_owned(), string_value("text".to_owned()));
                m.insert("text".to_owned(), string_value(text.clone()));
            },
            MessageContent::ToolUse { id, name, input } => {
                m.insert("type".to_owned(), string_value("tool_use".to_owned()));
                m.insert("id".to_owned(), string_value(id.clone()));
                m.insert("name".to_owned(), string_value(name.clone()));
                m.insert("input".to_owned(), input.clone());
            },
            MessageContent::ToolResult { tool_use_id, content, is_error } => {
                m.insert("type".to_owned(), string_value("tool_result".to_owned()));
                m.insert("tool_use_id".to_owned(), string_value(tool_use_id.clone()));
                m.insert("content".to_owned(), array_value(cloned_values(content)));
                match is_error {
                    Some(b) => {
                        m.insert("is_error".to_owned(), bool_value(*b));
                    },
                    None => {},
                }
            },
        }
        object_value(m)
    }

    /// Decodes a JSON value. A value that is no object, has no `type`, names
    /// no variant in it, or lacks a field of the variant or has it of the
    /// wrong kind gives `JsonError`.
    pub fn decode(v: &Value) -> (r: Result<MessageContent, GenAiError>)
        ensures
            outcome(r, MessageContentView::decoded(value_json(*v))),
    {
        let m = fields_of(v)?;
        let tag = read_text(m, "type")?;
        if same_text(tag.as_str(), "text") {
            Self::decode_text(m)
        } else if same_text(tag.as_str(), "tool_use") {
            Self::decode_tool_use(m)
        } else if same_text(tag.as_str(), "tool_result") {
            Self::decode_tool_result(m)
        } else {
            Err(fault("unknown content type".to_owned()))
        }
    }

    fn decode_text(m: &serde_json::Map<String, Value>) -> (r: Result<MessageContent, GenAiError>)
        ensures
            outcome(r, MessageContentView::decoded_text(map_fields(*m))),
    {
        Ok(MessageContent::Text { text: read_text(m, "text")? })
    }

    fn decode_tool_use(m: &serde_json::Map<String, Value>) -> (r: Result<MessageContent, GenAiError>)
        ensures
            outcome(r, MessageContentView::decoded_tool_use(map_fields(*m))),
    {
        let id = read_text(m, "id")?;
        let name = read_text(m, "name")?;
        let input = required(m, "input")?.clone();
        Ok(MessageContent::ToolUse { id, name, input })
    }

    fn decode_tool_result(m: &serde_json::Map<String, Value>) -> (r: Result<MessageContent, GenAiError>)
        ensures
            outcome(r, MessageContentView::decoded_tool_result(map_fields(*m))),
    {
        let tool_use_id = read_text(m, "tool_use_id")?;
        let content = cloned_values(read_items(m, "content")?);
        let is_error = read_opt_flag(m, "is_error")?;
        Ok(MessageContent::ToolResult { tool_use_id, content, is_error })
    }
}

/// The views of a sequence of content blocks.
pub open spec fn contents_view(blocks: Seq<MessageContent>) -> Seq<MessageContentView> {
    blocks.map_values(|c: MessageContent| c@)
}

/// The wire forms of a sequence of content blocks, in order.
pub open spec fn encoded_contents(blocks: Seq<MessageContentView>) -> Seq<JsonView> {
    blocks.map_values(|c: MessageContentView| c.encoded())
}

/// The blocks that a sequence of wire forms stands for, in order, or the
/// message of the first that stands for none.
pub open spec fn decoded_contents(items: Seq<JsonView>) -> Decoded<Seq<MessageContentView>> {
    collect(items.map_values(|j: JsonView| MessageContentView::decoded(j)))
}

/// Decoding the wire forms of a sequence of blocks gives the blocks back,
/// as many and in the same order.
pub proof fn lemma_contents_round_trip(blocks: Seq<MessageContentView>)
    ensures
        decoded_contents(encoded_contents(blocks)) == Ok::<Seq<MessageContentView>, Seq<char>>(
            blocks,
        ),
{
    let rs = encoded_contents(blocks).map_values(|j: JsonView| MessageContentView::decoded(j));
    assert forall|i: int| 0 <= i < rs.len() implies rs[i] == Ok::<MessageContentView, Seq<char>>(
        blocks[i],
    ) by {
        blocks[i].lemma_round_trip();
    }
    lemma_collect_all(rs, blocks);
}

/// Encodes blocks as a JSON array, in order.
pub fn encode_contents(blocks: &Vec<MessageContent>) -> (r: Value)
    ensures
        value_json(r) == JsonView::Array(encoded_contents(contents_view(blocks@))),
{
    let mut out: Vec<Value> = Vec::new();
    let mut i: usize = 0;
    while i < blocks.len()
        invariant
            i <= blocks.len(),
            out.len() == i,
            forall|k: int| 0 <= k < i ==> value_json(out@[k]) == blocks@[k]@.encoded(),
        decreases blocks.len() - i,
    {
        out.push(blocks[i].encode());
        i += 1;
    }
    assert(values_json(out@) =~= encoded_contents(contents_view(blocks@)));
    array_value(out)
}

/// Decodes the elements of a JSON array as blocks, in order. The first
/// element that does not decode gives its `JsonError`.
pub fn decode_contents(items: &Vec<Value>) -> (r: Result<Vec<MessageContent>, GenAiError>)
    ensures
        match decoded_contents(values_json(items@)) {
            Ok(blocks) => r matches Ok(v) && contents_view(v@) == blocks,
            Err(m) => r matches Err(e) && e@ == GenAiErrorView::JsonError(m),
        },
{
    let ghost rs = values_json(items@).map_values(|j: JsonView| MessageContentView::decoded(j));
    let mut out: Vec<MessageContent> = Vec::new();
    let mut i: usize = 0;
    while i < items.len()
        invariant
            i <= items.len(),
            out.len() == i,
            rs == values_json(items@).map_values(|j: JsonView| MessageContentView::decoded(j)),
            forall|k: int| 0 <= k < i ==> rs[k] == Ok::<MessageContentView, Seq<char>>(out@[k]@),
        decreases items.len() - i,
    {
        match MessageContent::decode(&items[i]) {
            Ok(c) => {
                out.push(c);
            },
            Err(e) => {
                proof {
                    lemma_collect_first_error(rs, contents_view(out@), i as int);
                }
                return Err(e);
            },
        }
        i += 1;
    }
    proof {
        lemma_collect_all(rs, contents_view(out@));
    }
    Ok(out)
}

/// A single message in a conversation.
#[derive(Debug, Clone, PartialEq, Eq)]
pub struct Message {
    /// Role of the message sender.
    pub role: Role,
    /// Content of the message, in order.
    pub content: Vec<MessageContent>,
}

/// A `Message` with its blocks by their views.
pub struct MessageView {
    pub role: Role,
    pub content: Seq<MessageContentView>,
}

impl View for Message {
    type V = MessageView;

    open spec fn view(&self) -> MessageView {
        MessageView { role: self.role, content: contents_view(self.content@) }
    }
}

/// The two keys of a message are different texts.
pub proof fn lemma_message_keys_differ()
    ensures
        "role"@ != "content"@,
{
    reveal_strlit("role");
    reveal_strlit("content");
    assert("role"@.len() == 4);
    assert("content"@.len() == 7);
}

impl MessageView {
    /// The wire form: an object with the role's token and the array of the
    /// blocks.
    pub open spec fn encoded(self) -> JsonView {
        JsonView::Object(
            no_fields().insert("role"@, self.role.encoded()).insert(
                "content"@,
                JsonView::Array(encoded_contents(self.content)),
            ),
        )
    }

    /// The message that a wire form stands for.
    pub open spec fn decoded(j: JsonView) -> Decoded<MessageView> {
        match as_fields(j) {
            Err(e) => Err(e),
            Ok(m) => match value_at(m, "role"@) {
                Err(e) => Err(e),
                Ok(token) => match Role::decoded(token) {
                    Err(e) => Err(e),
                    Ok(role) => match items_at(m, "content"@) {
                        Err(e) => Err(e),
                        Ok(items) => match decoded_contents(items) {
                            Err(e) => Err(e),
                            Ok(content) => Ok(MessageView { role, content }),
                        },
                    },
                },
            },
        }
    }

    /// Decoding the wire form of a message gives the message back, its
    /// blocks in the same order.
    pub proof fn lemma_round_trip(self)
        ensures
            Self::decoded(self.encoded()) == Ok::<MessageView, Seq<char>>(self),
    {
        lemma_message_keys_differ();
        self.role.lemma_round_trip();
        lemma_contents_round_trip(self.content);
    }
}

impl Message {
    /// Makes a message from the token of a role and the blocks of its
    /// content. A text that is no role's token gives `InvalidResponse`.
    pub fn new_structured(role: &str, content: Vec<MessageContent>) -> (r: Result<Message, GenAiError>)
        ensures
            match Role::named(role@) {
                Some(x) => r matches Ok(m) && m.role == x && m.role.token() == role@ && m.content
                    == content,
                None => r matches Err(e) && e@ == GenAiErrorView::InvalidResponse("Invalid role"@),
            },
    {
        match Role::from_token(role) {
            Ok(role) => Ok(Message { role, content }),
            Err(e) => Err(e),
        }
    }

    /// Encodes the message as a JSON value.
    pub fn encode(&self) -> (r: Value)
        ensures
            value_json(r) == self@.encoded(),
    {
        let mut m = serde_json::Map::new();
        m.insert("role".to_owned(), self.role.encode());
        m.insert("content".to_owned(), encode_contents(&self.content));
        object_value(m)
    }

    /// Decodes a JSON value. A value that is no object, whose `role` is
    /// missing or no role's token, or whose `content` is missing, no array
    /// or holds an element that is no block gives `JsonError`.
    pub fn decode(v: &Value) -> (r: Result<Message, GenAiError>)
        ensures
            outcome(r, MessageView::decoded(value_json(*v))),
    {
        let m = fields_of(v)?;
        let role = Role::decode(required(m, "role")?)?;
        let content = decode_contents(read_items(m, "content")?)?;
        Ok(Message { role, content })
    }
}

/// The views of a sequence of messages.
pub open spec fn messages_view(messages: Seq<Message>) -> Seq<MessageView> {
    messages.map_values(|m: Message| m@)
}

/// The wire forms of a sequence of messages, in order.
pub open spec fn encoded_messages(messages: Seq<MessageView>) -> Seq<JsonView> {
    messages.map_values(|m: MessageView| m.encoded())
}

/// The messages that a sequence of wire forms stands for, in order, or the
/// message of the first that stands for none.
pub open spec fn decoded_messages(items: Seq<JsonView>) -> Decoded<Seq<MessageView>> {
    collect(items.map_values(|j: JsonView| MessageView::decoded(j)))
}

/// Decoding the wire forms of a sequence of messages gives the messages
/// back, as many and in the same order.
pub proof fn lemma_messages_round_trip(messages: Seq<MessageView>)
    ensures
        decoded_messages(encoded_messages(messages)) == Ok::<Seq<MessageView>, Seq<char>>(
            messages,
        ),
{
    let rs = encoded_messages(messages).map_values(|j: JsonView| MessageView::decoded(j));
    assert forall|i: int| 0 <= i < rs.len() implies rs[i] == Ok::<MessageView, Seq<char>>(
        messages[i],
    ) by {
        messages[i].lemma_round_trip();
    }
    lemma_collect_all(rs, messages);
}

/// Encodes messages as a JSON array, in order.
pub fn encode_messages(messages: &Vec<Message>) -> (r: Value)
    ensures
        value_json(r) == JsonView::Array(encoded_messages(messages_view(messages@))),
{
    let mut out: Vec<Value> = Vec::new();
    let mut i: usize = 0;
    while i < messages.len()
        invariant
            i <= messages.len(),
            out.len() == i,
            forall|k: int| 0 <= k < i ==> value_json(out@[k]) == messages@[k]@.encoded(),
        decreases messages.len() - i,
    {
        out.push(messages[i].encode());
        i += 1;
    }
    assert(values_json(out@) =~= encoded_messages(messages_view(messages@)));
    array_value(out)
}

/// Decodes the elements of a JSON array as messages, in order. The first
/// element that does not decode gives its `JsonError`.
pub fn decode_messages(items: &Vec<Value>) -> (r: Result<Vec<Message>, GenAiError>)
    ensures
        match decoded_messages(values_json(items@)) {
            Ok(messages) => r matches Ok(v) && messages_view(v@) == messages,
            Err(m) => r matches Err(e) && e@ == GenAiErrorView::JsonError(m),
        },
{
    let ghost rs = values_json(items@).map_values(|j: JsonView| MessageView::decoded(j));
    let mut out: Vec<Message> = Vec::new();
    let mut i: usize = 0;
    while i < items.len()
        invariant
            i <= items.len(),
            out.len() == i,
            rs == values_json(items@).map_values(|j: JsonView| MessageView::decoded(j)),
            forall|k: int| 0 <= k < i ==> rs[k] == Ok::<MessageView, Seq<char>>(out@[k]@),
        decreases items.len() - i,
    {
        match Message::decode(&items[i]) {
            Ok(m) => {
                out.push(m);
            },
            Err(e) => {
                proof {
                    lemma_collect_first_error(rs, messages_view(out@), i as int);
                }
                return Err(e);
            },
        }
        i += 1;
    }
    proof {
        lemma_collect_all(rs, messages_view(out@));
    }
    Ok(out)
}

} // verus!
