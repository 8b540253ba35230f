//! Completion requests and responses, with their JSON wire forms.

use crate::errors::GenAiError;
use crate::json::array_value;
use crate::json::bool_value;
use crate::json::no_fields;
use crate::json::number_value;
use crate::json::number_view;
use crate::json::object_value;
use crate::json::string_value;
use crate::json::unsigned_value;
use crate::json::value_json;
use crate::json::values_json;
use crate::json::JsonView;
use crate::json::NumberView;
use crate::messages::contents_view;
use crate::messages::decode_contents;
use crate::messages::decode_messages;
use crate::messages::decoded_contents;
use crate::messages::decoded_messages;
use crate::messages::encode_contents;
use crate::messages::encode_messages;
use crate::messages::encoded_contents;
use crate::messages::encoded_messages;
use crate::messages::lemma_contents_round_trip;
use crate::messages::lemma_messages_round_trip;
use crate::messages::messages_view;
use crate::messages::Message;
use crate::messages::MessageContent;
use crate::messages::MessageContentView;
use crate::messages::MessageView;
use crate::messages::Role;
use crate::text::same_text;
use crate::tool_choice::ToolChoice;
use crate::tool_choice::ToolChoiceView;
use crate::wire::as_fields;
use crate::wire::cloned_values;
use crate::wire::expected;
use crate::wire::expected_fault;
use crate::wire::fields_of;
use crate::wire::items_at;
use crate::wire::opt_flag_at;
use crate::wire::opt_items_at;
use crate::wire::opt_number_at;
use crate::wire::opt_text_at;
use crate::wire::opt_value_at;
use crate::wire::optional;
use crate::wire::outcome;
use crate::wire::put_optional;
use crate::wire::read_items;
use crate::wire::read_opt_flag;
use crate::wire::read_opt_items;
use crate::wire::read_opt_number;
use crate::wire::read_opt_text;
use crate::wire::read_text;
use crate::wire::read_u32;
use crate::wire::required;
use crate::wire::text_at;
use crate::wire::u32_at;
use crate::wire::value_at;
use crate::wire::Decoded;
use serde_json::Number;
use serde_json::Value;
use vstd::prelude::*;

verus! {

/// Reason why generation stopped. The API may name reasons that this
/// library does not know: `Other` keeps such a name as it came.
#[derive(Debug, Clone, PartialEq, Eq)]
pub enum StopReason {
    /// The end of a turn was reached.
    EndTurn,
    /// The maximum number of tokens was reached.
    MaxTokens,
    /// A stop sequence was encountered.
    StopSequence,
    /// A tool was used.
    ToolUse,
    /// Another reason, by the name the API gave it.
    Other(String),
}

/// A `StopReason` with the name of an unknown reason as a character
/// sequence.
pub enum StopReasonView {
    EndTurn,
    MaxTokens,
    StopSequence,
    ToolUse,
    Other(Seq<char>),
}

impl View for StopReason {
    type V = StopReasonView;

    open spec fn view(&self) -> StopReasonView {
        match *self {
            StopReason::EndTurn => StopReasonView::EndTurn,
            StopReason::MaxTokens => StopReasonView::MaxTokens,
            StopReason::StopSequence => StopReasonView::StopSequence,
            StopReason::ToolUse => StopReasonView::ToolUse,
            StopReason::Other(name) => StopReasonView::Other(name@),
        }
    }
}

/// The tokens of the four named stop reasons are pairwise different texts.
pub proof fn lemma_stop_tokens_differ()
    ensures
        "end_turn"@ != "max_tokens"@,
        "end_turn"@ != "stop_sequence"@,
        "end_turn"@ != "tool_use"@,
        "max_tokens"@ != "stop_sequence"@,
        "max_tokens"@ != "tool_use"@,
        "stop_sequence"@ != "tool_use"@,
{
    reveal_strlit("end_turn");
    reveal_strlit("max_tokens");
    reveal_strlit("stop_sequence");
    reveal_strlit("tool_use");
    assert("end_turn"@.len() == 8);
    assert("max_tokens"@.len() == 10);
    assert("stop_sequence"@.len() == 13);
    assert("tool_use"@.len() == 8);
    assert("end_turn"@[0] != "tool_use"@[0]);
}

impl StopReasonView {
    /// Whether a text is the token of one of the four named reasons.
    pub open spec fn reserved(token: Seq<char>) -> bool {
        token == "end_turn"@ || token == "max_tokens"@ || token == "stop_sequence"@ || token
            == "tool_use"@
    }

    /// A reason is well formed unless it is `Other` with the token of a
    /// named reason, which the wire form cannot tell from that reason.
    pub open spec fn valid(self) -> bool {
        self matches StopReasonView::Other(name) ==> !Self::reserved(name)
    }

    /// The token that stands for the reason on the wire.
    pub open spec fn token(self) -> Seq<char> {
        match self {
            StopReasonView::EndTurn => "end_turn"@,
            StopReasonView::MaxTokens => "max_tokens"@,
            StopReasonView::StopSequence => "stop_sequence"@,
            StopReasonView::ToolUse => "tool_use"@,
            StopReasonView::Other(name) => name,
        }
    }

    /// The reason that a token stands for: every text stands for one.
    pub open spec fn named(token: Seq<char>) -> StopReasonView {
        if token == "end_turn"@ {
            StopReasonView::EndTurn
        } else if token == "max_tokens"@ {
            StopReasonView::MaxTokens
        } else if token == "stop_sequence"@ {
            StopReasonView::StopSequence
        } else if token == "tool_use"@ {
            StopReasonView::ToolUse
        } else {
            StopReasonView::Other(token)
        }
    }

    /// The wire form: the token as a JSON string.
    pub open spec fn encoded(self) -> JsonView {
        JsonView::Str(self.token())
    }

    /// The reason that a wire form stands for.
    pub open spec fn decoded(j: JsonView) -> Decoded<StopReasonView> {
        match j {
            JsonView::Str(s) => Ok(Self::named(s)),
            _ => Err(expected("stop_reason"@, "a string"@)),
        }
    }

    /// Every text names a well-formed reason whose token is that text; a
    /// text that is no named reason's token names `Other` with that text.
    pub proof fn lemma_named(token: Seq<char>)
        ensures
            Self::named(token).valid(),
            Self::named(token).token() == token,
            !Self::reserved(token) ==> Self::named(token) == StopReasonView::Other(token),
    {
        lemma_stop_tokens_differ();
    }

    /// Decoding the wire form of a well-formed reason gives the reason
    /// back.
    pub proof fn lemma_round_trip(self)
        requires
            self.valid(),
        ensures
            Self::decoded(self.encoded()) == Ok::<StopReasonView, Seq<char>>(self),
    {
        lemma_stop_tokens_differ();
    }
}

impl StopReason {
    /// The token of the reason.
    pub fn as_str(&self) -> (r: &str)
        ensures
            r@ == self@.token(),
    {
        match self {
            StopReason::EndTurn => "end_turn",
            StopReason::MaxTokens => "max_tokens",
            StopReason::StopSequence => "stop_sequence",
            StopReason::ToolUse => "tool_use",
            StopReason::Other(name) => name.as_str(),
        }
    }

    /// The reason of a token: a well-formed one, whatever the text.
    pub fn from_token(token: &str) -> (r: StopReason)
        ensures
            r@ == StopReasonView::named(token@),
            r@.valid(),
    {
        proof {
            StopReasonView::lemma_named(token@);
        }
        if same_text(token, "end_turn") {
            StopReason::EndTurn
        } else if same_text(token, "max_tokens") {
            StopReason::MaxTokens
        } else if same_text(token, "stop_sequence") {
            StopReason::StopSequence
        } else if same_text(token, "tool_use") {
            StopReason::ToolUse
        } else {
            StopReason::Other(token.to_owned())
        }
    }

    /// Encodes the reason as a JSON value.
    pub fn encode(&self) -> (r: Value)
        ensures
            value_json(r) == self@.encoded(),
    {
        string_value(self.as_str().to_owned())
    }

    /// Decodes a JSON value. Every string decodes; a value that is no
    /// string gives `JsonError`.
    pub fn decode(v: &Value) -> (r: Result<StopReason, GenAiError>)
        ensures
            outcome(r, StopReasonView::decoded(value_json(*v))),
    {
        match v.as_str() {
            Some(s) => Ok(StopReason::from_token(s)),
            None => Err(expected_fault("stop_reason", "a string")),
        }
    }
}

/// Information about token usage.
#[derive(Debug, Clone, Copy, PartialEq, Eq)]
pub struct Usage {
    pub input_tokens: u32,
    pub output_tokens: u32,
}

impl View for Usage {
    type V = Usage;

    open spec fn view(&self) -> Usage {
        *self
    }
}

/// The two keys of a usage are different texts.
pub proof fn lemma_usage_keys_differ()
    ensures
        "input_tokens"@ != "output_tokens"@,
{
    reveal_strlit("input_tokens");
    reveal_strlit("output_tokens");
    assert("input_tokens"@.len() == 12);
    assert("output_tokens"@.len() == 13);
}

impl Usage {
    /// The wire form: an object with the two counts.
    pub open spec fn encoded(self) -> JsonView {
        JsonView::Object(
            no_fields().insert(
                "input_tokens"@,
                JsonView::Number(NumberView::PosInt(self.input_tokens as u64)),
            ).insert(
                "output_tokens"@,
                JsonView::Number(NumberView::PosInt(self.output_tokens as u64)),
            ),
        )
    }

    /// The usage that a wire form stands for.
    pub open spec fn decoded(j: JsonView) -> Decoded<Usage> {
        match as_fields(j) {
            Err(e) => Err(e),
            Ok(m) => match u32_at(m, "input_tokens"@) {
                Err(e) => Err(e),
                Ok(input_tokens) => match u32_at(m, "output_tokens"@) {
                    Err(e) => Err(e),
                    Ok(output_tokens) => Ok(Usage { input_tokens, output_tokens }),
                },
            },
        }
    }

    /// Decoding the wire form of a usage gives the usage back.
    pub proof fn lemma_round_trip(self)
        ensures
            Self::decoded(self.encoded()) == Ok::<Usage, Seq<char>>(self),
    {
        lemma_usage_keys_differ();
    }

    /// Encodes the usage as a JSON value.
    pub fn encode(&self) -> (r: Value)
        ensures
            value_json(r) == self.encoded(),
    {
        let mut m = serde_json::Map::new();
        m.insert("input_tokens".to_owned(), unsigned_value(self.input_tokens as u64));
        m.insert("output_tokens".to_owned(), unsigned_value(self.output_tokens as u64));
        object_value(m)
    }

    /// Decodes a JSON value. A value that is no object, or in which a count
    /// is missing or no unsigned integer of 32 bits, gives `JsonError`.
    pub fn decode(v: &Value) -> (r: Result<Usage, GenAiError>)
        ensures
            outcome(r, Self::decoded(value_json(*v))),
    {
        let m = fields_of(v)?;
        let input_tokens = read_u32(m, "input_tokens")?;
        let output_tokens = read_u32(m, "output_tokens")?;
        Ok(Usage { input_tokens, output_tokens })
    }
}

/// Request to generate a completion. `temperature` is a JSON number and is
/// passed on as it is, whatever its value; each tool is a JSON value whose
/// shape the tools define.
#[derive(Debug, Clone, PartialEq, Eq)]
pub struct CompletionRequest {
    /// The model to use.
    pub model: String,
    /// The messages of the conversation, in order.
    pub messages: Vec<Message>,
    /// Maximum number of tokens to generate.
    pub max_tokens: u32,
    /// Sampling temperature.
    pub temperature: Option<Number>,
    /// System prompt.
    pub system: Option<String>,
    /// Tools on offer to the model.
    pub tools: Option<Vec<Value>>,
    /// How the use of tools is constrained.
    pub tool_choice: Option<ToolChoice>,
    /// Whether to disable parallel tool use.
    pub disable_parallel_tool_use: Option<bool>,
}

/// A `CompletionRequest` by the contents of its fields.
pub struct CompletionRequestView {
    pub model: Seq<char>,
    pub messages: Seq<MessageView>,
    pub max_tokens: u32,
    pub temperature: Option<NumberView>,
    pub system: Option<Seq<char>>,
    pub tools: Option<Seq<JsonView>>,
    pub tool_choice: Option<ToolChoiceView>,
    pub disable_parallel_tool_use: Option<bool>,
}

impl View for CompletionRequest {
    type V = CompletionRequestView;

    open spec fn view(&self) -> CompletionRequestView {
        CompletionRequestView {
            model: self.model@,
            messages: messages_view(self.messages@),
            max_tokens: self.max_tokens,
            temperature: match self.temperature {
                Some(n) => Some(number_view(n)),
                None => None,
            },
            system: match self.system {
                Some(s) => Some(s@),
                None => None,
            },
            tools: match self.tools {
                Some(tools) => Some(values_json(tools@)),
                None => None,
            },
            tool_choice: match self.tool_choice {
                Some(c) => Some(c@),
                None => None,
            },
            disable_parallel_tool_use: self.disable_parallel_tool_use,
        }
    }
}

/// The lengths and letters that tell the keys of a request apart.
pub proof fn lemma_request_keys()
    ensures
        "model"@.len() == 5 && "model"@[0] == 'm',
        "messages"@.len() == 8,
        "max_tokens"@.len() == 10,
        "temperature"@.len() == 11 && "temperature"@[1] == 'e',
        "system"@.len() == 6,
        "tools"@.len() == 5 && "tools"@[0] == 't',
        "tool_choice"@.len() == 11 && "tool_choice"@[1] == 'o',
        "disable_parallel_tool_use"@.len() == 25,
{
    reveal_strlit("model");
    reveal_strlit("messages");
    reveal_strlit("max_tokens");
    reveal_strlit("temperature");
    reveal_strlit("system");
    reveal_strlit("tools");
    reveal_strlit("tool_choice");
    reveal_strlit("disable_parallel_tool_use");
}

impl CompletionRequestView {
    /// The three fields that every wire form has.
    pub open spec fn required_fields(self) -> Map<Seq<char>, JsonView> {
        no_fields().insert("model"@, JsonView::Str(self.model)).insert(
            "messages"@,
            JsonView::Array(encoded_messages(self.messages)),
        ).insert("max_tokens"@, JsonView::Number(NumberView::PosInt(self.max_tokens as u64)))
    }

    /// The wire form of `temperature`, where there is one.
    pub open spec fn encoded_temperature(self) -> Option<JsonView> {
        match self.temperature {
            Some(n) => Some(JsonView::Number(n)),
            None => None,
        }
    }

    /// The wire form of `system`, where there is one.
    pub open spec fn encoded_system(self) -> Option<JsonView> {
        match self.system {
            Some(s) => Some(JsonView::Str(s)),
            None => None,
        }
    }

    /// The wire form of `tools`, where there are any.
    pub open spec fn encoded_tools(self) -> Option<JsonView> {
        match self.tools {
            Some(tools) => Some(JsonView::Array(tools)),
            None => None,
        }
    }

    /// The wire form of `tool_choice`, where there is one.
    pub open spec fn encoded_tool_choice(self) -> Option<JsonView> {
        match self.tool_choice {
            Some(c) => Some(c.encoded()),
            None => None,
        }
    }

    /// The wire form of `disable_parallel_tool_use`, where there is one.
    pub open spec fn encoded_disable(self) -> Option<JsonView> {
        match self.disable_parallel_tool_use {
            Some(b) => Some(JsonView::Bool(b)),
            None => None,
        }
    }

    /// The entries of the wire form: the required fields, and each optional
    /// field that the request has. A field that the request lacks has no
    /// key.
    pub open spec fn fields(self) -> Map<Seq<char>, JsonView> {
        put_optional(
            put_optional(
                put_optional(
                    put_optional(
                        put_optional(
                            self.required_fields(),
                            "temperature"@,
                            self.encoded_temperature(),
                        ),
                        "system"@,
                        self.encoded_system(),
                    ),
                    "tools"@,
                    self.encoded_tools(),
                ),
                "tool_choice"@,
                self.encoded_tool_choice(),
            ),
            "disable_parallel_tool_use"@,
            self.encoded_disable(),
        )
    }

    /// The wire form: an object with those entries.
    pub open spec fn encoded(self) -> JsonView {
        JsonView::Object(self.fields())
    }

    /// The messages of a wire form.
    pub open spec fn decoded_messages_at(m: Map<Seq<char>, JsonView>) -> Decoded<
        Seq<MessageView>,
    > {
        match items_at(m, "messages"@) {
            Err(e) => Err(e),
            Ok(items) => decoded_messages(items),
        }
    }

    /// The tool choice of a wire form: none where `tool_choice` is missing
    /// or `null`.
    pub open spec fn decoded_tool_choice_at(m: Map<Seq<char>, JsonView>) -> Decoded<
        Option<ToolChoiceView>,
    > {
        match opt_value_at(m, "tool_choice"@) {
            None => Ok(None),
            Some(j) => match ToolChoiceView::decoded(j) {
                Err(e) => Err(e),
                Ok(c) => Ok(Some(c)),
            },
        }
    }

    /// The five optional fields of a wire form, put beside the required
    /// ones.
    pub open spec fn decoded_optionals(
        m: Map<Seq<char>, JsonView>,
        model: Seq<char>,
        messages: Seq<MessageView>,
        max_tokens: u32,
    ) -> Decoded<CompletionRequestView> {
        match opt_number_at(m, "temperature"@) {
            Err(e) => Err(e),
            Ok(temperature) => match opt_text_at(m, "system"@) {
                Err(e) => Err(e),
                Ok(system) => match opt_items_at(m, "tools"@) {
                    Err(e) => Err(e),
                    Ok(tools) => match Self::decoded_tool_choice_at(m) {
                        Err(e) => Err(e),
                        Ok(tool_choice) => match opt_flag_at(m, "disable_parallel_tool_use"@) {
                            Err(e) => Err(e),
                            Ok(disable_parallel_tool_use) => Ok(
                                CompletionRequestView {
                                    model,
                                    messages,
                                    max_tokens,
                                    temperature,
                                    system,
                                    tools,
                                    tool_choice,
                                    disable_parallel_tool_use,
                                },
                            ),
                        },
                    },
                },
            },
        }
    }

    /// The request that a wire form stands for. The fields are read in the
    /// order in which the request declares them; an optional field that is
    /// missing or `null` is absent.
    pub open spec fn decoded(j: JsonView) -> Decoded<CompletionRequestView> {
        match as_fields(j) {
            Err(e) => Err(e),
            Ok(m) => match text_at(m, "model"@) {
                Err(e) => Err(e),
                Ok(model) => match Self::decoded_messages_at(m) {
                    Err(e) => Err(e),
                    Ok(messages) => match u32_at(m, "max_tokens"@) {
                        Err(e) => Err(e),
                        Ok(max_tokens) => Self::decoded_optionals(m, model, messages, max_tokens),
                    },
                },
            },
        }
    }

    /// Decoding the wire form of a request gives the request back: each
    /// optional field absent where it was absent, and present with its value
    /// where it was present.
    pub proof fn lemma_round_trip(self)
        ensures
            Self::decoded(self.encoded()) == Ok::<CompletionRequestView, Seq<char>>(self),
    {
        lemma_request_keys();
        lemma_messages_round_trip(self.messages);
        if let Some(c) = self.tool_choice {
            c.lemma_round_trip();
        }
    }

    /// The wire form has the key of an optional field exactly where the
    /// request has that field. So a request without any of them encodes
    /// without those keys.
    pub proof fn lemma_optional_keys(self)
        ensures
            self.fields().contains_key("temperature"@) <==> self.temperature is Some,
            self.fields().contains_key("system"@) <==> self.system is Some,
            self.fields().contains_key("tools"@) <==> self.tools is Some,
            self.fields().contains_key("tool_choice"@) <==> self.tool_choice is Some,
            self.fields().contains_key("disable_parallel_tool_use"@)
                <==> self.disable_parallel_tool_use is Some,
    {
        lemma_request_keys();
    }
}

impl CompletionRequest {
    /// Encodes the request as a JSON value.
    pub fn encode(&self) -> (r: Value)
        ensures
            value_json(r) == self@.encoded(),
    {
        let mut m = serde_json::Map::new();
        m.insert("model".to_owned(), string_value(self.model.clone()));
        m.insert("messages".to_owned(), encode_messages(&self.messages));
        m.insert("max_tokens".to_owned(), unsigned_value(self.max_tokens as u64));
        match &self.temperature {
            Some(n) => {
                m.insert("temperature".to_owned(), number_value(n.clone()));
            },
            None => {},
        }
        match &self.system {
            Some(s) => {
                m.insert("system".to_owned(), string_value(s.clone()));
            },
            None => {},
        }
        match &self.tools {
            Some(tools) => {
                m.insert("tools".to_owned(), array_value(cloned_values(tools)));
            },
            None => {},
        }
        match &self.tool_choice {
            Some(c) => {
                m.insert("tool_choice".to_owned(), c.encode());
            },
            None => {},
        }
        match self.disable_parallel_tool_use {
            Some(b) => {
                m.insert("disable_parallel_tool_use".to_owned(), bool_value(b));
            },
            None => {},
        }
        object_value(m)
    }

    /// Decodes a JSON value. A value that is no object, or in which a
    /// required field is missing, or any field is of the wrong kind or does
    /// not decode, gives `JsonError`.
    pub fn decode(v: &Value) -> (r: Result<CompletionRequest, GenAiError>)
        ensures
            outcome(r, CompletionRequestView::decoded(value_json(*v))),
    {
        let m = fields_of(v)?;
        let model = read_text(m, "model")?;
        let messages = decode_messages(read_items(m, "messages")?)?;
        let max_tokens = read_u32(m, "max_tokens")?;
        let temperature = read_opt_number(m, "temperature")?;
        let system = read_opt_text(m, "system")?;
        let tools = read_opt_items(m, "tools")?;
        let tool_choice = match optional(m, "tool_choice") {
            Some(x) => Some(ToolChoice::decode(x)?),
            None => None,
        };
        let disable_parallel_tool_use = read_opt_flag(m, "disable_parallel_tool_use")?;
        Ok(
            CompletionRequest {
                model,
                messages,
                max_tokens,
                temperature,
                system,
                tools,
                tool_choice,
                disable_parallel_tool_use,
            },
        )
    }
}

/// Response to a completion request.
#[derive(Debug, Clone, PartialEq, Eq)]
pub struct CompletionResponse {
    /// The generated content blocks, in order.
    pub content: Vec<MessageContent>,
    /// ID of the message.
    pub id: String,
    /// Model that generated it.
    pub model: String,
    /// Role of the sender; the API answers as the assistant.
    pub role: Role,
    /// Why generation stopped.
    pub stop_reason: StopReason,
    /// The stop sequence that was met, if one was.
    pub stop_sequence: Option<String>,
    /// Message type; `type` on the wire.
    pub message_type: String,
    /// Token usage.
    pub usage: Usage,
}

/// A `CompletionResponse` by the contents of its fields.
pub struct CompletionResponseView {
    pub content: Seq<MessageContentView>,
    pub id: Seq<char>,
    pub model: Seq<char>,
    pub role: Role,
    pub stop_reason: StopReasonView,
    pub stop_sequence: Option<Seq<char>>,
    pub message_type: Seq<char>,
    pub usage: Usage,
}

impl View for CompletionResponse {
    type V = CompletionResponseView;

    open spec fn view(&self) -> CompletionResponseView {
        CompletionResponseView {
            content: contents_view(self.content@),
            id: self.id@,
            model: self.model@,
            role: self.role,
            stop_reason: self.stop_reason@,
            stop_sequence: match self.stop_sequence {
                Some(s) => Some(s@),
                None => None,
            },
            message_type: self.message_type@,
            usage: self.usage,
        }
    }
}

/// The lengths and letters that tell the keys of a response apart.
pub proof fn lemma_response_keys()
    ensures
        "content"@.len() == 7,
        "id"@.len() == 2,
        "model"@.len() == 5 && "model"@[0] == 'm',
        "role"@.len() == 4 && "role"@[0] == 'r',
        "stop_reason"@.len() == 11,
        "stop_sequence"@.len() == 13,
        "type"@.len() == 4 && "type"@[0] == 't',
        "usage"@.len() == 5 && "usage"@[0] == 'u',
{
    reveal_strlit("content");
    reveal_strlit("id");
    reveal_strlit("model");
    reveal_strlit("role");
    reveal_strlit("stop_reason");
    reveal_strlit("stop_sequence");
    reveal_strlit("type");
    reveal_strlit("usage");
}

impl CompletionResponseView {
    /// A response is well formed where its stop reason is.
    pub open spec fn valid(self) -> bool {
        self.stop_reason.valid()
    }

    /// The seven fields that every wire form has.
    pub open spec fn required_fields(self) -> Map<Seq<char>, JsonView> {
        no_fields().insert("content"@, JsonView::Array(encoded_contents(self.content))).insert(
            "id"@,
            JsonView::Str(self.id),
        ).insert("model"@, JsonView::Str(self.model)).insert("role"@, self.role.encoded()).insert(
            "stop_reason"@,
            self.stop_reason.encoded(),
        ).insert("type"@, JsonView::Str(self.message_type)).insert("usage"@, self.usage.encoded())
    }

    /// The wire form of `stop_sequence`, where there is one.
    pub open spec fn encoded_stop_sequence(self) -> Option<JsonView> {
        match self.stop_sequence {
            Some(s) => Some(JsonView::Str(s)),
            None => None,
        }
    }

    /// The entries of the wire form: the required fields, and
    /// `stop_sequence` where the response has one.
    pub open spec fn fields(self) -> Map<Seq<char>, JsonView> {
        put_optional(self.required_fields(), "stop_sequence"@, self.encoded_stop_sequence())
    }

    /// The wire form: an object with those entries.
    pub open spec fn encoded(self) -> JsonView {
        JsonView::Object(self.fields())
    }

    /// The content blocks of a wire form.
    pub open spec fn decoded_content_at(m: Map<Seq<char>, JsonView>) -> Decoded<
        Seq<MessageContentView>,
    > {
        match items_at(m, "content"@) {
            Err(e) => Err(e),
            Ok(items) => decoded_contents(items),
        }
    }

    /// The role of a wire form.
    pub open spec fn decoded_role_at(m: Map<Seq<char>, JsonView>) -> Decoded<Role> {
        match value_at(m, "role"@) {
            Err(e) => Err(e),
            Ok(j) => Role::decoded(j),
        }
    }

    /// The stop reason of a wire form.
    pub open spec fn decoded_stop_reason_at(m: Map<Seq<char>, JsonView>) -> Decoded<
        StopReasonView,
    > {
        match value_at(m, "stop_reason"@) {
            Err(e) => Err(e),
            Ok(j) => StopReasonView::decoded(j),
        }
    }

    /// The usage of a wire form.
    pub open spec fn decoded_usage_at(m: Map<Seq<char>, JsonView>) -> Decoded<Usage> {
        match value_at(m, "usage"@) {
            Err(e) => Err(e),
            Ok(j) => Usage::decoded(j),
        }
    }

    /// The last four fields of a wire form, put beside the first four.
    pub open spec fn decoded_rest(
        m: Map<Seq<char>, JsonView>,
        content: Seq<MessageContentView>,
        id: Seq<char>,
        model: Seq<char>,
        role: Role,
    ) -> Decoded<CompletionResponseView> {
        match Self::decoded_stop_reason_at(m) {
            Err(e) => Err(e),
            Ok(stop_reason) => match opt_text_at(m, "stop_sequence"@) {
                Err(e) => Err(e),
                Ok(stop_sequence) => match text_at(m, "type"@) {
                    Err(e) => Err(e),
                    Ok(message_type) => match Self::decoded_usage_at(m) {
                        Err(e) => Err(e),
                        Ok(usage) => Ok(
                            CompletionResponseView {
                                content,
                                id,
                                model,
                                role,
                                stop_reason,
                                stop_sequence,
                                message_type,
                                usage,
                            },
                        ),
                    },
                },
            },
        }
    }

    /// The response that a wire form stands for. The fields are read in the
    /// order in which the response declares them; a `stop_sequence` that is
    /// missing or `null` is absent.
    pub open spec fn decoded(j: JsonView) -> Decoded<CompletionResponseView> {
        match as_fields(j) {
            Err(e) => Err(e),
            Ok(m) => match Self::decoded_content_at(m) {
                Err(e) => Err(e),
                Ok(content) => match text_at(m, "id"@) {
                    Err(e) => Err(e),
                    Ok(id) => match text_at(m, "model"@) {
                        Err(e) => Err(e),
                        Ok(model) => match Self::decoded_role_at(m) {
                            Err(e) => Err(e),
                            Ok(role) => Self::decoded_rest(m, content, id, model, role),
                        },
                    },
                },
            },
        }
    }

    /// Decoding the wire form of a well-formed response gives the response
    /// back.
    pub proof fn lemma_round_trip(self)
        requires
            self.valid(),
        ensures
            Self::decoded(self.encoded()) == Ok::<CompletionResponseView, Seq<char>>(self),
    {
        lemma_response_keys();
        lemma_contents_round_trip(self.content);
        self.role.lemma_round_trip();
        self.stop_reason.lemma_round_trip();
        self.usage.lemma_round_trip();
    }

    /// The wire form has the key `stop_sequence` exactly where the response
    /// has a stop sequence.
    pub proof fn lemma_stop_sequence_key(self)
        ensures
            self.fields().contains_key("stop_sequence"@) <==> self.stop_sequence is Some,
    {
        lemma_response_keys();
    }
}

impl CompletionResponse {
    /// Encodes the response as a JSON value.
    pub fn encode(&self) -> (r: Value)
        ensures
            value_json(r) == self@.encoded(),
    {
        let mut m = serde_json::Map::new();
        m.insert("content".to_owned(), encode_contents(&self.content));
        m.insert("id".to_owned(), string_value(self.id.clone()));
        m.insert("model".to_owned(), string_value(self.model.clone()));
        m.insert("role".to_owned(), self.role.encode());
        m.insert("stop_reason".to_owned(), self.stop_reason.encode());
        m.insert("type".to_owned(), string_value(self.message_type.clone()));
        m.insert("usage".to_owned(), self.usage.encode());
        match &self.stop_sequence {
            Some(s) => {
                m.insert("stop_sequence".to_owned(), string_value(s.clone()));
            },
            None => {},
        }
        object_value(m)
    }

    /// Decodes a JSON value. A value that is no object, or in which a
    /// required field is missing, or any field is of the wrong kind or does
    /// not decode, gives `JsonError`. A stop reason that the library does
    /// not know is no error.
    pub fn decode(v: &Value) -> (r: Result<CompletionResponse, GenAiError>)
        ensures
            outcome(r, CompletionResponseView::decoded(value_json(*v))),
    {
        let m = fields_of(v)?;
        let content = decode_contents(read_items(m, "content")?)?;
        let id = read_text(m, "id")?;
        let model = read_text(m, "model")?;
        let role = Role::decode(required(m, "role")?)?;
        let stop_reason = StopReason::decode(required(m, "stop_reason")?)?;
        let stop_sequence = read_opt_text(m, "stop_sequence")?;
        let message_type = read_text(m, "type")?;
        let usage = Usage::decode(required(m, "usage")?)?;
        Ok(
            CompletionResponse {
                content,
                id,
                model,
                role,
                stop_reason,
                stop_sequence,
                message_type,
                usage,
            },
        )
    }
}

} // verus!
