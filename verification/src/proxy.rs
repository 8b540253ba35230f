//! The envelopes that the proxy takes and gives, with their JSON wire forms.
//!
//! An envelope is tagged from outside: a variant without fields is the
//! string of its name, a variant with fields is an object whose single key
//! is its name and whose value is the object of the fields.

use crate::completion::CompletionRequest;
use crate::completion::CompletionRequestView;
use crate::completion::CompletionResponse;
use crate::completion::CompletionResponseView;
use crate::errors::GenAiError;
use crate::json::entry;
use crate::json::object_value;
use crate::json::string_value;
use crate::json::value_json;
use crate::json::JsonView;
use crate::models::decode_models;
use crate::models::decoded_models;
use crate::models::encode_models;
use crate::models::encoded_models;
use crate::models::lemma_models_round_trip;
use crate::models::models_view;
use crate::models::ModelInfo;
use crate::models::ModelInfoView;
use crate::text::same_text;
use crate::wire::as_fields;
use crate::wire::fault;
use crate::wire::fields_of;
use crate::wire::items_at;
use crate::wire::lemma_only;
use crate::wire::only;
use crate::wire::outcome;
use crate::wire::read_items;
use crate::wire::read_text;
use crate::wire::required;
use crate::wire::single;
use crate::wire::text_at;
use crate::wire::value_at;
use crate::wire::Decoded;
use serde_json::Value;
use vstd::prelude::*;

verus! {

/// The message for a value that has not the shape of an envelope.
pub open spec fn not_an_envelope() -> Seq<char> {
    "expected a variant name or an object with a single key"@
}

/// The message for an envelope whose tag names no variant.
pub open spec fn unknown_variant() -> Seq<char> {
    "unknown variant"@
}

/// The message for a variant with fields that came as a bare name.
pub open spec fn needs_fields() -> Seq<char> {
    "variant needs its fields"@
}

/// The message for a variant without fields that came with some.
pub open spec fn has_no_fields() -> Seq<char> {
    "variant has no fields"@
}

/// The lengths and letters that tell the names of the variants apart.
pub proof fn lemma_variant_names()
    ensures
        "ListModels"@.len() == 10 && "ListModels"@[0] == 'L',
        "GenerateCompletion"@.len() == 18,
        "Completion"@.len() == 10 && "Completion"@[0] == 'C',
        "Error"@.len() == 5,
{
    reveal_strlit("ListModels");
    reveal_strlit("GenerateCompletion");
    reveal_strlit("Completion");
    reveal_strlit("Error");
}

/// Request to the proxy.
#[derive(Debug, Clone, PartialEq, Eq)]
pub enum ProxyRequest {
    /// Asks for the models on offer.
    ListModels,
    /// Asks for a completion.
    GenerateCompletion { request: CompletionRequest },
}

/// A `ProxyRequest` by the contents of its fields.
pub enum ProxyRequestView {
    ListModels,
    GenerateCompletion { request: CompletionRequestView },
}

impl View for ProxyRequest {
    type V = ProxyRequestView;

    open spec fn view(&self) -> ProxyRequestView {
        match *self {
            ProxyRequest::ListModels => ProxyRequestView::ListModels,
            ProxyRequest::GenerateCompletion { request } => ProxyRequestView::GenerateCompletion {
                request: request@,
            },
        }
    }
}

impl ProxyRequestView {
    /// The name that tags the variant.
    pub open spec fn tag(self) -> Seq<char> {
        match self {
            ProxyRequestView::ListModels => "ListModels"@,
            ProxyRequestView::GenerateCompletion { .. } => "GenerateCompletion"@,
        }
    }

    /// The wire form.
    pub open spec fn encoded(self) -> JsonView {
        match self {
            ProxyRequestView::ListModels => JsonView::Str("ListModels"@),
            ProxyRequestView::GenerateCompletion { request } => JsonView::Object(
                only(
                    "GenerateCompletion"@,
                    JsonView::Object(only("request"@, request.encoded())),
                ),
            ),
        }
    }

    /// The request for a completion that the fields of an envelope stand
    /// for.
    pub open spec fn decoded_generate(j: JsonView) -> Decoded<ProxyRequestView> {
        match as_fields(j) {
            Err(e) => Err(e),
            Ok(m) => match value_at(m, "request"@) {
                Err(e) => Err(e),
                Ok(inner) => match CompletionRequestView::decoded(inner) {
                    Err(e) => Err(e),
                    Ok(request) => Ok(ProxyRequestView::GenerateCompletion { request }),
                },
            },
        }
    }

    /// The request that a wire form stands for. `ListModels` may also come
    /// as the object whose single key is its name and whose value is `null`.
    pub open spec fn decoded(j: JsonView) -> Decoded<ProxyRequestView> {
        match j {
            JsonView::Str(name) => if name == "ListModels"@ {
                Ok(ProxyRequestView::ListModels)
            } else if name == "GenerateCompletion"@ {
                Err(needs_fields())
            } else {
                Err(unknown_variant())
            },
            JsonView::Object(m) => if !single(m) {
                Err(not_an_envelope())
            } else if m.contains_key("ListModels"@) {
                if m["ListModels"@] is Null {
                    Ok(ProxyRequestView::ListModels)
                } else {
                    Err(has_no_fields())
                }
            } else if m.contains_key("GenerateCompletion"@) {
                Self::decoded_generate(m["GenerateCompletion"@])
            } else {
                Err(unknown_variant())
            },
            _ => Err(not_an_envelope()),
        }
    }

    /// Decoding the wire form of a request gives the request back.
    pub proof fn lemma_round_trip(self)
        ensures
            Self::decoded(self.encoded()) == Ok::<ProxyRequestView, Seq<char>>(self),
    {
        lemma_variant_names();
        if let ProxyRequestView::GenerateCompletion { request } = self {
            let inner = JsonView::Object(only("request"@, request.encoded()));
            lemma_only("GenerateCompletion"@, inner);
            lemma_only("request"@, request.encoded());
            request.lemma_round_trip();
        }
    }

    /// A wire form decodes only to the variant that its tag names: the
    /// string itself, or the single key of the object.
    pub proof fn lemma_tag_decides(j: JsonView)
        ensures
            Self::decoded(j) matches Ok(r) ==> match j {
                JsonView::Str(name) => name == r.tag(),
                JsonView::Object(m) => single(m) && m.contains_key(r.tag()),
                _ => false,
            },
    {
        lemma_variant_names();
    }
}

impl ProxyRequest {
    /// Encodes the request as a JSON value.
    pub fn encode(&self) -> (r: Value)
        ensures
            value_json(r) == self@.encoded(),
    {
        match self {
            ProxyRequest::ListModels => string_value("ListModels".to_owned()),
            ProxyRequest::GenerateCompletion { request } => {
                let mut inner = serde_json::Map::new();
                inner.insert("request".to_owned(), request.encode());
                let mut m = serde_json::Map::new();
                m.insert("GenerateCompletion".to_owned(), object_value(inner));
                object_value(m)
            },
        }
    }

    /// Decodes a JSON value. A value that has not the shape of an envelope,
    /// names no variant, or whose fields do not decode gives `JsonError`.
    pub fn decode(v: &Value) -> (r: Result<ProxyRequest, GenAiError>)
        ensures
            outcome(r, ProxyRequestView::decoded(value_json(*v))),
    {
        match v.as_str() {
            Some(name) => {
                if same_text(name, "ListModels") {
                    Ok(ProxyRequest::ListModels)
                } else if same_text(name, "GenerateCompletion") {
                    Err(fault("variant needs its fields".to_owned()))
                } else {
                    Err(fault("unknown variant".to_owned()))
                }
            },
            None => match v.as_object() {
                Some(m) => {
                    if m.len() != 1 {
                        return Err(
                            fault(
                                "expected a variant name or an object with a single key".to_owned(),
                            ),
                        );
                    }
                    match entry(m, "ListModels") {
                        Some(x) => {
                            if x.is_null() {
                                Ok(ProxyRequest::ListModels)
                            } else {
                                Err(fault("variant has no fields".to_owned()))
                            }
                        },
                        None => match entry(m, "GenerateCompletion") {
                            Some(x) => Self::decode_generate(x),
                            None => Err(fault("unknown variant".to_owned())),
                        },
                    }
                },
                None => Err(
                    fault("expected a variant name or an object with a single key".to_owned()),
                ),
            },
        }
    }

    fn decode_generate(v: &Value) -> (r: Result<ProxyRequest, GenAiError>)
        ensures
            outcome(r, ProxyRequestView::decoded_generate(value_json(*v))),
    {
        let m = fields_of(v)?;
        let request = CompletionRequest::decode(required(m, "request")?)?;
        Ok(ProxyRequest::GenerateCompletion { request })
    }
}

/// Response of the proxy.
#[derive(Debug, Clone, PartialEq, Eq)]
pub enum ProxyResponse {
    /// The models on offer.
    ListModels { models: Vec<ModelInfo> },
    /// A generated completion.
    Completion { completion: CompletionResponse },
    /// A failure, of whatever kind, as one line of text.
    Error { error: String },
}

/// A `ProxyResponse` by the contents of its fields.
pub enum ProxyResponseView {
    ListModels { models: Seq<ModelInfoView> },
    Completion { completion: CompletionResponseView },
    Error { error: Seq<char> },
}

impl View for ProxyResponse {
    type V = ProxyResponseView;

    open spec fn view(&self) -> ProxyResponseView {
        match *self {
            ProxyResponse::ListModels { models } => ProxyResponseView::ListModels {
                models: models_view(models@),
            },
            ProxyResponse::Completion { completion } => ProxyResponseView::Completion {
                completion: completion@,
            },
            ProxyResponse::Error { error } => ProxyResponseView::Error { error: error@ },
        }
    }
}

impl ProxyResponseView {
    /// A response is well formed where the completion in it, if there is
    /// one, is.
    pub open spec fn valid(self) -> bool {
        self matches ProxyResponseView::Completion { completion } ==> completion.valid()
    }

    /// The name that tags the variant.
    pub open spec fn tag(self) -> Seq<char> {
        match self {
            ProxyResponseView::ListModels { .. } => "ListModels"@,
            ProxyResponseView::Completion { .. } => "Completion"@,
            ProxyResponseView::Error { .. } => "Error"@,
        }
    }

    /// The wire form. That of `Error` holds the one line of text and nothing
    /// else.
    pub open spec fn encoded(self) -> JsonView {
        match self {
            ProxyResponseView::ListModels { models } => JsonView::Object(
                only(
                    "ListModels"@,
                    JsonView::Object(only("models"@, JsonView::Array(encoded_models(models)))),
                ),
            ),
            ProxyResponseView::Completion { completion } => JsonView::Object(
                only("Completion"@, JsonView::Object(only("completion"@, completion.encoded()))),
            ),
            ProxyResponseView::Error { error } => JsonView::Object(
                only("Error"@, JsonView::Object(only("error"@, JsonView::Str(error)))),
            ),
        }
    }

    /// The list of models that the fields of an envelope stand for.
    pub open spec fn decoded_list(j: JsonView) -> Decoded<ProxyResponseView> {
        match as_fields(j) {
            Err(e) => Err(e),
            Ok(m) => match items_at(m, "models"@) {
                Err(e) => Err(e),
                Ok(items) => match decoded_models(items) {
                    Err(e) => Err(e),
                    Ok(models) => Ok(ProxyResponseView::ListModels { models }),
                },
            },
        }
    }

    /// The completion that the fields of an envelope stand for.
    pub open spec fn decoded_completion(j: JsonView) -> Decoded<ProxyResponseView> {
        match as_fields(j) {
            Err(e) => Err(e),
            Ok(m) => match value_at(m, "completion"@) {
                Err(e) => Err(e),
                Ok(inner) => match CompletionResponseView::decoded(inner) {
                    Err(e) => Err(e),
                    Ok(completion) => Ok(ProxyResponseView::Completion { completion }),
                },
            },
        }
    }

    /// The failure that the fields of an envelope stand for.
    pub open spec fn decoded_error(j: JsonView) -> Decoded<ProxyResponseView> {
        match as_fields(j) {
            Err(e) => Err(e),
            Ok(m) => match text_at(m, "error"@) {
                Err(e) => Err(e),
                Ok(error) => Ok(ProxyResponseView::Error { error }),
            },
        }
    }

    /// The response that a wire form stands for.
    pub open spec fn decoded(j: JsonView) -> Decoded<ProxyResponseView> {
        match j {
            JsonView::Str(name) => if name == "ListModels"@ || name == "Completion"@ || name
                == "Error"@ {
                Err(needs_fields())
            } else {
                Err(unknown_variant())
            },
            JsonView::Object(m) => if !single(m) {
                Err(not_an_envelope())
            } else if m.contains_key("ListModels"@) {
                Self::decoded_list(m["ListModels"@])
            } else if m.contains_key("Completion"@) {
                Self::decoded_completion(m["Completion"@])
            } else if m.contains_key("Error"@) {
                Self::decoded_error(m["Error"@])
            } else {
                Err(unknown_variant())
            },
            _ => Err(not_an_envelope()),
        }
    }

    /// Decoding the wire form of a well-formed response gives the response
    /// back.
    pub proof fn lemma_round_trip(self)
        requires
            self.valid(),
        ensures
            Self::decoded(self.encoded()) == Ok::<ProxyResponseView, Seq<char>>(self),
    {
        lemma_variant_names();
        match self {
            ProxyResponseView::ListModels { models } => {
                let list = JsonView::Array(encoded_models(models));
                lemma_only("ListModels"@, JsonView::Object(only("models"@, list)));
                lemma_only("models"@, list);
                lemma_models_round_trip(models);
            },
            ProxyResponseView::Completion { completion } => {
                lemma_only(
                    "Completion"@,
                    JsonView::Object(only("completion"@, completion.encoded())),
                );
                lemma_only("completion"@, completion.encoded());
                completion.lemma_round_trip();
            },
            ProxyResponseView::Error { error } => {
                lemma_only("Error"@, JsonView::Object(only("error"@, JsonView::Str(error))));
                lemma_only("error"@, JsonView::Str(error));
            },
        }
    }

    /// A wire form decodes only to the variant that the single key of the
    /// object names.
    pub proof fn lemma_tag_decides(j: JsonView)
        ensures
            Self::decoded(j) matches Ok(r) ==> j matches JsonView::Object(m) && single(m)
                && m.contains_key(r.tag()),
    {
        lemma_variant_names();
    }
}

impl ProxyResponse {
    /// The response that reports a failure: whatever the kind of the error,
    /// it is flattened to its one-line description.
    pub fn from_error(error: &GenAiError) -> (r: ProxyResponse)
        ensures
            r@ == (ProxyResponseView::Error { error: error@.text() }),
    {
        ProxyResponse::Error { error: error.to_string() }
    }

    /// Encodes the response as a JSON value.
    pub fn encode(&self) -> (r: Value)
        ensures
            value_json(r) == self@.encoded(),
    {
        let mut inner = serde_json::Map::new();
        let mut m = serde_json::Map::new();
        match self {
            ProxyResponse::ListModels { models } => {
                inner.insert("models".to_owned(), encode_models(models));
                m.insert("ListModels".to_owned(), object_value(inner));
            },
            ProxyResponse::Completion { completion } => {
                inner.insert("completion".to_owned(), completion.encode());
                m.insert("Completion".to_owned(), object_value(inner));
            },
            ProxyResponse::Error { error } => {
                inner.insert("error".to_owned(), string_value(error.clone()));
                m.insert("Error".to_owned(), object_value(inner));
            },
        }
        object_value(m)
    }

    /// Decodes a JSON value. A value that has not the shape of an envelope,
    /// names no variant, or whose fields do not decode gives `JsonError`.
    pub fn decode(v: &Value) -> (r: Result<ProxyResponse, GenAiError>)
        ensures
            outcome(r, ProxyResponseView::decoded(value_json(*v))),
    {
        match v.as_str() {
            Some(name) => {
                if same_text(name, "ListModels") || same_text(name, "Completion") || same_text(
                    name,
                    "Error",
                ) {
                    Err(fault("variant needs its fields".to_owned()))
                } else {
                    Err(fault("unknown variant".to_owned()))
                }
            },
            None => match v.as_object() {
                Some(m) => {
                    if m.len() != 1 {
                        return Err(
                            fault(
                                "expected a variant name or an object with a single key".to_owned(),
                            ),
                        );
                    }
                    match entry(m, "ListModels") {
                        Some(x) => Self::decode_list(x),
                        None => match entry(m, "Completion") {
                            Some(x) => Self::decode_completion(x),
                            None => match entry(m, "Error") {
                                Some(x) => Self::decode_error(x),
                                None => Err(fault("unknown variant".to_owned())),
                            },
                        },
                    }
                },
                None => Err(
                    fault("expected a variant name or an object with a single key".to_owned()),
                ),
            },
        }
    }

    fn decode_list(v: &Value) -> (r: Result<ProxyResponse, GenAiError>)
        ensures
            outcome(r, ProxyResponseView::decoded_list(value_json(*v))),
    {
        let m = fields_of(v)?;
        let models = decode_models(read_items(m, "models")?)?;
        Ok(ProxyResponse::ListModels { models })
    }

    fn decode_completion(v: &Value) -> (r: Result<ProxyResponse, GenAiError>)
        ensures
            outcome(r, ProxyResponseView::decoded_completion(value_json(*v))),
    {
        let m = fields_of(v)?;
        let completion = CompletionResponse::decode(required(m, "completion")?)?;
        Ok(ProxyResponse::Completion { completion })
    }

    fn decode_error(v: &Value) -> (r: Result<ProxyResponse, GenAiError>)
        ensures
            outcome(r, ProxyResponseView::decoded_error(value_json(*v))),
    {
        let m = fields_of(v)?;
        Ok(ProxyResponse::Error { error: read_text(m, "error")? })
    }
}

} // verus!
