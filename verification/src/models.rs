//! The models that the API offers, and what they cost.

use crate::errors::GenAiError;
use crate::errors::GenAiErrorView;
use crate::json::array_value;
use crate::json::no_fields;
use crate::json::number_value;
use crate::json::number_view;
use crate::json::object_value;
use crate::json::string_value;
use crate::json::unsigned_value;
use crate::json::value_json;
use crate::json::values_json;
use crate::json::JsonView;
use crate::json::NumberView;
use crate::wire::as_fields;
use crate::wire::collect;
use crate::wire::fields_of;
use crate::wire::lemma_collect_all;
use crate::wire::lemma_collect_first_error;
use crate::wire::number_at;
use crate::wire::opt_value_at;
use crate::wire::optional;
use crate::wire::outcome;
use crate::wire::read_number;
use crate::wire::read_text;
use crate::wire::read_u32;
use crate::wire::required;
use crate::wire::text_at;
use crate::wire::u32_at;
use crate::wire::Decoded;
use serde_json::Number;
use serde_json::Value;
use vstd::prelude::*;

verus! {

/// Pricing information for a model. The two costs are JSON numbers, carried
/// as they are.
#[derive(Debug, Clone, PartialEq, Eq)]
pub struct ModelPricing {
    /// Cost per million input tokens.
    pub input_cost_per_million_tokens: Number,
    /// Cost per million output tokens.
    pub output_cost_per_million_tokens: Number,
}

/// Information about a model.
#[derive(Debug, Clone, PartialEq, Eq)]
pub struct ModelInfo {
    /// Model ID.
    pub id: String,
    /// Display name.
    pub display_name: String,
    /// Maximum context window size.
    pub max_tokens: u32,
    /// Provider name.
    pub provider: String,
    /// Pricing information, where it is known.
    pub pricing: Option<ModelPricing>,
}

/// A `ModelPricing` by the numbers it holds.
pub struct ModelPricingView {
    pub input_cost_per_million_tokens: NumberView,
    pub output_cost_per_million_tokens: NumberView,
}

/// A `ModelInfo` with its texts as character sequences.
pub struct ModelInfoView {
    pub id: Seq<char>,
    pub display_name: Seq<char>,
    pub max_tokens: u32,
    pub provider: Seq<char>,
    pub pricing: Option<ModelPricingView>,
}

impl View for ModelPricing {
    type V = ModelPricingView;

    open spec fn view(&self) -> ModelPricingView {
        ModelPricingView {
            input_cost_per_million_tokens: number_view(self.input_cost_per_million_tokens),
            output_cost_per_million_tokens: number_view(self.output_cost_per_million_tokens),
        }
    }
}

impl View for ModelInfo {
    type V = ModelInfoView;

    open spec fn view(&self) -> ModelInfoView {
        ModelInfoView {
            id: self.id@,
            display_name: self.display_name@,
            max_tokens: self.max_tokens,
            provider: self.provider@,
            pricing: match self.pricing {
                Some(p) => Some(p@),
                None => None,
            },
        }
    }
}

/// The keys of the two wire forms are pairwise different texts.
pub proof fn lemma_keys_differ()
    ensures
        "input_cost_per_million_tokens"@ != "output_cost_per_million_tokens"@,
        "id"@ != "display_name"@,
        "id"@ != "max_tokens"@,
        "id"@ != "provider"@,
        "id"@ != "pricing"@,
        "display_name"@ != "max_tokens"@,
        "display_name"@ != "provider"@,
        "display_name"@ != "pricing"@,
        "max_tokens"@ != "provider"@,
        "max_tokens"@ != "pricing"@,
        "provider"@ != "pricing"@,
{
    reveal_strlit("input_cost_per_million_tokens");
    reveal_strlit("output_cost_per_million_tokens");
    reveal_strlit("id");
    reveal_strlit("display_name");
    reveal_strlit("max_tokens");
    reveal_strlit("provider");
    reveal_strlit("pricing");
    assert("input_cost_per_million_tokens"@.len() == 29);
    assert("output_cost_per_million_tokens"@.len() == 30);
    assert("id"@.len() == 2);
    assert("display_name"@.len() == 12);
    assert("max_tokens"@.len() == 10);
    assert("provider"@.len() == 8);
    assert("pricing"@.len() == 7);
}

impl ModelPricingView {
    /// The wire form: an object with the two costs.
    pub open spec fn encoded(self) -> JsonView {
        JsonView::Object(
            no_fields().insert(
                "input_cost_per_million_tokens"@,
                JsonView::Number(self.input_cost_per_million_tokens),
            ).insert(
                "output_cost_per_million_tokens"@,
                JsonView::Number(self.output_cost_per_million_tokens),
            ),
        )
    }

    /// The pricing that a wire form stands for.
    pub open spec fn decoded(j: JsonView) -> Decoded<ModelPricingView> {
        match as_fields(j) {
            Err(e) => Err(e),
            Ok(m) => match number_at(m, "input_cost_per_million_tokens"@) {
                Err(e) => Err(e),
                Ok(input) => match number_at(m, "output_cost_per_million_tokens"@) {
                    Err(e) => Err(e),
                    Ok(output) => Ok(
                        ModelPricingView {
                            input_cost_per_million_tokens: input,
                            output_cost_per_million_tokens: output,
                        },
                    ),
                },
            },
        }
    }

    /// Decoding the wire form of a pricing gives the pricing back.
    pub proof fn lemma_round_trip(self)
        ensures
            Self::decoded(self.encoded()) == Ok::<ModelPricingView, Seq<char>>(self),
    {
        lemma_keys_differ();
    }
}

impl ModelInfoView {
    /// The fields that every wire form has.
    pub open spec fn required_fields(self) -> Map<Seq<char>, JsonView> {
        no_fields().insert("id"@, JsonView::Str(self.id)).insert(
            "display_name"@,
            JsonView::Str(self.display_name),
        ).insert("max_tokens"@, JsonView::Number(NumberView::PosInt(self.max_tokens as u64))).insert(
            "provider"@,
            JsonView::Str(self.provider),
        )
    }

    /// The wire form: an object with the four required fields, and with
    /// `pricing` where there is one.
    pub open spec fn encoded(self) -> JsonView {
        match self.pricing {
            Some(p) => JsonView::Object(self.required_fields().insert("pricing"@, p.encoded())),
            None => JsonView::Object(self.required_fields()),
        }
    }

    /// The pricing of a wire form: none where `pricing` is missing or
    /// `null`.
    pub open spec fn decoded_pricing(m: Map<Seq<char>, JsonView>) -> Decoded<
        Option<ModelPricingView>,
    > {
        match opt_value_at(m, "pricing"@) {
            None => Ok(None),
            Some(j) => match ModelPricingView::decoded(j) {
                Err(e) => Err(e),
                Ok(p) => Ok(Some(p)),
            },
        }
    }

    /// The model that a wire form stands for.
    pub open spec fn decoded(j: JsonView) -> Decoded<ModelInfoView> {
        match as_fields(j) {
            Err(e) => Err(e),
            Ok(m) => match text_at(m, "id"@) {
                Err(e) => Err(e),
                Ok(id) => match text_at(m, "display_name"@) {
                    Err(e) => Err(e),
                    Ok(display_name) => match u32_at(m, "max_tokens"@) {
                        Err(e) => Err(e),
                        Ok(max_tokens) => match text_at(m, "provider"@) {
                            Err(e) => Err(e),
                            Ok(provider) => match Self::decoded_pricing(m) {
                                Err(e) => Err(e),
                                Ok(pricing) => Ok(
                                    ModelInfoView { id, display_name, max_tokens, provider, pricing },
                                ),
                            },
                        },
                    },
                },
            },
        }
    }

    /// Decoding the wire form of a model gives the model back, with or
    /// without pricing.
    pub proof fn lemma_round_trip(self)
        ensures
            Self::decoded(self.encoded()) == Ok::<ModelInfoView, Seq<char>>(self),
    {
        lemma_keys_differ();
        if let Some(p) = self.pricing {
            p.lemma_round_trip();
        }
    }

    /// The wire form has the key `pricing` exactly where there is a pricing.
    pub proof fn lemma_pricing_key(self)
        ensures
            self.encoded() matches JsonView::Object(m) && (m.contains_key("pricing"@)
                <==> self.pricing is Some),
    {
        lemma_keys_differ();
    }
}

impl ModelPricing {
    /// Encodes the pricing as a JSON value.
    pub fn encode(&self) -> (r: Value)
        ensures
            value_json(r) == self@.encoded(),
    {
        let mut m = serde_json::Map::new();
        m.insert(
            "input_cost_per_million_tokens".to_owned(),
            number_value(self.input_cost_per_million_tokens.clone()),
        );
        m.insert(
            "output_cost_per_million_tokens".to_owned(),
            number_value(self.output_cost_per_million_tokens.clone()),
        );
        object_value(m)
    }

    /// Decodes a JSON value. A value that is no object, or in which one of
    /// the costs is missing or no number, gives `JsonError`.
    pub fn decode(v: &Value) -> (r: Result<ModelPricing, GenAiError>)
        ensures
            outcome(r, ModelPricingView::decoded(value_json(*v))),
    {
        let m = fields_of(v)?;
        let input = read_number(m, "input_cost_per_million_tokens")?;
        let output = read_number(m, "output_cost_per_million_tokens")?;
        Ok(
            ModelPricing {
                input_cost_per_million_tokens: input,
                output_cost_per_million_tokens: output,
            },
        )
    }
}

impl ModelInfo {
    /// Encodes the model as a JSON value.
    pub fn encode(&self) -> (r: Value)
        ensures
            value_json(r) == self@.encoded(),
    {
        let mut m = serde_json::Map::new();
        m.insert("id".to_owned(), string_value(self.id.clone()));
        m.insert("display_name".to_owned(), string_value(self.display_name.clone()));
        m.insert("max_tokens".to_owned(), unsigned_value(self.max_tokens as u64));
        m.insert("provider".to_owned(), string_value(self.provider.clone()));
        match &self.pricing {
            Some(p) => {
                m.insert("pricing".to_owned(), p.encode());
            },
            None => {},
        }
        object_value(m)
    }

    /// Decodes a JSON value. A value that is no object, or in which a
    /// required field is missing or of the wrong kind, or whose `pricing`
    /// does not decode, gives `JsonError`.
    pub fn decode(v: &Value) -> (r: Result<ModelInfo, GenAiError>)
        ensures
            outcome(r, ModelInfoView::decoded(value_json(*v))),
    {
        let m = fields_of(v)?;
        let id = read_text(m, "id")?;
        let display_name = read_text(m, "display_name")?;
        let max_tokens = read_u32(m, "max_tokens")?;
        let provider = read_text(m, "provider")?;
        let pricing = match optional(m, "pricing") {
            Some(x) => Some(ModelPricing::decode(x)?),
            None => None,
        };
        Ok(ModelInfo { id, display_name, max_tokens, provider, pricing })
    }
}

/// The views of a sequence of models.
pub open spec fn models_view(models: Seq<ModelInfo>) -> Seq<ModelInfoView> {
    models.map_values(|m: ModelInfo| m@)
}

/// The wire forms of a sequence of models, in order.
pub open spec fn encoded_models(models: Seq<ModelInfoView>) -> Seq<JsonView> {
    models.map_values(|m: ModelInfoView| m.encoded())
}

/// The models that a sequence of wire forms stands for, in order, or the
/// message of the first that stands for none.
pub open spec fn decoded_models(items: Seq<JsonView>) -> Decoded<Seq<ModelInfoView>> {
    collect(items.map_values(|j: JsonView| ModelInfoView::decoded(j)))
}

/// Decoding the wire forms of a sequence of models gives the models back,
/// as many and in the same order.
pub proof fn lemma_models_round_trip(models: Seq<ModelInfoView>)
    ensures
        decoded_models(encoded_models(models)) == Ok::<Seq<ModelInfoView>, Seq<char>>(models),
{
    let rs = encoded_models(models).map_values(|j: JsonView| ModelInfoView::decoded(j));
    assert forall|i: int| 0 <= i < rs.len() implies rs[i] == Ok::<ModelInfoView, Seq<char>>(
        models[i],
    ) by {
        models[i].lemma_round_trip();
    }
    lemma_collect_all(rs, models);
}

/// Encodes models as a JSON array, in order.
pub fn encode_models(models: &Vec<ModelInfo>) -> (r: Value)
    ensures
        value_json(r) == JsonView::Array(encoded_models(models_view(models@))),
{
    let mut out: Vec<Value> = Vec::new();
    let mut i: usize = 0;
    while i < models.len()
        invariant
            i <= models.len(),
            out.len() == i,
            forall|k: int| 0 <= k < i ==> value_json(out@[k]) == models@[k]@.encoded(),
        decreases models.len() - i,
    {
        out.push(models[i].encode());
        i += 1;
    }
    assert(values_json(out@) =~= encoded_models(models_view(models@)));
    array_value(out)
}

/// Decodes the elements of a JSON array as models, in order. The first
/// element that does not decode gives its `JsonError`.
pub fn decode_models(items: &Vec<Value>) -> (r: Result<Vec<ModelInfo>, GenAiError>)
    ensures
        match decoded_models(values_json(items@)) {
            Ok(models) => r matches Ok(v) && models_view(v@) == models,
            Err(m) => r matches Err(e) && e@ == GenAiErrorView::JsonError(m),
        },
{
    let ghost rs = values_json(items@).map_values(|j: JsonView| ModelInfoView::decoded(j));
    let mut out: Vec<ModelInfo> = Vec::new();
    let mut i: usize = 0;
    while i < items.len()
        invariant
            i <= items.len(),
            out.len() == i,
            rs == values_json(items@).map_values(|j: JsonView| ModelInfoView::decoded(j)),
            forall|k: int| 0 <= k < i ==> rs[k] == Ok::<ModelInfoView, Seq<char>>(out@[k]@),
        decreases items.len() - i,
    {
        match ModelInfo::decode(&items[i]) {
            Ok(m) => {
                out.push(m);
            },
            Err(e) => {
                proof {
                    lemma_collect_first_error(rs, models_view(out@), i as int);
                }
                return Err(e);
            },
        }
        i += 1;
    }
    proof {
        lemma_collect_all(rs, models_view(out@));
    }
    Ok(out)
}

} // verus!
