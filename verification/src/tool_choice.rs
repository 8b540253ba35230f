//! How a request constrains the use of tools.

use crate::errors::GenAiError;
use crate::json::no_fields;
use crate::json::object_value;
use crate::json::string_value;
use crate::json::value_json;
use crate::json::JsonView;
use crate::text::same_text;
use crate::wire::as_fields;
use crate::wire::fault;
use crate::wire::fields_of;
use crate::wire::outcome;
use crate::wire::read_text;
use crate::wire::text_at;
use crate::wire::Decoded;
use serde_json::Value;
use vstd::prelude::*;

verus! {

/// Tool choice configuration.
#[derive(Debug, Clone, PartialEq, Eq)]
pub enum ToolChoice {
    /// The model decides whether to use tools.
    Auto,
    /// The model must use the tool of this name.
    Tool { name: String },
    /// The model must use one of the tools on offer.
    Any,
    /// The model must not use tools.
    NoTools,
}

/// A `ToolChoice` with its name as a character sequence.
pub enum ToolChoiceView {
    Auto,
    Tool { name: Seq<char> },
    Any,
    NoTools,
}

impl View for ToolChoice {
    type V = ToolChoiceView;

    open spec fn view(&self) -> ToolChoiceView {
        match *self {
            ToolChoice::Auto => ToolChoiceView::Auto,
            ToolChoice::Tool { name } => ToolChoiceView::Tool { name: name@ },
            ToolChoice::Any => ToolChoiceView::Any,
            ToolChoice::NoTools => ToolChoiceView::NoTools,
        }
    }
}

impl ToolChoiceView {
    /// The value of the `type` field that marks the variant.
    pub open spec fn tag(self) -> Seq<char> {
        match self {
            ToolChoiceView::Auto => "auto"@,
            ToolChoiceView::Tool { .. } => "tool"@,
            ToolChoiceView::Any => "any"@,
            ToolChoiceView::NoTools => "none"@,
        }
    }

    /// The wire form: an object whose `type` field holds the tag; `Tool`
    /// adds its `name`.
    pub open spec fn encoded(self) -> JsonView {
        let tagged = no_fields().insert("type"@, JsonView::Str(self.tag()));
        match self {
            ToolChoiceView::Tool { name } => JsonView::Object(
                tagged.insert("name"@, JsonView::Str(name)),
            ),
            _ => JsonView::Object(tagged),
        }
    }

    /// The choice that a wire form stands for. The `type` field alone picks
    /// the variant; fields that the variant does not have are ignored.
    pub open spec fn decoded(j: JsonView) -> Decoded<ToolChoiceView> {
        match as_fields(j) {
            Err(e) => Err(e),
            Ok(m) => match text_at(m, "type"@) {
                Err(e) => Err(e),
                Ok(tag) => if tag == "auto"@ {
                    Ok(ToolChoiceView::Auto)
                } else if tag == "tool"@ {
                    match text_at(m, "name"@) {
                        Err(e) => Err(e),
                        Ok(name) => Ok(ToolChoiceView::Tool { name }),
                    }
                } else if tag == "any"@ {
                    Ok(ToolChoiceView::Any)
                } else if tag == "none"@ {
                    Ok(ToolChoiceView::NoTools)
                } else {
                    Err("unknown tool choice type"@)
                },
            },
        }
    }

    /// Decoding the wire form of a choice gives the choice back.
    pub proof fn lemma_round_trip(self)
        ensures
            Self::decoded(self.encoded()) == Ok::<ToolChoiceView, Seq<char>>(self),
    {
        lemma_tags_differ();
    }

    /// Whether a text is the tag of a variant.
    pub open spec fn known_tag(tag: Seq<char>) -> bool {
        tag == "auto"@ || tag == "tool"@ || tag == "any"@ || tag == "none"@
    }

    /// A wire form decodes only to the variant that its `type` field names;
    /// a wire form without a `type`, or with one that names no variant, is
    /// an error.
    pub proof fn lemma_tag_decides(j: JsonView)
        ensures
            Self::decoded(j) matches Ok(c) ==> as_fields(j) matches Ok(m) && text_at(m, "type"@)
                == Ok::<Seq<char>, Seq<char>>(c.tag()),
            as_fields(j) matches Ok(m) && text_at(m, "type"@) is Err ==> Self::decoded(j) is Err,
            as_fields(j) matches Ok(m) && text_at(m, "type"@) matches Ok(tag) && !Self::known_tag(
                tag,
            ) ==> Self::decoded(j) == Err::<ToolChoiceView, Seq<char>>(
                "unknown tool choice type"@,
            ),
    {
        lemma_tags_differ();
    }
}

/// The tags and keys of the wire form are pairwise different texts.
pub proof fn lemma_tags_differ()
    ensures
        "auto"@ != "tool"@,
        "auto"@ != "any"@,
        "auto"@ != "none"@,
        "tool"@ != "any"@,
        "tool"@ != "none"@,
        "any"@ != "none"@,
        "type"@ != "name"@,
{
    reveal_strlit("auto");
    reveal_strlit("tool");
    reveal_strlit("any");
    reveal_strlit("none");
    reveal_strlit("type");
    reveal_strlit("name");
    assert("auto"@.len() != "any"@.len());
    assert("tool"@.len() != "any"@.len());
    assert("none"@.len() != "any"@.len());
    assert("auto"@[0] != "tool"@[0]);
    assert("auto"@[0] != "none"@[0]);
    assert("tool"@[0] != "none"@[0]);
    assert("type"@[0] != "name"@[0]);
}

impl ToolChoice {
    /// Encodes the choice as a JSON value.
    pub fn encode(&self) -> (r: Value)
        ensures
            value_json(r) == self@.encoded(),
    {
        let mut m = serde_json::Map::new();
        match self {
            ToolChoice::Auto => {
                m.insert("type".to_owned(), string_value("auto".to_owned()));
            },
            ToolChoice::Tool { name } => {
                m.insert("type".to_owned(), string_value("tool".to_owned()));
                m.insert("name".to_owned(), string_value(name.clone()));
            },
            ToolChoice::Any => {
                m.insert("type".to_owned(), string_value("any".to_owned()));
            },
            ToolChoice::NoTools => {
                m.insert("type".to_owned(), string_value("none".to_owned()));
            },
        }
        object_value(m)
    }

    /// Decodes a JSON value. A value that is no object, has no `type`, names
    /// no variant in it, or lacks what the variant needs gives `JsonError`.
    pub fn decode(v: &Value) -> (r: Result<ToolChoice, GenAiError>)
        ensures
            outcome(r, ToolChoiceView::decoded(value_json(*v))),
    {
        let m = fields_of(v)?;
        let tag = read_text(m, "type")?;
        if same_text(tag.as_str(), "auto") {
            Ok(ToolChoice::Auto)
        } else if same_text(tag.as_str(), "tool") {
            Ok(ToolChoice::Tool { name: read_text(m, "name")? })
        } else if same_text(tag.as_str(), "any") {
            Ok(ToolChoice::Any)
        } else if same_text(tag.as_str(), "none") {
            Ok(ToolChoice::NoTools)
        } else {
            Err(fault("unknown tool choice type".to_owned()))
        }
    }
}

} // verus!
