//! Tools and tool content as `mcp_protocol` types them.
//!
//! On the wire, and in the types of this library, a tool and an item of
//! tool content are JSON values whose shape `mcp_protocol` defines. This
//! module converts between the two; the conversions themselves are that
//! crate's and `serde_json`'s, and nothing is proved of them.

use crate::errors::GenAiError;
use crate::errors::GenAiErrorView;
use crate::json::error_text;
use crate::json::value_json;
use crate::json::values_json;
use crate::json::JsonView;
use crate::wire::collect;
use crate::wire::lemma_collect_all;
use crate::wire::lemma_collect_first_error;
use crate::wire::Decoded;
use mcp_protocol::tool::Tool;
use mcp_protocol::tool::ToolContent;
use serde_json::Value;
use vstd::prelude::*;

verus! {

/// `mcp_protocol::tool::Tool`, the definition of a tool. The verifier does
/// not look inside.
#[verifier::external_type_specification]
#[verifier::external_body]
pub struct ExTool(mcp_protocol::tool::Tool);

/// `mcp_protocol::tool::ToolContent`, one item of the content of a tool
/// result. The verifier does not look inside.
#[verifier::external_type_specification]
#[verifier::external_body]
pub struct ExToolContent(mcp_protocol::tool::ToolContent);

/// What `serde_json::to_value` makes of an item of tool content: its JSON
/// form, or the text of the error it reports.
pub uninterp spec fn tool_content_json(c: ToolContent) -> Result<JsonView, Seq<char>>;

/// What `serde_json::from_value` reads from a JSON value as an item of tool
/// content: the item, or the text of the error it reports.
pub uninterp spec fn tool_content_read(j: JsonView) -> Result<ToolContent, Seq<char>>;

/// What `serde_json::to_value` makes of a tool: its JSON form, or the text
/// of the error it reports.
pub uninterp spec fn tool_json(t: Tool) -> Result<JsonView, Seq<char>>;

/// Whether `serde_json::from_value` reads a tool from a JSON value: `None`
/// where it does, and the text of the error it reports where it does not.
/// This depends on the contents of the value alone. The tool that is read
/// holds a hash map, which every process seeds anew, and has no name.
pub uninterp spec fn tool_read_failure(j: JsonView) -> Option<Seq<char>>;

/// `serde_json::to_value` of an item of tool content: the result depends on
/// the item alone.
#[verifier::external_body]
fn content_to_value(c: &ToolContent) -> (r: Result<Value, serde_json::Error>)
    ensures
        match r {
            Ok(v) => tool_content_json(*c) == Ok::<JsonView, Seq<char>>(value_json(v)),
            Err(e) => tool_content_json(*c) == Err::<JsonView, Seq<char>>(error_text(e)@),
        },
{
    serde_json::to_value(c)
}

/// `serde_json::from_value` for an item of tool content: the result depends
/// on the contents of the value alone.
#[verifier::external_body]
fn content_from_value(v: &Value) -> (r: Result<ToolContent, serde_json::Error>)
    ensures
        match r {
            Ok(c) => tool_content_read(value_json(*v)) == Ok::<ToolContent, Seq<char>>(c),
            Err(e) => tool_content_read(value_json(*v)) == Err::<ToolContent, Seq<char>>(
                error_text(e)@,
            ),
        },
{
    serde_json::from_value::<ToolContent>(v.clone())
}

/// `serde_json::to_value` of a tool: the result depends on the tool alone.
#[verifier::external_body]
fn tool_to_value(t: &Tool) -> (r: Result<Value, serde_json::Error>)
    ensures
        match r {
            Ok(v) => tool_json(*t) == Ok::<JsonView, Seq<char>>(value_json(v)),
            Err(e) => tool_json(*t) == Err::<JsonView, Seq<char>>(error_text(e)@),
        },
{
    serde_json::to_value(t)
}

/// `serde_json::from_value` for a tool: whether it succeeds, and the error
/// where it fails, depend on the contents of the value alone. A tool holds
/// a hash map, so nothing is said of the tool that comes back.
#[verifier::external_body]
fn tool_from_value(v: &Value) -> (r: Result<Tool, serde_json::Error>)
    ensures
        match r {
            Ok(_) => tool_read_failure(value_json(*v)) == None::<Seq<char>>,
            Err(e) => tool_read_failure(value_json(*v)) == Some(error_text(e)@),
        },
{
    serde_json::from_value::<Tool>(v.clone())
}

/// The JSON form of an item of tool content. A failure of the conversion
/// gives `JsonError` with its diagnostic.
pub fn encode_tool_content(c: &ToolContent) -> (r: Result<Value, GenAiError>)
    ensures
        match tool_content_json(*c) {
            Ok(j) => r matches Ok(v) && value_json(v) == j,
            Err(m) => r matches Err(e) && e@ == GenAiErrorView::JsonError(m),
        },
{
    match content_to_value(c) {
        Ok(v) => Ok(v),
        Err(e) => Err(GenAiError::from(e)),
    }
}

/// The item of tool content that a JSON value stands for. A value that
/// stands for none gives `JsonError` with the diagnostic.
pub fn decode_tool_content(v: &Value) -> (r: Result<ToolContent, GenAiError>)
    ensures
        match tool_content_read(value_json(*v)) {
            Ok(c) => r == Ok::<ToolContent, GenAiError>(c),
            Err(m) => r matches Err(e) && e@ == GenAiErrorView::JsonError(m),
        },
{
    match content_from_value(v) {
        Ok(c) => Ok(c),
        Err(e) => Err(GenAiError::from(e)),
    }
}

/// The JSON form of a tool. A failure of the conversion gives `JsonError`
/// with its diagnostic.
pub fn encode_tool(t: &Tool) -> (r: Result<Value, GenAiError>)
    ensures
        match tool_json(*t) {
            Ok(j) => r matches Ok(v) && value_json(v) == j,
            Err(m) => r matches Err(e) && e@ == GenAiErrorView::JsonError(m),
        },
{
    match tool_to_value(t) {
        Ok(v) => Ok(v),
        Err(e) => Err(GenAiError::from(e)),
    }
}

/// What reading a tool ends in: the tool that was read, or `JsonError` with
/// the diagnostic of the failure.
pub fn tool_outcome(read: Result<Tool, serde_json::Error>) -> (r: Result<Tool, GenAiError>)
    ensures
        match read {
            Ok(t) => r == Ok::<Tool, GenAiError>(t),
            Err(e) => r matches Err(x) && x@ == GenAiErrorView::JsonError(error_text(e)@),
        },
{
    match read {
        Ok(t) => Ok(t),
        Err(e) => Err(GenAiError::from(e)),
    }
}

/// The tool that a JSON value stands for. It succeeds exactly where the
/// value reads as a tool; a value that does not gives `JsonError` with the
/// diagnostic.
pub fn decode_tool(v: &Value) -> (r: Result<Tool, GenAiError>)
    ensures
        match tool_read_failure(value_json(*v)) {
            None => r is Ok,
            Some(m) => r matches Err(e) && e@ == GenAiErrorView::JsonError(m),
        },
{
    tool_outcome(tool_from_value(v))
}

/// The JSON forms of a sequence of items of tool content, in order, or the
/// message of the first that has none.
pub open spec fn tool_contents_json(items: Seq<ToolContent>) -> Decoded<Seq<JsonView>> {
    collect(items.map_values(|c: ToolContent| tool_content_json(c)))
}

/// The items of tool content that a sequence of JSON values stands for, in
/// order, or the message of the first that stands for none.
pub open spec fn tool_contents_read(items: Seq<JsonView>) -> Decoded<Seq<ToolContent>> {
    collect(items.map_values(|j: JsonView| tool_content_read(j)))
}

/// The JSON forms of a sequence of tools, in order, or the message of the
/// first that has none.
pub open spec fn tools_json(tools: Seq<Tool>) -> Decoded<Seq<JsonView>> {
    collect(tools.map_values(|t: Tool| tool_json(t)))
}

/// What reading a tool from a JSON value ends in, without the tool: nothing
/// where it is read, the message where it is not.
pub open spec fn tool_read_outcome(j: JsonView) -> Decoded<()> {
    match tool_read_failure(j) {
        None => Ok(()),
        Some(m) => Err(m),
    }
}

/// The message of the first of a sequence of JSON values that does not read
/// as a tool; `None` where every one of them does.
pub open spec fn first_tool_failure(items: Seq<JsonView>) -> Option<Seq<char>> {
    match collect(items.map_values(|j: JsonView| tool_read_outcome(j))) {
        Ok(_) => None,
        Err(m) => Some(m),
    }
}

/// The JSON forms of items of tool content, in order, as a tool result
/// holds them. The first item that does not convert gives its `JsonError`.
pub fn encode_tool_contents(items: &Vec<ToolContent>) -> (r: Result<Vec<Value>, GenAiError>)
    ensures
        match tool_contents_json(items@) {
            Ok(forms) => r matches Ok(v) && values_json(v@) == forms,
            Err(m) => r matches Err(e) && e@ == GenAiErrorView::JsonError(m),
        },
{
    let ghost rs = items@.map_values(|c: ToolContent| tool_content_json(c));
    let mut out: Vec<Value> = Vec::new();
    let mut i: usize = 0;
    while i < items.len()
        invariant
            i <= items.len(),
            out.len() == i,
            rs == items@.map_values(|c: ToolContent| tool_content_json(c)),
            forall|k: int| 0 <= k < i ==> rs[k] == Ok::<JsonView, Seq<char>>(value_json(out@[k])),
        decreases items.len() - i,
    {
        match encode_tool_content(&items[i]) {
            Ok(v) => {
                out.push(v);
            },
            Err(e) => {
                proof {
                    lemma_collect_first_error(rs, values_json(out@), i as int);
                }
                return Err(e);
            },
        }
        i += 1;
    }
    proof {
        lemma_collect_all(rs, values_json(out@));
    }
    Ok(out)
}

/// The items of tool content that JSON values stand for, in order. The
/// first value that stands for none gives its `JsonError`.
pub fn decode_tool_contents(items: &Vec<Value>) -> (r: Result<Vec<ToolContent>, GenAiError>)
    ensures
        match tool_contents_read(values_json(items@)) {
            Ok(contents) => r matches Ok(v) && v@ == contents,
            Err(m) => r matches Err(e) && e@ == GenAiErrorView::JsonError(m),
        },
{
    let ghost rs = values_json(items@).map_values(|j: JsonView| tool_content_read(j));
    let mut out: Vec<ToolContent> = Vec::new();
    let mut i: usize = 0;
    while i < items.len()
        invariant
            i <= items.len(),
            out.len() == i,
            rs == values_json(items@).map_values(|j: JsonView| tool_content_read(j)),
            forall|k: int| 0 <= k < i ==> rs[k] == Ok::<ToolContent, Seq<char>>(out@[k]),
        decreases items.len() - i,
    {
        match decode_tool_content(&items[i]) {
            Ok(c) => {
                out.push(c);
            },
            Err(e) => {
                proof {
                    lemma_collect_first_error(rs, out@, i as int);
                }
                return Err(e);
            },
        }
        i += 1;
    }
    proof {
        lemma_collect_all(rs, out@);
    }
    Ok(out)
}

/// The JSON forms of tools, in order, as a request holds them. The first
/// tool that does not convert gives its `JsonError`.
pub fn encode_tools(tools: &Vec<Tool>) -> (r: Result<Vec<Value>, GenAiError>)
    ensures
        match tools_json(tools@) {
            Ok(forms) => r matches Ok(v) && values_json(v@) == forms,
            Err(m) => r matches Err(e) && e@ == GenAiErrorView::JsonError(m),
        },
{
    let ghost rs = tools@.map_values(|t: Tool| tool_json(t));
    let mut out: Vec<Value> = Vec::new();
    let mut i: usize = 0;
    while i < tools.len()
        invariant
            i <= tools.len(),
            out.len() == i,
            rs == tools@.map_values(|t: Tool| tool_json(t)),
            forall|k: int| 0 <= k < i ==> rs[k] == Ok::<JsonView, Seq<char>>(value_json(out@[k])),
        decreases tools.len() - i,
    {
        match encode_tool(&tools[i]) {
            Ok(v) => {
                out.push(v);
            },
            Err(e) => {
                proof {
                    lemma_collect_first_error(rs, values_json(out@), i as int);
                }
                return Err(e);
            },
        }
        i += 1;
    }
    proof {
        lemma_collect_all(rs, values_json(out@));
    }
    Ok(out)
}

/// The tools that JSON values stand for, in order: as many as there are
/// values. It succeeds exactly where every value reads as a tool, the empty
/// sequence too; otherwise the first value that does not gives `JsonError`
/// with its diagnostic.
pub fn decode_tools(items: &Vec<Value>) -> (r: Result<Vec<Tool>, GenAiError>)
    ensures
        match first_tool_failure(values_json(items@)) {
            None => r matches Ok(tools) && tools.len() == items.len(),
            Some(m) => r matches Err(e) && e@ == GenAiErrorView::JsonError(m),
        },
{
    let ghost rs = values_json(items@).map_values(|j: JsonView| tool_read_outcome(j));
    let mut out: Vec<Tool> = Vec::new();
    let mut i: usize = 0;
    while i < items.len()
        invariant
            i <= items.len(),
            out.len() == i,
            rs == values_json(items@).map_values(|j: JsonView| tool_read_outcome(j)),
            forall|k: int| 0 <= k < i ==> rs[k] == Ok::<(), Seq<char>>(()),
        decreases items.len() - i,
    {
        match decode_tool(&items[i]) {
            Ok(t) => {
                out.push(t);
            },
            Err(e) => {
                proof {
                    lemma_collect_first_error(rs, Seq::new(i as nat, |k: int| ()), i as int);
                }
                return Err(e);
            },
        }
        i += 1;
    }
    proof {
        lemma_collect_all(rs, Seq::new(i as nat, |k: int| ()));
    }
    Ok(out)
}

} // verus!
