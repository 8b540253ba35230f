//! Request and response vocabulary of an Anthropic-style completion API and
//! of the proxy that forwards it, together with its JSON wire form.
//!
//! Every type has a mathematical view, a wire form stated over JSON values,
//! an `encode` and a `decode` that are verified against it, and a proof that
//! decoding what was encoded gives the value back.

pub mod completion;
pub mod errors;
pub mod json;
pub mod messages;
pub mod models;
pub mod proxy;
pub mod text;
pub mod tool_choice;
pub mod tools;
pub mod wire;

pub use completion::{CompletionRequest, CompletionResponse, StopReason, Usage};
pub use errors::GenAiError;
pub use messages::{Message, MessageContent, Role};
pub use models::{ModelInfo, ModelPricing};
pub use proxy::{ProxyRequest, ProxyResponse};
pub use tool_choice::ToolChoice;
