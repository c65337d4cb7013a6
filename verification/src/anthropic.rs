//! The Anthropic messages protocol, as far as it is a mapping of values:
//! how a conversation becomes a request, and a response a reply. Sending
//! the request is left to the caller.

use crate::config::ResolvedLlmConfig;
use crate::context::{capped_sum, Usage};
use crate::effects::{LlmResponse, ResponseView};
use crate::json::clone_json;
use crate::message::{
    messages_view, ContentView, FinishReason, FinishReasonView, LlmMessage, MessageRole,
    MessageView,
};
use crate::text::{opt_view, same_text, strings_view};
use std::collections::HashMap;
use vstd::prelude::*;
use vstd::string::*;

verus! {

/// Why a model call failed.
#[derive(Debug)]
pub enum LlmError {
    /// The credential is missing or was refused.
    Authentication { message: String },
    /// The request did not get through, or the answer could not be read.
    Network { message: String },
    /// The remote side rejected the request.
    ApiError { status: u16, message: String },
    /// The request is not one this client can send.
    InvalidRequest { message: String },
}

/// Model of an [`LlmError`].
pub ghost enum LlmErrorView {
    Authentication { message: Seq<char> },
    Network { message: Seq<char> },
    ApiError { status: u16, message: Seq<char> },
    InvalidRequest { message: Seq<char> },
}

impl View for LlmError {
    type V = LlmErrorView;

    open spec fn view(&self) -> LlmErrorView {
        match *self {
            LlmError::Authentication { message } => LlmErrorView::Authentication {
                message: message@,
            },
            LlmError::Network { message } => LlmErrorView::Network { message: message@ },
            LlmError::ApiError { status, message } => LlmErrorView::ApiError {
                status,
                message: message@,
            },
            LlmError::InvalidRequest { message } => LlmErrorView::InvalidRequest {
                message: message@,
            },
        }
    }
}

/// The schema of a function the model may call.
#[derive(Debug)]
pub struct FunctionDefinition {
    pub name: String,
    pub description: String,
    pub parameters: serde_json::Value,
}

/// Model of a [`FunctionDefinition`].
pub ghost struct FunctionView {
    pub name: Seq<char>,
    pub description: Seq<char>,
    pub parameters: serde_json::Value,
}

impl View for FunctionDefinition {
    type V = FunctionView;

    open spec fn view(&self) -> FunctionView {
        FunctionView {
            name: self.name@,
            description: self.description@,
            parameters: self.parameters,
        }
    }
}

impl Clone for FunctionDefinition {
    fn clone(&self) -> (r: Self)
        ensures
            r@ == self@,
    {
        FunctionDefinition {
            name: self.name.clone(),
            description: self.description.clone(),
            parameters: clone_json(&self.parameters),
        }
    }
}

/// A tool offered to the model.
#[derive(Debug)]
pub struct ToolDefinition {
    pub tool_type: String,
    pub function: FunctionDefinition,
}

/// The function schemas of a list of tools, in order.
pub open spec fn functions_of(tools: Seq<ToolDefinition>) -> Seq<FunctionView> {
    tools.map_values(|t: ToolDefinition| t.function@)
}

/// The models of a list of function schemas, in order.
pub open spec fn functions_view(functions: Seq<FunctionDefinition>) -> Seq<FunctionView> {
    functions.map_values(|f: FunctionDefinition| f@)
}

/// Options of one model call that the request carries as whole numbers
/// or text.
#[derive(Debug)]
pub struct ChatOptions {
    pub max_tokens: Option<u32>,
    pub stop: Option<Vec<String>>,
}

impl Default for ChatOptions {
    fn default() -> (r: Self)
        ensures
            r.max_tokens.is_none(),
            r.stop.is_none(),
    {
        ChatOptions { max_tokens: None, stop: None }
    }
}

/// The number of tokens asked for when the options name none.
pub const DEFAULT_MAX_TOKENS: u32 = 4096;

/// The body of a request, but for the sampling temperature.
#[derive(Debug)]
pub struct AnthropicRequest {
    pub model: String,
    pub max_tokens: u32,
    pub system: Option<String>,
    pub messages: Vec<LlmMessage>,
    pub tools: Option<Vec<FunctionDefinition>>,
    pub stop_sequences: Option<Vec<String>>,
}

/// Model of an [`AnthropicRequest`].
pub ghost struct RequestBodyView {
    pub model: Seq<char>,
    pub max_tokens: u32,
    pub system: Option<Seq<char>>,
    pub messages: Seq<MessageView>,
    pub tools: Option<Seq<FunctionView>>,
    pub stop_sequences: Option<Seq<Seq<char>>>,
}

impl View for AnthropicRequest {
    type V = RequestBodyView;

    open spec fn view(&self) -> RequestBodyView {
        RequestBodyView {
            model: self.model@,
            max_tokens: self.max_tokens,
            system: opt_view(self.system),
            messages: messages_view(self.messages@),
            tools: match self.tools {
                Some(t) => Some(functions_view(t@)),
                None => None,
            },
            stop_sequences: match self.stop_sequences {
                Some(s) => Some(strings_view(s@)),
                None => None,
            },
        }
    }
}

/// One block of a response.
#[derive(Debug)]
pub struct AnthropicContent {
    pub content_type: String,
    pub text: String,
}

/// The token counts of a response.
#[derive(Debug, Clone, Copy, PartialEq, Eq, Structural)]
pub struct AnthropicUsage {
    pub input_tokens: u32,
    pub output_tokens: u32,
}

/// The body of a response.
#[derive(Debug)]
pub struct AnthropicResponse {
    pub id: String,
    pub model: String,
    pub response_type: String,
    pub role: String,
    pub content: Vec<AnthropicContent>,
    pub stop_reason: String,
    pub stop_sequence: Option<String>,
    pub usage: Option<AnthropicUsage>,
}

/// The system text of a conversation: the text of its last system
/// message that has any.
pub open spec fn system_text(messages: Seq<MessageView>) -> Option<Seq<char>>
    decreases messages.len(),
{
    if messages.len() == 0 {
        None
    } else if messages.last().role == MessageRole::System && messages.last().text().is_some() {
        messages.last().text()
    } else {
        system_text(messages.drop_last())
    }
}

/// The messages of a conversation that are not system messages, in order.
pub open spec fn conversation(messages: Seq<MessageView>) -> Seq<MessageView>
    decreases messages.len(),
{
    if messages.len() == 0 {
        Seq::empty()
    } else if messages.last().role == MessageRole::System {
        conversation(messages.drop_last())
    } else {
        conversation(messages.drop_last()).push(messages.last())
    }
}

/// The finish reason that a stop reason of the protocol stands for.
pub open spec fn finish_reason_of(stop_reason: Seq<char>) -> FinishReasonView {
    if stop_reason == "end_turn"@ {
        FinishReasonView::Stop
    } else if stop_reason == "max_tokens"@ {
        FinishReasonView::Length
    } else if stop_reason == "tool_use"@ {
        FinishReasonView::ToolCalls
    } else {
        FinishReasonView::Other(stop_reason)
    }
}

/// Whether an HTTP status reports success.
pub open spec fn is_success(status: u16) -> bool {
    200 <= status <= 299
}

/// A client of the Anthropic messages protocol.
#[derive(Debug)]
pub struct AnthropicClient {
    api_key: String,
    base_url: String,
    model: String,
    headers: HashMap<String, String>,
}

impl AnthropicClient {
    /// The name of the model the client asks for.
    pub closed spec fn model(&self) -> Seq<char> {
        self.model@
    }

    /// The credential the client presents.
    pub closed spec fn key(&self) -> Seq<char> {
        self.api_key@
    }

    /// The address of the endpoint.
    pub closed spec fn url(&self) -> Seq<char> {
        self.base_url@
    }

    /// A client for the given endpoint. An endpoint without a credential
    /// is refused.
    pub fn new(config: &ResolvedLlmConfig) -> (r: Result<Self, LlmError>)
        ensures
            r.is_err() == (config@.api_key.len() == 0),
            r.is_err() ==> r.unwrap_err()@ == (LlmErrorView::Authentication {
                message: "No API key found for Anthropic"@,
            }),
            r.is_ok() ==> r.unwrap().model() == config@.model && r.unwrap().key()
                == config@.api_key && r.unwrap().url() == config@.base_url,
    {
        if config.api_key.as_str().unicode_len() == 0 {
            return Err(
                LlmError::Authentication { message: "No API key found for Anthropic".to_owned() },
            );
        }
        Ok(
            AnthropicClient {
                api_key: config.api_key.clone(),
                base_url: config.base_url.clone(),
                model: config.model.clone(),
                headers: config.headers.clone(),
            },
        )
    }

    /// The name of the model the client asks for.
    pub fn model_name(&self) -> (r: &str)
        ensures
            r@ == self.model(),
    {
        self.model.as_str()
    }

    /// The name of the provider.
    pub fn provider_name(&self) -> (r: &'static str)
        ensures
            r@ == "anthropic"@,
    {
        "anthropic"
    }

    /// Whether the protocol can stream its answers.
    pub fn supports_streaming(&self) -> (r: bool)
        ensures
            r,
    {
        true
    }

    /// The credential the client presents.
    pub fn api_key(&self) -> (r: &str)
        ensures
            r@ == self.key(),
    {
        self.api_key.as_str()
    }

    /// The address requests are posted to.
    pub fn endpoint(&self) -> (r: String)
        ensures
            r@ == self.url() + "/v1/messages"@,
    {
        let mut out = self.base_url.clone();
        out.append("/v1/messages");
        out
    }

    /// Streaming is not offered yet.
    pub fn chat_completion_stream(&self) -> (r: LlmError)
        ensures
            r@ == (LlmErrorView::InvalidRequest {
                message: "Streaming not yet implemented for Anthropic"@,
            }),
    {
        LlmError::InvalidRequest {
            message: "Streaming not yet implemented for Anthropic".to_owned(),
        }
    }

    /// Builds the body of a request: the system messages become the
    /// system text, the others the conversation, the tools their function
    /// schemas.
    pub fn build_request(
        &self,
        messages: Vec<LlmMessage>,
        tools: Option<Vec<ToolDefinition>>,
        options: Option<ChatOptions>,
    ) -> (r: AnthropicRequest)
        ensures
            r@ == (RequestBodyView {
                model: self.model(),
                max_tokens: match options {
                    Some(ChatOptions { max_tokens: Some(n), .. }) => n,
                    _ => DEFAULT_MAX_TOKENS,
                },
                system: system_text(messages_view(messages@)),
                messages: conversation(messages_view(messages@)),
                tools: match tools {
                    Some(t) => Some(functions_of(t@)),
                    None => None,
                },
                stop_sequences: match options {
                    Some(ChatOptions { stop: Some(s), .. }) => Some(strings_view(s@)),
                    _ => None,
                },
            }),
    {
        let options = match options {
            Some(o) => o,
            None => ChatOptions::default(),
        };
        let ghost all = messages_view(messages@);
        let mut system: Option<String> = None;
        let mut kept: Vec<LlmMessage> = Vec::new();
        let mut i: usize = 0;
        assert(all.subrange(0, 0) =~= Seq::empty());
        assert(messages_view(kept@) =~= Seq::empty());
        while i < messages.len()
            invariant
                i <= messages.len(),
                all == messages_view(messages@),
                opt_view(system) == system_text(all.subrange(0, i as int)),
                messages_view(kept@) == conversation(all.subrange(0, i as int)),
            decreases messages.len() - i,
        {
            proof {
                assert(all.subrange(0, i + 1).drop_last() =~= all.subrange(0, i as int));
                assert(all.subrange(0, i + 1).last() == messages@[i as int]@);
            }
            match messages[i].role {
                MessageRole::System => {
                    let text = messages[i].get_text();
                    match text {
                        Some(t) => {
                            system = Some(t);
                        },
                        None => {},
                    }
                },
                _ => {
                    let ghost prior = kept@;
                    kept.push(messages[i].clone());
                    assert(messages_view(kept@) =~= messages_view(prior).push(
                        messages@[i as int]@,
                    ));
                },
            }
            i += 1;
        }
        assert(all.subrange(0, i as int) =~= all);
        let max_tokens = match options.max_tokens {
            Some(n) => n,
            None => DEFAULT_MAX_TOKENS,
        };
        let functions = match tools {
            Some(list) => {
                let mut out: Vec<FunctionDefinition> = Vec::new();
                let mut k: usize = 0;
                assert(functions_view(out@) =~= functions_of(list@).subrange(0, 0));
                while k < list.len()
                    invariant
                        k <= list.len(),
                        functions_view(out@) == functions_of(list@).subrange(0, k as int),
                    decreases list.len() - k,
                {
                    let ghost prior = out@;
                    out.push(list[k].function.clone());
                    assert(functions_view(out@) =~= functions_view(prior).push(
                        list@[k as int].function@,
                    ));
                    assert(functions_view(out@) =~= functions_of(list@).subrange(0, k + 1));
                    k += 1;
                }
                assert(functions_of(list@).subrange(0, k as int) =~= functions_of(list@));
                Some(out)
            },
            None => None,
        };
        AnthropicRequest {
            model: self.model.clone(),
            max_tokens,
            system,
            messages: kept,
            tools: functions,
            stop_sequences: options.stop,
        }
    }

    /// Turns a response into a reply: the text of the first block, the
    /// token counts with their sum, and the finish reason.
    pub fn convert_response(&self, response: AnthropicResponse) -> (r: LlmResponse)
        ensures
            r@ == (ResponseView {
                message: MessageView {
                    role: MessageRole::Assistant,
                    content: ContentView::Text(
                        if response.content@.len() > 0 {
                            response.content@[0].text@
                        } else {
                            Seq::empty()
                        },
                    ),
                    metadata: None,
                },
                usage: match response.usage {
                    Some(u) => Some(
                        Usage {
                            prompt_tokens: u.input_tokens,
                            completion_tokens: u.output_tokens,
                            total_tokens: capped_sum(u.input_tokens, u.output_tokens),
                        },
                    ),
                    None => None,
                },
                model: response.model@,
                finish_reason: Some(finish_reason_of(response.stop_reason@)),
            }),
    {
        let message = if response.content.len() > 0 {
            LlmMessage::assistant(response.content[0].text.as_str())
        } else {
            LlmMessage::assistant("")
        };
        proof {
            reveal_strlit("");
            assert(""@ =~= Seq::<char>::empty());
        }
        let usage = match response.usage {
            Some(u) => Some(
                Usage {
                    prompt_tokens: u.input_tokens,
                    completion_tokens: u.output_tokens,
                    total_tokens: u.input_tokens.saturating_add(u.output_tokens),
                },
            ),
            None => None,
        };
        let stop = response.stop_reason.as_str();
        let finish_reason = if same_text(stop, "end_turn") {
            FinishReason::Stop
        } else if same_text(stop, "max_tokens") {
            FinishReason::Length
        } else if same_text(stop, "tool_use") {
            FinishReason::ToolCalls
        } else {
            FinishReason::Other(response.stop_reason.clone())
        };
        LlmResponse { message, usage, model: response.model, finish_reason: Some(finish_reason) }
    }

    /// The error for a request that did not get through.
    pub fn transport_failure(detail: &str) -> (r: LlmError)
        ensures
            r@ == (LlmErrorView::Network { message: detail@ }),
    {
        LlmError::Network { message: detail.to_owned() }
    }

    /// The error for an answer that could not be read.
    pub fn parse_failure(detail: &str) -> (r: LlmError)
        ensures
            r@ == (LlmErrorView::Network { message: "Failed to parse response: "@ + detail@ }),
    {
        let mut message = "Failed to parse response: ".to_owned();
        message.append(detail);
        LlmError::Network { message }
    }

    /// The outcome of a request that got an answer: its body on success,
    /// and otherwise the status and the body as an error.
    pub fn check_status(status: u16, body: String) -> (r: Result<String, LlmError>)
        ensures
            r.is_ok() == is_success(status),
            r.is_ok() ==> r.unwrap()@ == body@,
            r.is_err() ==> r.unwrap_err()@ == (LlmErrorView::ApiError { status, message: body@ }),
    {
        if 200 <= status && status <= 299 {
            Ok(body)
        } else {
            Err(LlmError::ApiError { status, message: body })
        }
    }
}

} // verus!
