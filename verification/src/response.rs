//! The response half of the completion envelope translator: the vendor
//! response collapses to its first choice (with a synthesized guard choice
//! for malformed responses), the choice's message converts back to the
//! generic shape, the finish reason maps to a stop reason, and usage counts
//! carry over. The error taxonomy of the executor lives here too, with a
//! verified rendering of each error as text.

use vstd::prelude::*;
use vstd::string::StringExecFns;
use crate::content::{MessageContent, MessageContentView, MessageRole};
use crate::convert::{
    MessageConverter, OpenAIContent, OpenAIMessage, OpenAIMessageView, OpenAIContentItemView,
    spec_from_openai,
};
use crate::strutil::{concat_strs, join_strings, spec_join, spec_u64_dec, str_eq, u64_to_string};

verus! {

broadcast use crate::convert::lemma_openai_content_views;

/// Token usage of one completion, in the generic model.
#[derive(Clone, Copy, Debug, PartialEq, Eq, Structural)]
pub struct Usage {
    pub input_tokens: u32,
    pub output_tokens: u32,
}

/// Token usage as the vendor reports it.
#[derive(Clone, Copy, Debug, PartialEq, Eq, Structural)]
pub struct OpenAIUsage {
    pub prompt_tokens: u32,
    pub completion_tokens: u32,
    pub total_tokens: u32,
}

impl OpenAIUsage {
    /// The vendor usage for a generic one; the total is recomputed from the
    /// two counts, never trusted.
    pub fn from_usage(usage: Usage) -> (r: Self)
        requires
            usage.input_tokens + usage.output_tokens <= u32::MAX,
        ensures
            r.prompt_tokens == usage.input_tokens,
            r.completion_tokens == usage.output_tokens,
            r.total_tokens == usage.input_tokens + usage.output_tokens,
    {
        OpenAIUsage {
            prompt_tokens: usage.input_tokens,
            completion_tokens: usage.output_tokens,
            total_tokens: usage.input_tokens + usage.output_tokens,
        }
    }
}

impl Usage {
    /// The generic usage for a vendor one: the two counts, with the wire
    /// total dropped rather than trusted.
    pub fn from_openai(usage: OpenAIUsage) -> (r: Self)
        ensures
            r.input_tokens == usage.prompt_tokens,
            r.output_tokens == usage.completion_tokens,
    {
        Usage { input_tokens: usage.prompt_tokens, output_tokens: usage.completion_tokens }
    }
}

/// Why the model stopped, in the generic model.
#[derive(Clone, Copy, Debug, PartialEq, Eq, Structural)]
pub enum StopReason {
    EndTurn,
    MaxTokens,
    ToolUse,
}

/// One choice of a vendor completion response.
#[derive(Debug, Clone, PartialEq, Eq)]
pub struct OpenAIChoice {
    pub index: u32,
    pub message: OpenAIMessage,
    /// Log-probability data, carried as raw JSON text when present.
    pub logprobs: Option<String>,
    pub finish_reason: String,
}

/// The mathematical value of an [`OpenAIChoice`].
#[verifier::ext_equal]
pub struct OpenAIChoiceView {
    pub index: u32,
    pub message: OpenAIMessageView,
    pub logprobs: Option<Seq<char>>,
    pub finish_reason: Seq<char>,
}

impl View for OpenAIChoice {
    type V = OpenAIChoiceView;

    open spec fn view(&self) -> OpenAIChoiceView {
        OpenAIChoiceView {
            index: self.index,
            message: self.message@,
            logprobs: self.logprobs.deep_view(),
            finish_reason: self.finish_reason@,
        }
    }
}

impl DeepView for OpenAIChoice {
    type V = OpenAIChoiceView;

    open spec fn deep_view(&self) -> OpenAIChoiceView {
        self.view()
    }
}

/// A vendor completion response.
#[derive(Debug, Clone, PartialEq, Eq)]
pub struct OpenAICompletionResponse {
    pub id: String,
    pub object: String,
    pub created: i64,
    pub model: String,
    pub choices: Vec<OpenAIChoice>,
    pub usage: OpenAIUsage,
    pub service_tier: Option<String>,
    pub system_fingerprint: Option<String>,
}

/// The mathematical value of an [`OpenAICompletionResponse`].
#[verifier::ext_equal]
pub struct OpenAICompletionResponseView {
    pub id: Seq<char>,
    pub object: Seq<char>,
    pub created: i64,
    pub model: Seq<char>,
    pub choices: Seq<OpenAIChoiceView>,
    pub usage: OpenAIUsage,
    pub service_tier: Option<Seq<char>>,
    pub system_fingerprint: Option<Seq<char>>,
}

impl View for OpenAICompletionResponse {
    type V = OpenAICompletionResponseView;

    open spec fn view(&self) -> OpenAICompletionResponseView {
        OpenAICompletionResponseView {
            id: self.id@,
            object: self.object@,
            created: self.created,
            model: self.model@,
            choices: self.choices.deep_view(),
            usage: self.usage,
            service_tier: self.service_tier.deep_view(),
            system_fingerprint: self.system_fingerprint.deep_view(),
        }
    }
}

impl DeepView for OpenAICompletionResponse {
    type V = OpenAICompletionResponseView;

    open spec fn deep_view(&self) -> OpenAICompletionResponseView {
        self.view()
    }
}

/// The generic completion response envelope.
#[derive(Debug, Clone, PartialEq, Eq)]
pub struct CompletionResponse {
    pub id: String,
    pub model: String,
    pub role: MessageRole,
    pub content: Vec<MessageContent>,
    pub stop_reason: StopReason,
    pub usage: Usage,
}

/// The mathematical value of a [`CompletionResponse`].
#[verifier::ext_equal]
pub struct CompletionResponseView {
    pub id: Seq<char>,
    pub model: Seq<char>,
    pub role: MessageRole,
    pub content: Seq<MessageContentView>,
    pub stop_reason: StopReason,
    pub usage: Usage,
}

impl View for CompletionResponse {
    type V = CompletionResponseView;

    open spec fn view(&self) -> CompletionResponseView {
        CompletionResponseView {
            id: self.id@,
            model: self.model@,
            role: self.role,
            content: self.content.deep_view(),
            stop_reason: self.stop_reason,
            usage: self.usage,
        }
    }
}

impl DeepView for CompletionResponse {
    type V = CompletionResponseView;

    open spec fn deep_view(&self) -> CompletionResponseView {
        self.view()
    }
}

/// The generic stop reason for a vendor finish reason: `"stop"` ends the
/// turn, `"length"` means the token limit, `"tool_calls"` means tool use,
/// and anything else — `"content_filter"` among them — is treated as an
/// ended turn rather than an error.
pub open spec fn spec_stop_reason(finish_reason: Seq<char>) -> StopReason {
    if finish_reason == "stop"@ {
        StopReason::EndTurn
    } else if finish_reason == "length"@ {
        StopReason::MaxTokens
    } else if finish_reason == "tool_calls"@ {
        StopReason::ToolUse
    } else {
        StopReason::EndTurn
    }
}

/// The guard choice synthesized when a malformed response carries no choice
/// at all: an assistant message reading `"No response"`, finished with
/// `"error"`.
pub open spec fn spec_default_choice() -> OpenAIChoiceView {
    OpenAIChoiceView {
        index: 0,
        message: OpenAIMessageView {
            role: "assistant"@,
            content: Some(seq![OpenAIContentItemView::Text { text: "No response"@ }]),
            tool_calls: None,
            tool_call_id: None,
            name: None,
            audio: None,
            refusal: None,
        },
        logprobs: None,
        finish_reason: "error"@,
    }
}

/// The generic response that a vendor response becomes: its first choice
/// (or the guard choice when none is present) converted back, the finish
/// reason mapped, and the usage counts carried over.
pub open spec fn spec_from_openai_response(
    resp: OpenAICompletionResponseView,
) -> CompletionResponseView {
    let choice = if resp.choices.len() > 0 {
        resp.choices[0]
    } else {
        spec_default_choice()
    };
    let message = spec_from_openai(choice.message);
    CompletionResponseView {
        id: resp.id,
        model: resp.model,
        role: message.role,
        content: message.content,
        stop_reason: spec_stop_reason(choice.finish_reason),
        usage: Usage {
            input_tokens: resp.usage.prompt_tokens,
            output_tokens: resp.usage.completion_tokens,
        },
    }
}

impl CompletionResponse {
    /// Translate a vendor completion response into the generic envelope.
    pub fn from_openai_response(response: OpenAICompletionResponse) -> (r: Self)
        ensures
            r@ == spec_from_openai_response(response@),
    {
        let ghost resp_view = response@;
        let OpenAICompletionResponse { id, model, usage, choices, .. } = response;
        let mut choices = choices;
        let choice: OpenAIChoice = if choices.len() > 0 {
            choices.remove(0)
        } else {
            OpenAIChoice {
                index: 0,
                message: OpenAIMessage {
                    role: String::from_str("assistant"),
                    content: Some(OpenAIContent::from_text(String::from_str("No response"))),
                    name: None,
                    tool_calls: None,
                    tool_call_id: None,
                    audio: None,
                    refusal: None,
                },
                logprobs: None,
                finish_reason: String::from_str("error"),
            }
        };
        proof {
            if resp_view.choices.len() > 0 {
                assert(choice@ == resp_view.choices[0]);
            } else {
                assert(choice@ =~~= spec_default_choice());
            }
        }
        let stop_reason = if str_eq(choice.finish_reason.as_str(), "stop") {
            StopReason::EndTurn
        } else if str_eq(choice.finish_reason.as_str(), "length") {
            StopReason::MaxTokens
        } else if str_eq(choice.finish_reason.as_str(), "tool_calls") {
            StopReason::ToolUse
        } else {
            StopReason::EndTurn
        };
        let message = MessageConverter::from_openai_message(choice.message);
        CompletionResponse {
            id,
            model,
            role: message.role,
            content: message.content,
            stop_reason,
            usage: Usage {
                input_tokens: usage.prompt_tokens,
                output_tokens: usage.completion_tokens,
            },
        }
    }
}

/// What can go wrong while executing a call against the vendor API.
#[derive(Debug, Clone, PartialEq, Eq)]
pub enum OpenAIError {
    /// Network failure: no response was obtained at all, after exhausting
    /// the retry budget.
    HttpError(String),
    /// Malformed request or response JSON.
    SerializationError(String),
    /// A non-2xx status other than the specially handled ones.
    ApiError { status: u16, message: String },
    /// HTTP 401.
    AuthenticationError(String),
    /// HTTP 429, optionally carrying a retry-after hint in seconds.
    RateLimitExceeded { retry_after: Option<u64> },
    /// A 200 response whose body is missing or unusable.
    InvalidResponse(String),
    /// The requested model is not in the catalog.
    UnsupportedModel { requested: String, suggestions: Vec<String> },
}

/// The mathematical value of an [`OpenAIError`].
#[verifier::ext_equal]
pub enum OpenAIErrorView {
    HttpError(Seq<char>),
    SerializationError(Seq<char>),
    ApiError { status: u16, message: Seq<char> },
    AuthenticationError(Seq<char>),
    RateLimitExceeded { retry_after: Option<u64> },
    InvalidResponse(Seq<char>),
    UnsupportedModel { requested: Seq<char>, suggestions: Seq<Seq<char>> },
}

impl View for OpenAIError {
    type V = OpenAIErrorView;

    open spec fn view(&self) -> OpenAIErrorView {
        match self {
            OpenAIError::HttpError(m) => OpenAIErrorView::HttpError(m@),
            OpenAIError::SerializationError(m) => OpenAIErrorView::SerializationError(m@),
            OpenAIError::ApiError { status, message } => OpenAIErrorView::ApiError {
                status: *status,
                message: message@,
            },
            OpenAIError::AuthenticationError(m) => OpenAIErrorView::AuthenticationError(m@),
            OpenAIError::RateLimitExceeded { retry_after } => OpenAIErrorView::RateLimitExceeded {
                retry_after: *retry_after,
            },
            OpenAIError::InvalidResponse(m) => OpenAIErrorView::InvalidResponse(m@),
            OpenAIError::UnsupportedModel { requested, suggestions } => {
                OpenAIErrorView::UnsupportedModel {
                    requested: requested@,
                    suggestions: suggestions.deep_view(),
                }
            },
        }
    }
}

impl DeepView for OpenAIError {
    type V = OpenAIErrorView;

    open spec fn deep_view(&self) -> OpenAIErrorView {
        self.view()
    }
}

/// The text of an error, one line per kind.
pub open spec fn spec_error_message(e: OpenAIErrorView) -> Seq<char> {
    match e {
        OpenAIErrorView::HttpError(m) => "HTTP error: "@ + m,
        OpenAIErrorView::SerializationError(m) => "Serialization error: "@ + m,
        OpenAIErrorView::ApiError { status, message } => "API error "@ + spec_u64_dec(
            status as nat,
        ) + ": "@ + message,
        OpenAIErrorView::AuthenticationError(m) => "Authentication error: "@ + m,
        OpenAIErrorView::RateLimitExceeded { retry_after } => match retry_after {
            Some(seconds) => "Rate limit exceeded, retry after "@ + spec_u64_dec(seconds as nat)
                + " seconds"@,
            None => "Rate limit exceeded"@,
        },
        OpenAIErrorView::InvalidResponse(m) => "Invalid response: "@ + m,
        OpenAIErrorView::UnsupportedModel { requested, suggestions } => "Unsupported model '"@
            + requested + "'. "@ + (if suggestions.len() > 0 {
            "Did you mean one of: "@ + spec_join(suggestions, ", "@) + "?"@
        } else {
            "Please check the available models list."@
        }),
    }
}

impl OpenAIError {
    /// Render the error as one line of text.
    pub fn message(&self) -> (r: String)
        ensures
            r@ == spec_error_message(self@),
    {
        match self {
            OpenAIError::HttpError(m) => concat_strs("HTTP error: ", m.as_str()),
            OpenAIError::SerializationError(m) => concat_strs("Serialization error: ", m.as_str()),
            OpenAIError::ApiError { status, message } => {
                let mut r = concat_strs("API error ", u64_to_string(*status as u64).as_str());
                r.append(": ");
                r.append(message.as_str());
                r
            },
            OpenAIError::AuthenticationError(m) => concat_strs(
                "Authentication error: ",
                m.as_str(),
            ),
            OpenAIError::RateLimitExceeded { retry_after } => match retry_after {
                Some(seconds) => {
                    let mut r = concat_strs(
                        "Rate limit exceeded, retry after ",
                        u64_to_string(*seconds).as_str(),
                    );
                    r.append(" seconds");
                    r
                },
                None => String::from_str("Rate limit exceeded"),
            },
            OpenAIError::InvalidResponse(m) => concat_strs("Invalid response: ", m.as_str()),
            OpenAIError::UnsupportedModel { requested, suggestions } => {
                let mut r = concat_strs("Unsupported model '", requested.as_str());
                r.append("'. ");
                if suggestions.len() > 0 {
                    r.append("Did you mean one of: ");
                    r.append(join_strings(suggestions, ", ").as_str());
                    r.append("?");
                } else {
                    r.append("Please check the available models list.");
                }
                r
            },
        }
    }
}

} // verus!
