//! The request half of the completion envelope translator: the generic
//! completion request becomes the vendor request shape (system prompt
//! prepended as a system message, tool definitions becoming vendor
//! "function" tools, the tool-choice policy mapped), and the vendor request
//! serializes into a wire value under the configured content format.
//!
//! Sampling parameters with two decimal places (temperature and friends)
//! are carried in hundredths, keeping the model free of floating point.

use vstd::prelude::*;
use vstd::string::StringExecFns;
use crate::content::Message;
use crate::convert::{
    MessageConverter, OpenAIMessage, OpenAIMessageView, spec_message_json, spec_to_openai,
    spec_tool_arguments, reencode_json_bytes,
};
use crate::jsonval::{
    JsonValue, JsonView, json_view, json_view_fields, json_view_seq, lemma_json_view_fields_all,
    lemma_json_view_seq_all,
};
use crate::state::ContentFormat;

verus! {

broadcast use crate::convert::lemma_openai_content_views;


/// A tool made available to the model: a name, an optional description, and
/// its JSON-schema parameters as opaque bytes.
#[derive(Debug, Clone, PartialEq, Eq)]
pub struct ToolDefinition {
    pub name: String,
    pub description: Option<String>,
    pub input_schema: Vec<u8>,
}

/// The mathematical value of a [`ToolDefinition`].
#[verifier::ext_equal]
pub struct ToolDefinitionView {
    pub name: Seq<char>,
    pub description: Option<Seq<char>>,
    pub input_schema: Seq<u8>,
}

impl View for ToolDefinition {
    type V = ToolDefinitionView;

    open spec fn view(&self) -> ToolDefinitionView {
        ToolDefinitionView {
            name: self.name@,
            description: self.description.deep_view(),
            input_schema: self.input_schema@,
        }
    }
}

impl DeepView for ToolDefinition {
    type V = ToolDefinitionView;

    open spec fn deep_view(&self) -> ToolDefinitionView {
        self.view()
    }
}

/// The caller's tool-choice policy.
#[derive(Debug, Clone, PartialEq, Eq)]
pub enum ToolChoice {
    /// The model decides whether to call a tool.
    Auto,
    /// The model must call some tool.
    Any,
    /// The model must not call a tool.
    NoTool,
    /// The model must call this tool.
    Tool { name: String },
}

/// The mathematical value of a [`ToolChoice`].
#[verifier::ext_equal]
pub enum ToolChoiceView {
    Auto,
    Any,
    NoTool,
    Tool { name: Seq<char> },
}

impl View for ToolChoice {
    type V = ToolChoiceView;

    open spec fn view(&self) -> ToolChoiceView {
        match self {
            ToolChoice::Auto => ToolChoiceView::Auto,
            ToolChoice::Any => ToolChoiceView::Any,
            ToolChoice::NoTool => ToolChoiceView::NoTool,
            ToolChoice::Tool { name } => ToolChoiceView::Tool { name: name@ },
        }
    }
}

impl DeepView for ToolChoice {
    type V = ToolChoiceView;

    open spec fn deep_view(&self) -> ToolChoiceView {
        self.view()
    }
}

/// The generic completion request envelope.
#[derive(Debug, Clone, PartialEq, Eq)]
pub struct CompletionRequest {
    pub model: String,
    pub messages: Vec<Message>,
    /// A system prompt, prepended as a system-role message.
    pub system: Option<String>,
    pub max_tokens: u32,
    /// Sampling temperature in hundredths: `70` stands for `0.7`.
    pub temperature: Option<u32>,
    pub tools: Option<Vec<ToolDefinition>>,
    pub tool_choice: Option<ToolChoice>,
}

/// The mathematical value of a [`CompletionRequest`].
#[verifier::ext_equal]
pub struct CompletionRequestView {
    pub model: Seq<char>,
    pub messages: Seq<crate::content::MessageView>,
    pub system: Option<Seq<char>>,
    pub max_tokens: u32,
    pub temperature: Option<u32>,
    pub tools: Option<Seq<ToolDefinitionView>>,
    pub tool_choice: Option<ToolChoiceView>,
}

impl View for CompletionRequest {
    type V = CompletionRequestView;

    open spec fn view(&self) -> CompletionRequestView {
        CompletionRequestView {
            model: self.model@,
            messages: self.messages.deep_view(),
            system: self.system.deep_view(),
            max_tokens: self.max_tokens,
            temperature: self.temperature,
            tools: self.tools.deep_view(),
            tool_choice: self.tool_choice.deep_view(),
        }
    }
}

impl DeepView for CompletionRequest {
    type V = CompletionRequestView;

    open spec fn deep_view(&self) -> CompletionRequestView {
        self.view()
    }
}

/// A vendor tool definition's function part: name, optional description,
/// and the JSON-schema parameters as canonical JSON text.
#[derive(Debug, Clone, PartialEq, Eq)]
pub struct OpenAIToolFunction {
    pub name: String,
    pub description: Option<String>,
    pub parameters: String,
}

/// The mathematical value of an [`OpenAIToolFunction`].
#[verifier::ext_equal]
pub struct OpenAIToolFunctionView {
    pub name: Seq<char>,
    pub description: Option<Seq<char>>,
    pub parameters: Seq<char>,
}

impl View for OpenAIToolFunction {
    type V = OpenAIToolFunctionView;

    open spec fn view(&self) -> OpenAIToolFunctionView {
        OpenAIToolFunctionView {
            name: self.name@,
            description: self.description.deep_view(),
            parameters: self.parameters@,
        }
    }
}

impl DeepView for OpenAIToolFunction {
    type V = OpenAIToolFunctionView;

    open spec fn deep_view(&self) -> OpenAIToolFunctionView {
        self.view()
    }
}

/// One vendor tool definition.
#[derive(Debug, Clone, PartialEq, Eq)]
pub struct OpenAITool {
    pub tool_type: String,
    pub function: OpenAIToolFunction,
}

/// The mathematical value of an [`OpenAITool`].
#[verifier::ext_equal]
pub struct OpenAIToolView {
    pub tool_type: Seq<char>,
    pub function: OpenAIToolFunctionView,
}

impl View for OpenAITool {
    type V = OpenAIToolView;

    open spec fn view(&self) -> OpenAIToolView {
        OpenAIToolView { tool_type: self.tool_type@, function: self.function@ }
    }
}

impl DeepView for OpenAITool {
    type V = OpenAIToolView;

    open spec fn deep_view(&self) -> OpenAIToolView {
        self.view()
    }
}

/// The vendor tool-choice policy as it goes on the wire.
#[derive(Debug, Clone, PartialEq, Eq)]
pub enum OpenAIToolChoice {
    /// The wire string `"auto"`.
    Auto,
    /// The wire string `"required"`.
    Required,
    /// The wire string `"none"`.
    Disabled,
    /// The wire object naming one function.
    Function { name: String },
}

/// The mathematical value of an [`OpenAIToolChoice`].
#[verifier::ext_equal]
pub enum OpenAIToolChoiceView {
    Auto,
    Required,
    Disabled,
    Function { name: Seq<char> },
}

impl View for OpenAIToolChoice {
    type V = OpenAIToolChoiceView;

    open spec fn view(&self) -> OpenAIToolChoiceView {
        match self {
            OpenAIToolChoice::Auto => OpenAIToolChoiceView::Auto,
            OpenAIToolChoice::Required => OpenAIToolChoiceView::Required,
            OpenAIToolChoice::Disabled => OpenAIToolChoiceView::Disabled,
            OpenAIToolChoice::Function { name } => OpenAIToolChoiceView::Function { name: name@ },
        }
    }
}

impl DeepView for OpenAIToolChoice {
    type V = OpenAIToolChoiceView;

    open spec fn deep_view(&self) -> OpenAIToolChoiceView {
        self.view()
    }
}

/// Input audio for audio-capable models: base64-encoded data and its
/// format.
#[derive(Debug, Clone, PartialEq, Eq)]
pub struct OpenAIInputAudio {
    pub data: String,
    pub format: String,
}

/// The mathematical value of an [`OpenAIInputAudio`].
#[verifier::ext_equal]
pub struct OpenAIInputAudioView {
    pub data: Seq<char>,
    pub format: Seq<char>,
}

impl View for OpenAIInputAudio {
    type V = OpenAIInputAudioView;

    open spec fn view(&self) -> OpenAIInputAudioView {
        OpenAIInputAudioView { data: self.data@, format: self.format@ }
    }
}

impl DeepView for OpenAIInputAudio {
    type V = OpenAIInputAudioView;

    open spec fn deep_view(&self) -> OpenAIInputAudioView {
        self.view()
    }
}

/// The vendor completion request shape.
#[derive(Debug, Clone, PartialEq, Eq)]
pub struct OpenAICompletionRequest {
    pub model: String,
    pub messages: Vec<OpenAIMessage>,
    pub max_tokens: Option<u32>,
    /// Sampling temperature in hundredths: `70` stands for `0.7`.
    pub temperature: Option<u32>,
    /// Nucleus sampling parameter in hundredths.
    pub top_p: Option<u32>,
    /// Frequency penalty in hundredths; may be negative.
    pub frequency_penalty: Option<i32>,
    /// Presence penalty in hundredths; may be negative.
    pub presence_penalty: Option<i32>,
    pub stop: Option<Vec<String>>,
    pub stream: Option<bool>,
    pub tools: Option<Vec<OpenAITool>>,
    pub tool_choice: Option<OpenAIToolChoice>,
}

/// The mathematical value of an [`OpenAICompletionRequest`].
#[verifier::ext_equal]
pub struct OpenAICompletionRequestView {
    pub model: Seq<char>,
    pub messages: Seq<OpenAIMessageView>,
    pub max_tokens: Option<u32>,
    pub temperature: Option<u32>,
    pub top_p: Option<u32>,
    pub frequency_penalty: Option<i32>,
    pub presence_penalty: Option<i32>,
    pub stop: Option<Seq<Seq<char>>>,
    pub stream: Option<bool>,
    pub tools: Option<Seq<OpenAIToolView>>,
    pub tool_choice: Option<OpenAIToolChoiceView>,
}

impl View for OpenAICompletionRequest {
    type V = OpenAICompletionRequestView;

    open spec fn view(&self) -> OpenAICompletionRequestView {
        OpenAICompletionRequestView {
            model: self.model@,
            messages: self.messages.deep_view(),
            max_tokens: self.max_tokens,
            temperature: self.temperature,
            top_p: self.top_p,
            frequency_penalty: self.frequency_penalty,
            presence_penalty: self.presence_penalty,
            stop: self.stop.deep_view(),
            stream: self.stream,
            tools: self.tools.deep_view(),
            tool_choice: self.tool_choice.deep_view(),
        }
    }
}

impl DeepView for OpenAICompletionRequest {
    type V = OpenAICompletionRequestView;

    open spec fn deep_view(&self) -> OpenAICompletionRequestView {
        self.view()
    }
}

/// The synthesized system-role message carrying the system prompt.
pub open spec fn spec_system_message(system: Seq<char>) -> OpenAIMessageView {
    OpenAIMessageView {
        role: "system"@,
        content: Some(seq![crate::convert::OpenAIContentItemView::Text { text: system }]),
        tool_calls: None,
        tool_call_id: None,
        name: None,
        audio: None,
        refusal: None,
    }
}

/// Each generic message converted to the vendor shape, in order.
pub open spec fn spec_messages_to_openai(msgs: Seq<crate::content::MessageView>) -> Seq<
    OpenAIMessageView,
>
    decreases msgs.len(),
{
    if msgs.len() == 0 {
        Seq::empty()
    } else {
        spec_messages_to_openai(msgs.drop_last()).push(spec_to_openai(msgs.last()))
    }
}

proof fn lemma_messages_to_openai_pointwise(msgs: Seq<crate::content::MessageView>)
    ensures
        spec_messages_to_openai(msgs).len() == msgs.len(),
        forall|i: int|
            0 <= i < msgs.len() ==> #[trigger] spec_messages_to_openai(msgs)[i] == spec_to_openai(
                msgs[i],
            ),
    decreases msgs.len(),
{
    if msgs.len() > 0 {
        lemma_messages_to_openai_pointwise(msgs.drop_last());
    }
}

/// One tool definition in the vendor shape: a `"function"` tool whose
/// parameters are the schema bytes re-encoded as JSON text, degrading to
/// the empty object when the schema is not JSON.
pub open spec fn spec_tool_to_openai(t: ToolDefinitionView) -> OpenAIToolView {
    OpenAIToolView {
        tool_type: "function"@,
        function: OpenAIToolFunctionView {
            name: t.name,
            description: t.description,
            parameters: spec_tool_arguments(t.input_schema),
        },
    }
}

/// Each tool definition converted to the vendor shape, in order.
pub open spec fn spec_tools_to_openai(ts: Seq<ToolDefinitionView>) -> Seq<OpenAIToolView>
    decreases ts.len(),
{
    if ts.len() == 0 {
        Seq::empty()
    } else {
        spec_tools_to_openai(ts.drop_last()).push(spec_tool_to_openai(ts.last()))
    }
}

proof fn lemma_tools_to_openai_pointwise(ts: Seq<ToolDefinitionView>)
    ensures
        spec_tools_to_openai(ts).len() == ts.len(),
        forall|i: int|
            0 <= i < ts.len() ==> #[trigger] spec_tools_to_openai(ts)[i] == spec_tool_to_openai(
                ts[i],
            ),
    decreases ts.len(),
{
    if ts.len() > 0 {
        lemma_tools_to_openai_pointwise(ts.drop_last());
    }
}

/// The vendor tool-choice for a generic policy: `Auto` maps to `"auto"`,
/// `Any` to `"required"`, `NoTool` to `"none"`, and a named tool to the
/// function-naming object.
pub open spec fn spec_tool_choice_to_openai(tc: ToolChoiceView) -> OpenAIToolChoiceView {
    match tc {
        ToolChoiceView::Auto => OpenAIToolChoiceView::Auto,
        ToolChoiceView::Any => OpenAIToolChoiceView::Required,
        ToolChoiceView::NoTool => OpenAIToolChoiceView::Disabled,
        ToolChoiceView::Tool { name } => OpenAIToolChoiceView::Function { name },
    }
}

/// The vendor request that a generic request becomes: messages converted in
/// order behind the synthesized system message, the token and sampling
/// fields copied, tools and tool choice mapped, and streaming always off.
pub open spec fn spec_from_generic(req: CompletionRequestView) -> OpenAICompletionRequestView {
    let converted = spec_messages_to_openai(req.messages);
    OpenAICompletionRequestView {
        model: req.model,
        messages: match req.system {
            Some(system) => seq![spec_system_message(system)] + converted,
            None => converted,
        },
        max_tokens: Some(req.max_tokens),
        temperature: req.temperature,
        top_p: None,
        frequency_penalty: None,
        presence_penalty: None,
        stop: None,
        stream: Some(false),
        tools: match req.tools {
            Some(ts) => Some(spec_tools_to_openai(ts)),
            None => None,
        },
        tool_choice: match req.tool_choice {
            Some(tc) => Some(spec_tool_choice_to_openai(tc)),
            None => None,
        },
    }
}

impl OpenAICompletionRequest {
    /// Translate a generic completion request into the vendor shape.
    pub fn from_generic(request: CompletionRequest) -> (r: Self)
        ensures
            r@ == spec_from_generic(request@),
    {
        let ghost req_view = request@;
        let mut messages: Vec<OpenAIMessage> = Vec::new();
        let has_system = request.system.is_some();
        if let Some(system_content) = request.system {
            let system_message = OpenAIMessage {
                role: String::from_str("system"),
                content: Some(crate::convert::OpenAIContent::from_text(system_content)),
                tool_calls: None,
                tool_call_id: None,
                name: None,
                audio: None,
                refusal: None,
            };
            messages.push(system_message);
        }
        let ghost prefix = messages.deep_view();
        let mut msgs = request.messages;
        let ghost msgs_view = req_view.messages;
        proof {
            assert(msgs.deep_view() == msgs_view);
            if req_view.system is Some {
                assert(prefix =~= seq![spec_system_message(req_view.system->Some_0)]);
            } else {
                assert(prefix =~= Seq::<OpenAIMessageView>::empty());
            }
        }
        let mut i: usize = 0;
        while i < msgs.len()
            invariant
                msgs.deep_view() == msgs_view,
                i <= msgs_view.len(),
                msgs@.len() == msgs_view.len(),
                messages.deep_view() == prefix + spec_messages_to_openai(
                    msgs_view.take(i as int),
                ),
            decreases msgs_view.len() - i,
        {
            proof {
                assert(msgs_view[i as int] == msgs@[i as int]@);
                assert(msgs_view.take(i + 1).drop_last() =~= msgs_view.take(i as int));
                assert(msgs_view.take(i + 1).last() == msgs_view[i as int]);
            }
            let m = msgs[i].duplicate();
            messages.push(MessageConverter::to_openai_message(m));
            proof {
                let prev = spec_messages_to_openai(msgs_view.take(i as int));
                let elem = spec_to_openai(msgs_view[i as int]);
                assert(prefix + spec_messages_to_openai(msgs_view.take(i + 1)) =~= (prefix
                    + prev).push(elem));
                assert(messages.deep_view() =~= (prefix + prev).push(elem));
            }
            i = i + 1;
        }
        proof {
            assert(msgs_view.take(msgs_view.len() as int) =~= msgs_view);
        }

        let tools: Option<Vec<OpenAITool>> = match request.tools {
            Some(ts) => {
                let ghost ts_view = ts.deep_view();
                let mut vendor_tools: Vec<OpenAITool> = Vec::new();
                let mut j: usize = 0;
                while j < ts.len()
                    invariant
                        ts.deep_view() == ts_view,
                        j <= ts_view.len(),
                        ts@.len() == ts_view.len(),
                        vendor_tools.deep_view() == spec_tools_to_openai(ts_view.take(j as int)),
                    decreases ts_view.len() - j,
                {
                    proof {
                        assert(ts_view[j as int] == ts@[j as int]@);
                        assert(ts_view.take(j + 1).drop_last() =~= ts_view.take(j as int));
                        assert(ts_view.take(j + 1).last() == ts_view[j as int]);
                    }
                    let t = &ts[j];
                    let parameters = match reencode_json_bytes(t.input_schema.as_slice()) {
                        Some(s) => s,
                        None => String::from_str("{}"),
                    };
                    vendor_tools.push(
                        OpenAITool {
                            tool_type: String::from_str("function"),
                            function: OpenAIToolFunction {
                                name: t.name.clone(),
                                description: t.description.clone(),
                                parameters,
                            },
                        },
                    );
                    proof {
                        assert(vendor_tools.deep_view() =~= spec_tools_to_openai(
                            ts_view.take(j + 1),
                        ));
                    }
                    j = j + 1;
                }
                proof {
                    assert(ts_view.take(ts_view.len() as int) =~= ts_view);
                }
                Some(vendor_tools)
            },
            None => None,
        };

        let tool_choice: Option<OpenAIToolChoice> = match request.tool_choice {
            Some(ToolChoice::Auto) => Some(OpenAIToolChoice::Auto),
            Some(ToolChoice::Any) => Some(OpenAIToolChoice::Required),
            Some(ToolChoice::NoTool) => Some(OpenAIToolChoice::Disabled),
            Some(ToolChoice::Tool { name }) => Some(OpenAIToolChoice::Function { name }),
            None => None,
        };

        let r = OpenAICompletionRequest {
            model: request.model,
            messages,
            max_tokens: Some(request.max_tokens),
            temperature: request.temperature,
            top_p: None,
            frequency_penalty: None,
            presence_penalty: None,
            stop: None,
            stream: Some(false),
            tools,
            tool_choice,
        };
        proof {
            assert(r@.messages =~= spec_from_generic(req_view).messages);
            if req_view.tools is Some {
                assert(r@.tools->Some_0 =~= spec_from_generic(req_view).tools->Some_0);
            }
            assert(r@ =~~= spec_from_generic(req_view));
        }
        r
    }
}

/// The wire values of a sequence of strings.
pub open spec fn spec_strings_json(ss: Seq<Seq<char>>) -> Seq<JsonView>
    decreases ss.len(),
{
    if ss.len() == 0 {
        Seq::empty()
    } else {
        spec_strings_json(ss.drop_last()).push(JsonView::Str(ss.last()))
    }
}

proof fn lemma_strings_json_pointwise(ss: Seq<Seq<char>>)
    ensures
        spec_strings_json(ss).len() == ss.len(),
        forall|i: int|
            0 <= i < ss.len() ==> #[trigger] spec_strings_json(ss)[i] == JsonView::Str(ss[i]),
    decreases ss.len(),
{
    if ss.len() > 0 {
        lemma_strings_json_pointwise(ss.drop_last());
    }
}

/// The wire value of one vendor tool definition.
pub open spec fn spec_tool_json(t: OpenAIToolView) -> JsonView {
    let g0 = seq![("name"@, JsonView::Str(t.function.name))];
    let g1 = match t.function.description {
        Some(d) => g0.push(("description"@, JsonView::Str(d))),
        None => g0,
    };
    let g2 = g1.push(("parameters"@, JsonView::Raw(t.function.parameters)));
    JsonView::Obj(
        seq![("type"@, JsonView::Str(t.tool_type)), ("function"@, JsonView::Obj(g2))],
    )
}

/// The wire values of a sequence of vendor tool definitions.
pub open spec fn spec_tools_json(ts: Seq<OpenAIToolView>) -> Seq<JsonView>
    decreases ts.len(),
{
    if ts.len() == 0 {
        Seq::empty()
    } else {
        spec_tools_json(ts.drop_last()).push(spec_tool_json(ts.last()))
    }
}

proof fn lemma_tools_json_pointwise(ts: Seq<OpenAIToolView>)
    ensures
        spec_tools_json(ts).len() == ts.len(),
        forall|i: int|
            0 <= i < ts.len() ==> #[trigger] spec_tools_json(ts)[i] == spec_tool_json(ts[i]),
    decreases ts.len(),
{
    if ts.len() > 0 {
        lemma_tools_json_pointwise(ts.drop_last());
    }
}

/// The wire value of the vendor tool-choice policy.
pub open spec fn spec_tool_choice_json(tc: OpenAIToolChoiceView) -> JsonView {
    match tc {
        OpenAIToolChoiceView::Auto => JsonView::Str("auto"@),
        OpenAIToolChoiceView::Required => JsonView::Str("required"@),
        OpenAIToolChoiceView::Disabled => JsonView::Str("none"@),
        OpenAIToolChoiceView::Function { name } => JsonView::Obj(
            seq![
                ("type"@, JsonView::Str("function"@)),
                ("function"@, JsonView::Obj(seq![("name"@, JsonView::Str(name))])),
            ],
        ),
    }
}

/// The wire values of the request's messages under a format.
pub open spec fn spec_messages_json(msgs: Seq<OpenAIMessageView>, format: ContentFormat) -> Seq<
    JsonView,
>
    decreases msgs.len(),
{
    if msgs.len() == 0 {
        Seq::empty()
    } else {
        spec_messages_json(msgs.drop_last(), format).push(spec_message_json(msgs.last(), format))
    }
}

proof fn lemma_messages_json_pointwise(msgs: Seq<OpenAIMessageView>, format: ContentFormat)
    ensures
        spec_messages_json(msgs, format).len() == msgs.len(),
        forall|i: int|
            0 <= i < msgs.len() ==> #[trigger] spec_messages_json(msgs, format)[i]
                == spec_message_json(msgs[i], format),
    decreases msgs.len(),
{
    if msgs.len() > 0 {
        lemma_messages_json_pointwise(msgs.drop_last(), format);
    }
}

/// The wire value of the whole vendor request under a format: the model and
/// the messages first, then every optional field that is present, in a
/// fixed order, with streaming carried as it stands.
pub open spec fn spec_request_json(
    r: OpenAICompletionRequestView,
    format: ContentFormat,
) -> JsonView {
    let f0 = seq![("model"@, JsonView::Str(r.model))];
    let f1 = f0.push(("messages"@, JsonView::Arr(spec_messages_json(r.messages, format))));
    let f2 = match r.max_tokens {
        Some(n) => f1.push(("max_tokens"@, JsonView::UInt(n as u64))),
        None => f1,
    };
    let f3 = match r.temperature {
        Some(t) => f2.push(("temperature"@, JsonView::Centi(t as i64))),
        None => f2,
    };
    let f4 = match r.top_p {
        Some(t) => f3.push(("top_p"@, JsonView::Centi(t as i64))),
        None => f3,
    };
    let f5 = match r.frequency_penalty {
        Some(t) => f4.push(("frequency_penalty"@, JsonView::Centi(t as i64))),
        None => f4,
    };
    let f6 = match r.presence_penalty {
        Some(t) => f5.push(("presence_penalty"@, JsonView::Centi(t as i64))),
        None => f5,
    };
    let f7 = match r.stop {
        Some(ss) => f6.push(("stop"@, JsonView::Arr(spec_strings_json(ss)))),
        None => f6,
    };
    let f8 = match r.stream {
        Some(b) => f7.push(("stream"@, JsonView::Bool(b))),
        None => f7,
    };
    let f9 = match r.tools {
        Some(ts) => f8.push(("tools"@, JsonView::Arr(spec_tools_json(ts)))),
        None => f8,
    };
    let f10 = match r.tool_choice {
        Some(tc) => f9.push(("tool_choice"@, spec_tool_choice_json(tc))),
        None => f9,
    };
    JsonView::Obj(f10)
}

/// Build the wire value of one vendor tool definition.
fn tool_to_json(t: &OpenAITool) -> (r: JsonValue)
    ensures
        r@ == spec_tool_json(t@),
{
    let mut function_fields: Vec<(String, JsonValue)> = Vec::new();
    function_fields.push((String::from_str("name"), JsonValue::Str(t.function.name.clone())));
    if let Some(d) = &t.function.description {
        function_fields.push((String::from_str("description"), JsonValue::Str(d.clone())));
    }
    function_fields.push(
        (String::from_str("parameters"), JsonValue::Raw(t.function.parameters.clone())),
    );
    let function_obj = JsonValue::Obj(function_fields);
    proof {
        lemma_json_view_fields_all(function_obj->Obj_0@);
        let g0 = seq![("name"@, JsonView::Str(t.function.name@))];
        let g1 = match t@.function.description {
            Some(d) => g0.push(("description"@, JsonView::Str(d))),
            None => g0,
        };
        let g2 = g1.push(("parameters"@, JsonView::Raw(t.function.parameters@)));
        assert(json_view_fields(function_obj->Obj_0@, 0) =~= g2);
    }
    let fields: Vec<(String, JsonValue)> = vec![
        (String::from_str("type"), JsonValue::Str(t.tool_type.clone())),
        (String::from_str("function"), function_obj),
    ];
    let r = JsonValue::Obj(fields);
    proof {
        lemma_json_view_fields_all(r->Obj_0@);
        assert(json_view_fields(r->Obj_0@, 0) =~= spec_tool_json(t@)->Obj_0);
        assert(r@ == spec_tool_json(t@));
    }
    r
}

/// Build the wire value of the vendor tool-choice policy.
fn tool_choice_to_json(tc: &OpenAIToolChoice) -> (r: JsonValue)
    ensures
        r@ == spec_tool_choice_json(tc@),
{
    match tc {
        OpenAIToolChoice::Auto => JsonValue::Str(String::from_str("auto")),
        OpenAIToolChoice::Required => JsonValue::Str(String::from_str("required")),
        OpenAIToolChoice::Disabled => JsonValue::Str(String::from_str("none")),
        OpenAIToolChoice::Function { name } => {
            let inner: Vec<(String, JsonValue)> = vec![
                (String::from_str("name"), JsonValue::Str(name.clone())),
            ];
            let inner_obj = JsonValue::Obj(inner);
            proof {
                lemma_json_view_fields_all(inner_obj->Obj_0@);
                assert(json_view_fields(inner_obj->Obj_0@, 0) =~= seq![
                    ("name"@, JsonView::Str(name@)),
                ]);
            }
            let fields: Vec<(String, JsonValue)> = vec![
                (String::from_str("type"), JsonValue::Str(String::from_str("function"))),
                (String::from_str("function"), inner_obj),
            ];
            let r = JsonValue::Obj(fields);
            proof {
                lemma_json_view_fields_all(r->Obj_0@);
                assert(json_view_fields(r->Obj_0@, 0) =~= spec_tool_choice_json(tc@)->Obj_0);
                assert(r@ == spec_tool_choice_json(tc@));
            }
            r
        },
    }
}

impl OpenAICompletionRequest {
    /// Serialize the request into the wire value for a provider's format.
    #[verifier::rlimit(100)]
    pub fn serialize_for_provider(&self, format: &ContentFormat) -> (r: JsonValue)
        ensures
            r@ == spec_request_json(self@, *format),
    {
        let mut fields: Vec<(String, JsonValue)> = Vec::new();
        fields.push((String::from_str("model"), JsonValue::Str(self.model.clone())));

        let mut msg_arr: Vec<JsonValue> = Vec::new();
        let ghost msgs_view = self.messages.deep_view();
        let mut i: usize = 0;
        while i < self.messages.len()
            invariant
                self.messages.deep_view() == msgs_view,
                i <= msgs_view.len(),
                self.messages@.len() == msgs_view.len(),
                forall|m: int| 0 <= m < msgs_view.len() ==> msgs_view[m] == self.messages@[m]@,
                msg_arr@.len() == i,
                forall|m: int|
                    0 <= m < i ==> json_view(#[trigger] msg_arr@[m]) == spec_message_json(
                        msgs_view[m],
                        *format,
                    ),
            decreases msgs_view.len() - i,
        {
            msg_arr.push(self.messages[i].serialize_for_format(format));
            i = i + 1;
        }
        let msg_json = JsonValue::Arr(msg_arr);
        proof {
            lemma_json_view_seq_all(msg_json->Arr_0@);
            lemma_messages_json_pointwise(msgs_view, *format);
            assert(json_view_seq(msg_json->Arr_0@, 0) =~= spec_messages_json(msgs_view, *format));
            assert(msg_json@ == JsonView::Arr(spec_messages_json(msgs_view, *format)));
        }
        fields.push((String::from_str("messages"), msg_json));

        if let Some(max_tokens) = self.max_tokens {
            fields.push((String::from_str("max_tokens"), JsonValue::UInt(max_tokens as u64)));
        }
        if let Some(temperature) = self.temperature {
            fields.push((String::from_str("temperature"), JsonValue::Centi(temperature as i64)));
        }
        if let Some(top_p) = self.top_p {
            fields.push((String::from_str("top_p"), JsonValue::Centi(top_p as i64)));
        }
        if let Some(frequency_penalty) = self.frequency_penalty {
            fields.push(
                (String::from_str("frequency_penalty"), JsonValue::Centi(frequency_penalty as i64)),
            );
        }
        if let Some(presence_penalty) = self.presence_penalty {
            fields.push(
                (String::from_str("presence_penalty"), JsonValue::Centi(presence_penalty as i64)),
            );
        }
        if let Some(stop) = &self.stop {
            let mut stop_arr: Vec<JsonValue> = Vec::new();
            let ghost stop_view = stop.deep_view();
            let mut k: usize = 0;
            while k < stop.len()
                invariant
                    stop.deep_view() == stop_view,
                    k <= stop_view.len(),
                    stop@.len() == stop_view.len(),
                    forall|m: int| 0 <= m < stop_view.len() ==> stop_view[m] == stop@[m]@,
                    stop_arr@.len() == k,
                    forall|m: int|
                        0 <= m < k ==> json_view(#[trigger] stop_arr@[m]) == JsonView::Str(
                            stop_view[m],
                        ),
                decreases stop_view.len() - k,
            {
                stop_arr.push(JsonValue::Str(stop[k].clone()));
                k = k + 1;
            }
            let stop_json = JsonValue::Arr(stop_arr);
            proof {
                lemma_json_view_seq_all(stop_json->Arr_0@);
                lemma_strings_json_pointwise(stop_view);
                assert(json_view_seq(stop_json->Arr_0@, 0) =~= spec_strings_json(stop_view));
                assert(stop_json@ == JsonView::Arr(spec_strings_json(stop_view)));
            }
            fields.push((String::from_str("stop"), stop_json));
        }
        if let Some(stream) = self.stream {
            fields.push((String::from_str("stream"), JsonValue::Bool(stream)));
        }
        if let Some(tools) = &self.tools {
            let mut tools_arr: Vec<JsonValue> = Vec::new();
            let ghost tools_view = tools.deep_view();
            let mut k: usize = 0;
            while k < tools.len()
                invariant
                    tools.deep_view() == tools_view,
                    k <= tools_view.len(),
                    tools@.len() == tools_view.len(),
                    forall|m: int| 0 <= m < tools_view.len() ==> tools_view[m] == tools@[m]@,
                    tools_arr@.len() == k,
                    forall|m: int|
                        0 <= m < k ==> json_view(#[trigger] tools_arr@[m]) == spec_tool_json(
                            tools_view[m],
                        ),
                decreases tools_view.len() - k,
            {
                tools_arr.push(tool_to_json(&tools[k]));
                k = k + 1;
            }
            let tools_json = JsonValue::Arr(tools_arr);
            proof {
                lemma_json_view_seq_all(tools_json->Arr_0@);
                lemma_tools_json_pointwise(tools_view);
                assert(json_view_seq(tools_json->Arr_0@, 0) =~= spec_tools_json(tools_view));
                assert(tools_json@ == JsonView::Arr(spec_tools_json(tools_view)));
            }
            fields.push((String::from_str("tools"), tools_json));
        }
        if let Some(tool_choice) = &self.tool_choice {
            fields.push((String::from_str("tool_choice"), tool_choice_to_json(tool_choice)));
        }

        let r = JsonValue::Obj(fields);
        proof {
            lemma_json_view_fields_all(r->Obj_0@);
            let rv = self@;
            let f0 = seq![("model"@, JsonView::Str(rv.model))];
            let f1 = f0.push(
                ("messages"@, JsonView::Arr(spec_messages_json(rv.messages, *format))),
            );
            let f2 = match rv.max_tokens {
                Some(n) => f1.push(("max_tokens"@, JsonView::UInt(n as u64))),
                None => f1,
            };
            let f3 = match rv.temperature {
                Some(t) => f2.push(("temperature"@, JsonView::Centi(t as i64))),
                None => f2,
            };
            let f4 = match rv.top_p {
                Some(t) => f3.push(("top_p"@, JsonView::Centi(t as i64))),
                None => f3,
            };
            let f5 = match rv.frequency_penalty {
                Some(t) => f4.push(("frequency_penalty"@, JsonView::Centi(t as i64))),
                None => f4,
            };
            let f6 = match rv.presence_penalty {
                Some(t) => f5.push(("presence_penalty"@, JsonView::Centi(t as i64))),
                None => f5,
            };
            let f7 = match rv.stop {
                Some(ss) => f6.push(("stop"@, JsonView::Arr(spec_strings_json(ss)))),
                None => f6,
            };
            let f8 = match rv.stream {
                Some(b) => f7.push(("stream"@, JsonView::Bool(b))),
                None => f7,
            };
            let f9 = match rv.tools {
                Some(ts) => f8.push(("tools"@, JsonView::Arr(spec_tools_json(ts)))),
                None => f8,
            };
            let f10 = match rv.tool_choice {
                Some(tc) => f9.push(("tool_choice"@, spec_tool_choice_json(tc))),
                None => f9,
            };
            assert(json_view_fields(r->Obj_0@, 0) =~= f10);
            assert(r@ == spec_request_json(self@, *format));
        }
        r
    }
}

} // verus!
