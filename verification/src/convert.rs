//! The vendor message shape and the bidirectional message conversion
//! engine: generic messages become vendor messages (tool uses turning into
//! tool calls, tool results forcing the `"tool"` role) and vendor messages
//! come back. Serialization into wire values is format-aware: structured
//! arrays, or a lossy flattened string for providers that reject structure.

use vstd::prelude::*;
use vstd::string::StringExecFns;
use crate::content::{Message, MessageContent, MessageContentView, MessageRole, MessageView};
use crate::jsonval::{JsonValue, JsonView, lemma_json_view_fields, lemma_json_view_fields_all, lemma_json_view_seq, lemma_json_view_seq_all};
use crate::parse::{extract_text_from_content_items, spec_extract_text};
use crate::state::ContentFormat;
use crate::strutil::{concat_strs, spec_join, spec_trim};
use crate::parse::{ParsedItem, ParsedItemView, ToolResultParser, spec_parse_content};
use crate::strutil::str_eq;

verus! {

/// An image reference in vendor content.
#[derive(Debug, Clone, PartialEq, Eq)]
pub struct OpenAIImageUrl {
    pub url: String,
    pub detail: Option<String>,
}

/// The mathematical value of an [`OpenAIImageUrl`].
#[verifier::ext_equal]
pub struct OpenAIImageUrlView {
    pub url: Seq<char>,
    pub detail: Option<Seq<char>>,
}

impl View for OpenAIImageUrl {
    type V = OpenAIImageUrlView;

    open spec fn view(&self) -> OpenAIImageUrlView {
        OpenAIImageUrlView { url: self.url@, detail: self.detail.deep_view() }
    }
}

impl DeepView for OpenAIImageUrl {
    type V = OpenAIImageUrlView;

    open spec fn deep_view(&self) -> OpenAIImageUrlView {
        self.view()
    }
}

/// One item of vendor message content, tagged by its vendor kind.
#[derive(Debug, Clone, PartialEq, Eq)]
pub enum OpenAIContentItem {
    /// Plain text.
    Text { text: String },
    /// An image reference.
    ImageUrl { image_url: OpenAIImageUrl },
    /// A tool invocation, its input carried as JSON text.
    ToolUse { id: String, name: String, input: String },
    /// A tool result, its payload decoded into content items.
    ToolResult { tool_use_id: String, content: Vec<ParsedItem>, is_error: Option<bool> },
}

/// The mathematical value of an [`OpenAIContentItem`].
#[verifier::ext_equal]
pub enum OpenAIContentItemView {
    Text { text: Seq<char> },
    ImageUrl { image_url: OpenAIImageUrlView },
    ToolUse { id: Seq<char>, name: Seq<char>, input: Seq<char> },
    ToolResult { tool_use_id: Seq<char>, content: Seq<ParsedItemView>, is_error: Option<bool> },
}

impl View for OpenAIContentItem {
    type V = OpenAIContentItemView;

    open spec fn view(&self) -> OpenAIContentItemView {
        match self {
            OpenAIContentItem::Text { text } => OpenAIContentItemView::Text { text: text@ },
            OpenAIContentItem::ImageUrl { image_url } => OpenAIContentItemView::ImageUrl {
                image_url: image_url@,
            },
            OpenAIContentItem::ToolUse { id, name, input } => OpenAIContentItemView::ToolUse {
                id: id@,
                name: name@,
                input: input@,
            },
            OpenAIContentItem::ToolResult { tool_use_id, content, is_error } => {
                OpenAIContentItemView::ToolResult {
                    tool_use_id: tool_use_id@,
                    content: content.deep_view(),
                    is_error: *is_error,
                }
            },
        }
    }
}

impl DeepView for OpenAIContentItem {
    type V = OpenAIContentItemView;

    open spec fn deep_view(&self) -> OpenAIContentItemView {
        self.view()
    }
}

/// Ordered vendor message content.
#[derive(Debug, Clone, PartialEq, Eq)]
pub struct OpenAIContent {
    items: Vec<OpenAIContentItem>,
}

impl View for OpenAIContent {
    type V = Seq<OpenAIContentItemView>;

    closed spec fn view(&self) -> Seq<OpenAIContentItemView> {
        self.items.deep_view()
    }
}

impl DeepView for OpenAIContent {
    type V = Seq<OpenAIContentItemView>;

    closed spec fn deep_view(&self) -> Seq<OpenAIContentItemView> {
        self.items.deep_view()
    }
}

/// The deep view of vendor content is its view.
pub broadcast proof fn lemma_openai_content_views(c: &OpenAIContent)
    ensures
        #[trigger] c.deep_view() == c@,
{
}

impl OpenAIContent {
    /// Empty content.
    pub fn new() -> (content: Self)
        ensures
            content@ =~= Seq::<OpenAIContentItemView>::empty(),
    {
        OpenAIContent { items: Vec::new() }
    }

    /// Content holding one text item.
    pub fn from_text(text: String) -> (content: Self)
        ensures
            content@ =~= seq![OpenAIContentItemView::Text { text: text@ }],
    {
        OpenAIContent { items: vec![OpenAIContentItem::Text { text }] }
    }

    /// Append one item.
    pub fn add_item(&mut self, item: OpenAIContentItem)
        ensures
            final(self)@ == old(self)@.push(item@),
    {
        self.items.push(item);
        proof {
            assert(self@ =~= old(self)@.push(item@));
        }
    }

    /// Whether no item has been added.
    pub fn is_empty(&self) -> (empty: bool)
        ensures
            empty == (self@.len() == 0),
    {
        self.items.len() == 0
    }
}

/// One vendor tool call's function part: a name and its arguments as JSON
/// text.
#[derive(Debug, Clone, PartialEq, Eq)]
pub struct OpenAIFunctionCall {
    pub name: String,
    pub arguments: String,
}

/// The mathematical value of an [`OpenAIFunctionCall`].
#[verifier::ext_equal]
pub struct OpenAIFunctionCallView {
    pub name: Seq<char>,
    pub arguments: Seq<char>,
}

impl View for OpenAIFunctionCall {
    type V = OpenAIFunctionCallView;

    open spec fn view(&self) -> OpenAIFunctionCallView {
        OpenAIFunctionCallView { name: self.name@, arguments: self.arguments@ }
    }
}

impl DeepView for OpenAIFunctionCall {
    type V = OpenAIFunctionCallView;

    open spec fn deep_view(&self) -> OpenAIFunctionCallView {
        self.view()
    }
}

/// One vendor tool call.
#[derive(Debug, Clone, PartialEq, Eq)]
pub struct OpenAIToolCall {
    pub id: String,
    pub tool_type: String,
    pub function: OpenAIFunctionCall,
}

/// The mathematical value of an [`OpenAIToolCall`].
#[verifier::ext_equal]
pub struct OpenAIToolCallView {
    pub id: Seq<char>,
    pub tool_type: Seq<char>,
    pub function: OpenAIFunctionCallView,
}

impl View for OpenAIToolCall {
    type V = OpenAIToolCallView;

    open spec fn view(&self) -> OpenAIToolCallView {
        OpenAIToolCallView { id: self.id@, tool_type: self.tool_type@, function: self.function@ }
    }
}

impl DeepView for OpenAIToolCall {
    type V = OpenAIToolCallView;

    open spec fn deep_view(&self) -> OpenAIToolCallView {
        self.view()
    }
}

/// Audio output attached to a vendor message.
#[derive(Debug, Clone, PartialEq, Eq)]
pub struct OpenAIAudio {
    pub id: String,
    pub expires_at: i64,
    pub data: String,
    pub transcript: String,
}

/// The mathematical value of an [`OpenAIAudio`].
#[verifier::ext_equal]
pub struct OpenAIAudioView {
    pub id: Seq<char>,
    pub expires_at: i64,
    pub data: Seq<char>,
    pub transcript: Seq<char>,
}

impl View for OpenAIAudio {
    type V = OpenAIAudioView;

    open spec fn view(&self) -> OpenAIAudioView {
        OpenAIAudioView {
            id: self.id@,
            expires_at: self.expires_at,
            data: self.data@,
            transcript: self.transcript@,
        }
    }
}

impl DeepView for OpenAIAudio {
    type V = OpenAIAudioView;

    open spec fn deep_view(&self) -> OpenAIAudioView {
        self.view()
    }
}

/// A message in the vendor wire shape.
#[derive(Debug, Clone, PartialEq, Eq)]
pub struct OpenAIMessage {
    pub role: String,
    pub content: Option<OpenAIContent>,
    pub tool_calls: Option<Vec<OpenAIToolCall>>,
    pub tool_call_id: Option<String>,
    pub name: Option<String>,
    pub audio: Option<OpenAIAudio>,
    pub refusal: Option<String>,
}

/// The mathematical value of an [`OpenAIMessage`].
#[verifier::ext_equal]
pub struct OpenAIMessageView {
    pub role: Seq<char>,
    pub content: Option<Seq<OpenAIContentItemView>>,
    pub tool_calls: Option<Seq<OpenAIToolCallView>>,
    pub tool_call_id: Option<Seq<char>>,
    pub name: Option<Seq<char>>,
    pub audio: Option<OpenAIAudioView>,
    pub refusal: Option<Seq<char>>,
}

impl View for OpenAIMessage {
    type V = OpenAIMessageView;

    open spec fn view(&self) -> OpenAIMessageView {
        OpenAIMessageView {
            role: self.role@,
            content: self.content.deep_view(),
            tool_calls: self.tool_calls.deep_view(),
            tool_call_id: self.tool_call_id.deep_view(),
            name: self.name.deep_view(),
            audio: self.audio.deep_view(),
            refusal: self.refusal.deep_view(),
        }
    }
}

impl DeepView for OpenAIMessage {
    type V = OpenAIMessageView;

    open spec fn deep_view(&self) -> OpenAIMessageView {
        self.view()
    }
}

/// Names the canonical JSON text that re-encoding a JSON byte payload
/// yields, `None` when the bytes are not JSON.
pub uninterp spec fn reencoded_json_of(b: Seq<u8>) -> Option<Seq<char>>;

/// Relies on `serde_json::from_slice` and `serde_json::Value::to_string`:
/// parses the bytes as JSON and re-encodes them canonically. The result
/// depends on the bytes alone.
#[verifier::external_body]
pub(crate) fn reencode_json_bytes(raw: &[u8]) -> (r: Option<String>)
    ensures
        r.deep_view() == reencoded_json_of(raw@),
{
    serde_json::from_slice::<serde_json::Value>(raw).ok().map(|v| v.to_string())
}

/// Names the canonical JSON bytes that re-encoding a JSON text yields,
/// `None` when the text is not JSON.
pub uninterp spec fn reencoded_json_bytes_of(s: Seq<char>) -> Option<Seq<u8>>;

/// Relies on `serde_json::from_str` and `serde_json::to_vec`: parses the
/// text as JSON and re-encodes it canonically as bytes. The result depends
/// on the characters alone.
#[verifier::external_body]
fn reencode_json_text(s: &str) -> (r: Option<Vec<u8>>)
    ensures
        r.deep_view() == reencoded_json_bytes_of(s@),
{
    serde_json::from_str::<serde_json::Value>(s).ok().and_then(|v| serde_json::to_vec(&v).ok())
}

/// Names the JSON bytes that encoding a sequence of content items yields.
pub uninterp spec fn json_bytes_of_items(items: Seq<ParsedItemView>) -> Seq<u8>;

/// Relies on `serde_json::to_vec` over the items rebuilt as JSON values: a
/// text item becomes an object tagged `"type": "text"`, and an
/// uninterpreted item parses back from its canonical JSON text. The result
/// depends on the items alone.
#[verifier::external_body]
fn encode_items(items: &Vec<ParsedItem>) -> (r: Vec<u8>)
    ensures
        r@ == json_bytes_of_items(items.deep_view()),
{
    let vals: Vec<serde_json::Value> = items.iter().map(|item| match item {
        ParsedItem::Text { text } => {
            let mut obj = serde_json::Map::new();
            obj.insert("type".to_string(), serde_json::Value::String("text".to_string()));
            obj.insert("text".to_string(), serde_json::Value::String(text.clone()));
            serde_json::Value::Object(obj)
        },
        ParsedItem::Other { json } => serde_json::from_str(json).unwrap_or(
            serde_json::Value::Null,
        ),
    }).collect();
    serde_json::to_vec(&vals).unwrap_or_default()
}

/// The vendor role string for a generic role.
pub open spec fn spec_map_role(role: MessageRole) -> Seq<char> {
    match role {
        MessageRole::User => "user"@,
        MessageRole::Assistant => "assistant"@,
        MessageRole::System => "system"@,
    }
}

/// The generic role recovered from a vendor role string: tool results come
/// back attributed to the user side, and unknown roles default to the user.
pub open spec fn spec_map_role_back(role: Seq<char>) -> MessageRole {
    if role == "user"@ || role == "tool"@ {
        MessageRole::User
    } else if role == "assistant"@ {
        MessageRole::Assistant
    } else if role == "system"@ {
        MessageRole::System
    } else {
        MessageRole::User
    }
}

/// Converts between generic and vendor messages.
pub struct MessageConverter;

impl MessageConverter {
    /// The vendor role string for a generic role.
    pub fn map_role(role: &MessageRole) -> (r: String)
        ensures
            r@ == spec_map_role(*role),
    {
        match role {
            MessageRole::User => String::from_str("user"),
            MessageRole::Assistant => String::from_str("assistant"),
            MessageRole::System => String::from_str("system"),
        }
    }

    /// The generic role recovered from a vendor role string.
    pub fn map_role_back(role: &str) -> (r: MessageRole)
        ensures
            r == spec_map_role_back(role@),
    {
        if str_eq(role, "user") || str_eq(role, "tool") {
            MessageRole::User
        } else if str_eq(role, "assistant") {
            MessageRole::Assistant
        } else if str_eq(role, "system") {
            MessageRole::System
        } else {
            MessageRole::User
        }
    }
}

/// The vendor content items that a generic content walk yields: text passes
/// through, tool uses contribute nothing (they become tool calls), and each
/// tool result's payload is decoded by the fallback chain.
pub open spec fn spec_content_items(items: Seq<MessageContentView>) -> Seq<OpenAIContentItemView>
    decreases items.len(),
{
    if items.len() == 0 {
        Seq::empty()
    } else {
        let rest = spec_content_items(items.drop_last());
        match items.last() {
            MessageContentView::Text { text } => rest.push(OpenAIContentItemView::Text { text }),
            MessageContentView::ToolUse { .. } => rest,
            MessageContentView::ToolResult { tool_use_id, content, is_error } => rest.push(
                OpenAIContentItemView::ToolResult {
                    tool_use_id,
                    content: spec_parse_content(content),
                    is_error: Some(is_error),
                },
            ),
        }
    }
}

/// A tool use's input bytes re-encoded as canonical JSON text, degrading to
/// the empty object when the bytes are not JSON.
pub open spec fn spec_tool_arguments(input: Seq<u8>) -> Seq<char> {
    match reencoded_json_of(input) {
        Some(s) => s,
        None => "{}"@,
    }
}

/// The vendor tool calls that a generic content walk yields: one per tool
/// use, in order.
pub open spec fn spec_tool_calls(items: Seq<MessageContentView>) -> Seq<OpenAIToolCallView>
    decreases items.len(),
{
    if items.len() == 0 {
        Seq::empty()
    } else {
        let rest = spec_tool_calls(items.drop_last());
        match items.last() {
            MessageContentView::ToolUse { id, name, input } => rest.push(
                OpenAIToolCallView {
                    id,
                    tool_type: "function"@,
                    function: OpenAIFunctionCallView {
                        name,
                        arguments: spec_tool_arguments(input),
                    },
                },
            ),
            _ => rest,
        }
    }
}

/// Whether the content holds a tool result, which forces the vendor role.
pub open spec fn spec_has_tool_result(items: Seq<MessageContentView>) -> bool
    decreases items.len(),
{
    if items.len() == 0 {
        false
    } else {
        spec_has_tool_result(items.drop_last()) || items.last() is ToolResult
    }
}

/// The correlation id of the last tool result among the content items, if
/// any: when a message carries several, the last one wins.
pub open spec fn spec_last_tool_result_id(items: Seq<MessageContentView>) -> Option<Seq<char>>
    decreases items.len(),
{
    if items.len() == 0 {
        None
    } else {
        match items.last() {
            MessageContentView::ToolResult { tool_use_id, .. } => Some(tool_use_id),
            _ => spec_last_tool_result_id(items.drop_last()),
        }
    }
}

/// The vendor message that a generic message becomes: content and tool
/// calls from the walk, `None` standing for emptiness, the role forced to
/// `"tool"` by any tool result, and the last tool result's id kept.
pub open spec fn spec_to_openai(m: MessageView) -> OpenAIMessageView {
    let items = spec_content_items(m.content);
    let tool_calls = spec_tool_calls(m.content);
    OpenAIMessageView {
        role: if spec_has_tool_result(m.content) {
            "tool"@
        } else {
            spec_map_role(m.role)
        },
        content: if items.len() == 0 {
            None
        } else {
            Some(items)
        },
        tool_calls: if tool_calls.len() == 0 {
            None
        } else {
            Some(tool_calls)
        },
        tool_call_id: spec_last_tool_result_id(m.content),
        name: None,
        audio: None,
        refusal: None,
    }
}

impl MessageConverter {
    /// Convert a generic message to the vendor shape.
    pub fn to_openai_message(message: Message) -> (r: OpenAIMessage)
        ensures
            r@ == spec_to_openai(message@),
    {
        let ghost all = message@.content;
        let mut content = OpenAIContent::new();
        let mut tool_calls: Vec<OpenAIToolCall> = Vec::new();
        let mut tool_call_id: Option<String> = None;
        let mut has_tool_result = false;
        let mut i: usize = 0;
        while i < message.content.len()
            invariant
                all == message@.content,
                message.content.deep_view() == all,
                i <= all.len(),
                message.content@.len() == all.len(),
                content@ == spec_content_items(all.take(i as int)),
                tool_calls.deep_view() == spec_tool_calls(all.take(i as int)),
                tool_call_id.deep_view() == spec_last_tool_result_id(all.take(i as int)),
                has_tool_result == spec_has_tool_result(all.take(i as int)),
            decreases all.len() - i,
        {
            proof {
                assert(all[i as int] == message.content@[i as int]@);
                assert(all.take(i + 1).drop_last() =~= all.take(i as int));
                assert(all.take(i + 1).last() == all[i as int]);
            }
            match &message.content[i] {
                MessageContent::Text { text } => {
                    content.add_item(OpenAIContentItem::Text { text: text.clone() });
                    proof {
                        assert(content@ =~= spec_content_items(all.take(i + 1)));
                    }
                },
                MessageContent::ToolUse { id, name, input } => {
                    let arguments = match reencode_json_bytes(input.as_slice()) {
                        Some(s) => s,
                        None => String::from_str("{}"),
                    };
                    tool_calls.push(
                        OpenAIToolCall {
                            id: id.clone(),
                            tool_type: String::from_str("function"),
                            function: OpenAIFunctionCall { name: name.clone(), arguments },
                        },
                    );
                    proof {
                        assert(tool_calls.deep_view() =~= spec_tool_calls(all.take(i + 1)));
                    }
                },
                MessageContent::ToolResult { tool_use_id, content: raw_content, is_error } => {
                    has_tool_result = true;
                    tool_call_id = Some(tool_use_id.clone());
                    let parsed_content = ToolResultParser::parse_content(raw_content.as_slice());
                    content.add_item(
                        OpenAIContentItem::ToolResult {
                            tool_use_id: tool_use_id.clone(),
                            content: parsed_content,
                            is_error: Some(*is_error),
                        },
                    );
                    proof {
                        assert(content@ =~= spec_content_items(all.take(i + 1)));
                    }
                },
            }
            i = i + 1;
        }
        proof {
            assert(all.take(all.len() as int) =~= all);
        }
        let role = if has_tool_result {
            String::from_str("tool")
        } else {
            MessageConverter::map_role(&message.role)
        };
        let content_empty = content.is_empty();
        let r = OpenAIMessage {
            role,
            content: if content_empty {
                None
            } else {
                Some(content)
            },
            tool_calls: if tool_calls.len() == 0 {
                None
            } else {
                Some(tool_calls)
            },
            tool_call_id,
            name: None,
            audio: None,
            refusal: None,
        };
        proof {
            assert(r@ =~= spec_to_openai(message@));
        }
        r
    }
}

/// A tool call's arguments text re-encoded as canonical JSON bytes,
/// degrading to the empty object when the text is not JSON.
pub open spec fn spec_arguments_to_bytes(s: Seq<char>) -> Seq<u8> {
    match reencoded_json_bytes_of(s) {
        Some(b) => b,
        None => vstd::utf8::encode_utf8("{}"@),
    }
}

/// The generic content items recovered from vendor content items: text
/// passes through, tool results re-encode their decoded payload as bytes,
/// tool uses keep their input as the bytes of its JSON text, and anything
/// unrecognized degrades to a placeholder text.
pub open spec fn spec_items_back(items: Seq<OpenAIContentItemView>) -> Seq<MessageContentView>
    decreases items.len(),
{
    if items.len() == 0 {
        Seq::empty()
    } else {
        let rest = spec_items_back(items.drop_last());
        match items.last() {
            OpenAIContentItemView::Text { text } => rest.push(MessageContentView::Text { text }),
            OpenAIContentItemView::ToolResult { tool_use_id, content, is_error } => rest.push(
                MessageContentView::ToolResult {
                    tool_use_id,
                    content: json_bytes_of_items(content),
                    is_error: match is_error {
                        Some(b) => b,
                        None => false,
                    },
                },
            ),
            OpenAIContentItemView::ToolUse { id, name, input } => rest.push(
                MessageContentView::ToolUse {
                    id,
                    name,
                    input: vstd::utf8::encode_utf8(input),
                },
            ),
            OpenAIContentItemView::ImageUrl { .. } => rest.push(
                MessageContentView::Text { text: "[Unsupported content]"@ },
            ),
        }
    }
}

/// The generic tool uses recovered from vendor tool calls: one per call of
/// type `"function"`, in order; calls of any other type are dropped.
pub open spec fn spec_tool_calls_back(tcs: Seq<OpenAIToolCallView>) -> Seq<MessageContentView>
    decreases tcs.len(),
{
    if tcs.len() == 0 {
        Seq::empty()
    } else {
        let rest = spec_tool_calls_back(tcs.drop_last());
        if tcs.last().tool_type == "function"@ {
            rest.push(
                MessageContentView::ToolUse {
                    id: tcs.last().id,
                    name: tcs.last().function.name,
                    input: spec_arguments_to_bytes(tcs.last().function.arguments),
                },
            )
        } else {
            rest
        }
    }
}

/// The generic message that a vendor message becomes: content items
/// recovered in order, then tool calls appended as tool uses, with the role
/// mapped back.
pub open spec fn spec_from_openai(om: OpenAIMessageView) -> MessageView {
    MessageView {
        role: spec_map_role_back(om.role),
        content: (match om.content {
            Some(items) => spec_items_back(items),
            None => Seq::empty(),
        }) + (match om.tool_calls {
            Some(tcs) => spec_tool_calls_back(tcs),
            None => Seq::empty(),
        }),
    }
}

impl MessageConverter {
    /// Convert a vendor message back to the generic shape.
    pub fn from_openai_message(openai_msg: OpenAIMessage) -> (r: Message)
        ensures
            r@ == spec_from_openai(openai_msg@),
    {
        let ghost om = openai_msg@;
        let mut content: Vec<MessageContent> = Vec::new();
        let OpenAIMessage { role, content: msg_content, tool_calls, .. } = openai_msg;

        if let Some(openai_content) = msg_content {
            let ghost items_view = openai_content@;
            let items = openai_content.items;
            proof {
                assert(items.deep_view() == items_view);
            }
            let mut i: usize = 0;
            while i < items.len()
                invariant
                    items.deep_view() == items_view,
                    i <= items_view.len(),
                    items@.len() == items_view.len(),
                    content.deep_view() == spec_items_back(items_view.take(i as int)),
                decreases items_view.len() - i,
            {
                proof {
                    assert(items_view[i as int] == items@[i as int]@);
                    assert(items_view.take(i + 1).drop_last() =~= items_view.take(i as int));
                    assert(items_view.take(i + 1).last() == items_view[i as int]);
                }
                match &items[i] {
                    OpenAIContentItem::Text { text } => {
                        content.push(MessageContent::Text { text: text.clone() });
                    },
                    OpenAIContentItem::ToolResult { tool_use_id, content: parsed, is_error } => {
                        let serialized_content = encode_items(parsed);
                        content.push(
                            MessageContent::ToolResult {
                                tool_use_id: tool_use_id.clone(),
                                content: serialized_content,
                                is_error: match is_error {
                                    Some(b) => *b,
                                    None => false,
                                },
                            },
                        );
                    },
                    OpenAIContentItem::ToolUse { id, name, input } => {
                        content.push(
                            MessageContent::ToolUse {
                                id: id.clone(),
                                name: name.clone(),
                                input: input.as_str().as_bytes_vec(),
                            },
                        );
                    },
                    OpenAIContentItem::ImageUrl { .. } => {
                        content.push(
                            MessageContent::Text {
                                text: String::from_str("[Unsupported content]"),
                            },
                        );
                    },
                }
                proof {
                    assert(content.deep_view() =~= spec_items_back(items_view.take(i + 1)));
                }
                i = i + 1;
            }
            proof {
                assert(items_view.take(items_view.len() as int) =~= items_view);
            }
        }

        let ghost items_part = content.deep_view();

        if let Some(calls) = tool_calls {
            let ghost calls_view = calls.deep_view();
            let mut j: usize = 0;
            while j < calls.len()
                invariant
                    calls.deep_view() == calls_view,
                    j <= calls_view.len(),
                    calls@.len() == calls_view.len(),
                    content.deep_view() == items_part + spec_tool_calls_back(
                        calls_view.take(j as int),
                    ),
                decreases calls_view.len() - j,
            {
                proof {
                    assert(calls_view[j as int] == calls@[j as int]@);
                    assert(calls_view.take(j + 1).drop_last() =~= calls_view.take(j as int));
                    assert(calls_view.take(j + 1).last() == calls_view[j as int]);
                }
                let tool_call = &calls[j];
                if str_eq(tool_call.tool_type.as_str(), "function") {
                    let input: Vec<u8> = match reencode_json_text(
                        tool_call.function.arguments.as_str(),
                    ) {
                        Some(b) => {
                            proof {
                                assert(b@ =~= b.deep_view());
                            }
                            b
                        },
                        None => "{}".as_bytes_vec(),
                    };
                    proof {
                        assert(input@ == spec_arguments_to_bytes(tool_call.function.arguments@));
                    }
                    let ghost pre = content.deep_view();
                    let ghost pre_raw = content@;
                    content.push(
                        MessageContent::ToolUse {
                            id: tool_call.id.clone(),
                            name: tool_call.function.name.clone(),
                            input,
                        },
                    );
                    proof {
                        assert(content.deep_view().len() == pre.len() + 1);
                        assert forall|k: int| 0 <= k < pre.len() implies content.deep_view()[k]
                            == pre[k] by {
                            assert(content@[k] == pre_raw[k]);
                        }
                        assert(content.deep_view()[pre.len() as int]
                            == (MessageContentView::ToolUse {
                            id: tool_call.id@,
                            name: tool_call.function.name@,
                            input: input@,
                        }));
                    }
                }
                proof {
                    let prev = spec_tool_calls_back(calls_view.take(j as int));
                    let cur = spec_tool_calls_back(calls_view.take(j + 1));
                    assert(calls_view.take(j + 1).drop_last() =~= calls_view.take(j as int));
                    if calls_view[j as int].tool_type == "function"@ {
                        let elem = MessageContentView::ToolUse {
                            id: calls_view[j as int].id,
                            name: calls_view[j as int].function.name,
                            input: spec_arguments_to_bytes(calls_view[j as int].function.arguments),
                        };
                        assert(cur == prev.push(elem));
                        assert(content.deep_view().len() == (items_part + cur).len());
                        assert forall|k: int|
                            0 <= k < content.deep_view().len() implies content.deep_view()[k] == (
                        items_part + cur)[k] by {
                            let pre = items_part + prev;
                            if k < items_part.len() {
                                assert(content.deep_view()[k] == pre[k]);
                            } else if k < pre.len() {
                                assert(content.deep_view()[k] == pre[k]);
                                assert(cur[k - items_part.len()] == prev[k - items_part.len()]);
                            } else {
                                assert(content.deep_view()[k] == elem);
                                assert((items_part + cur)[k] == cur[prev.len() as int]);
                            }
                        }
                        assert(content.deep_view() =~= items_part + cur);
                    } else {
                        assert(cur == prev);
                        assert(content.deep_view() =~~= items_part + cur);
                    }
                }
                j = j + 1;
            }
            proof {
                assert(calls_view.take(calls_view.len() as int) =~= calls_view);
            }
        }

        let r = Message { role: MessageConverter::map_role_back(role.as_str()), content };
        proof {
            assert(r@.content =~= spec_from_openai(om).content);
            assert(r@ =~= spec_from_openai(om));
        }
        r
    }
}

/// The wire value of one decoded tool-result content item: text becomes a
/// tagged object, an uninterpreted item embeds its canonical JSON text.
pub open spec fn spec_parsed_item_json(p: ParsedItemView) -> JsonView {
    match p {
        ParsedItemView::Text { text } => JsonView::Obj(
            seq![("type"@, JsonView::Str("text"@)), ("text"@, JsonView::Str(text))],
        ),
        ParsedItemView::Other { json } => JsonView::Raw(json),
    }
}

/// The wire values of a sequence of decoded tool-result content items.
pub open spec fn spec_parsed_items_json(items: Seq<ParsedItemView>) -> Seq<JsonView>
    decreases items.len(),
{
    if items.len() == 0 {
        Seq::empty()
    } else {
        spec_parsed_items_json(items.drop_last()).push(spec_parsed_item_json(items.last()))
    }
}

proof fn lemma_parsed_items_json_pointwise(items: Seq<ParsedItemView>)
    ensures
        spec_parsed_items_json(items).len() == items.len(),
        forall|i: int|
            0 <= i < items.len() ==> spec_parsed_items_json(items)[i] == spec_parsed_item_json(
                items[i],
            ),
    decreases items.len(),
{
    if items.len() > 0 {
        lemma_parsed_items_json_pointwise(items.drop_last());
    }
}

/// The wire value of an image reference: its URL, and its detail when set.
pub open spec fn spec_image_url_json(iu: OpenAIImageUrlView) -> JsonView {
    let base = seq![("url"@, JsonView::Str(iu.url))];
    JsonView::Obj(
        match iu.detail {
            Some(d) => base.push(("detail"@, JsonView::Str(d))),
            None => base,
        },
    )
}

/// The wire value of one vendor content item under the structured format,
/// tagged by its kind.
pub open spec fn spec_item_json(item: OpenAIContentItemView) -> JsonView {
    match item {
        OpenAIContentItemView::Text { text } => JsonView::Obj(
            seq![("type"@, JsonView::Str("text"@)), ("text"@, JsonView::Str(text))],
        ),
        OpenAIContentItemView::ImageUrl { image_url } => JsonView::Obj(
            seq![
                ("type"@, JsonView::Str("image_url"@)),
                ("image_url"@, spec_image_url_json(image_url)),
            ],
        ),
        OpenAIContentItemView::ToolUse { id, name, input } => JsonView::Obj(
            seq![
                ("type"@, JsonView::Str("tool_use"@)),
                ("id"@, JsonView::Str(id)),
                ("name"@, JsonView::Str(name)),
                ("input"@, JsonView::Raw(input)),
            ],
        ),
        OpenAIContentItemView::ToolResult { tool_use_id, content, is_error } => {
            let base = seq![
                ("type"@, JsonView::Str("tool_result"@)),
                ("tool_use_id"@, JsonView::Str(tool_use_id)),
                ("content"@, JsonView::Arr(spec_parsed_items_json(content))),
            ];
            JsonView::Obj(
                match is_error {
                    Some(b) => base.push(("is_error"@, JsonView::Bool(b))),
                    None => base,
                },
            )
        },
    }
}

/// The wire values of vendor content items under the structured format.
pub open spec fn spec_items_json(items: Seq<OpenAIContentItemView>) -> Seq<JsonView>
    decreases items.len(),
{
    if items.len() == 0 {
        Seq::empty()
    } else {
        spec_items_json(items.drop_last()).push(spec_item_json(items.last()))
    }
}

proof fn lemma_items_json_pointwise(items: Seq<OpenAIContentItemView>)
    ensures
        spec_items_json(items).len() == items.len(),
        forall|i: int|
            0 <= i < items.len() ==> spec_items_json(items)[i] == spec_item_json(items[i]),
    decreases items.len(),
{
    if items.len() > 0 {
        lemma_items_json_pointwise(items.drop_last());
    }
}

/// The parts that the flattened string format keeps, in order: each text
/// item's text, and each tool result's extracted text, prefixed with
/// `"Error: "` when the result is an error; everything else is skipped.
pub open spec fn spec_string_parts(items: Seq<OpenAIContentItemView>) -> Seq<Seq<char>>
    decreases items.len(),
{
    if items.len() == 0 {
        Seq::empty()
    } else {
        let rest = spec_string_parts(items.drop_last());
        match items.last() {
            OpenAIContentItemView::Text { text } => rest.push(text),
            OpenAIContentItemView::ToolResult { content, is_error, .. } => rest.push(
                if is_error == Some(true) {
                    "Error: "@ + spec_extract_text(content)
                } else {
                    spec_extract_text(content)
                },
            ),
            _ => rest,
        }
    }
}

/// The flattened string wire value: the kept parts joined with newlines and
/// trimmed, or the `"[No content]"` placeholder when nothing is left. This
/// format is lossy by design.
pub open spec fn spec_serialize_as_string(items: Seq<OpenAIContentItemView>) -> JsonView {
    let trimmed = spec_trim(spec_join(spec_string_parts(items), "\n"@));
    JsonView::Str(
        if trimmed.len() == 0 {
            "[No content]"@
        } else {
            trimmed
        },
    )
}

/// The structured array wire value: every item, tagged by its kind.
pub open spec fn spec_serialize_as_array(items: Seq<OpenAIContentItemView>) -> JsonView {
    JsonView::Arr(spec_items_json(items))
}

/// The wire value of vendor content under a format.
pub open spec fn spec_serialize_for_format(
    items: Seq<OpenAIContentItemView>,
    format: ContentFormat,
) -> JsonView {
    match format {
        ContentFormat::Plain => spec_serialize_as_string(items),
        ContentFormat::Array => spec_serialize_as_array(items),
    }
}

/// Build the wire value of one decoded tool-result content item.
fn parsed_item_to_json(p: &ParsedItem) -> (r: JsonValue)
    ensures
        r@ == spec_parsed_item_json(p@),
{
    match p {
        ParsedItem::Text { text } => {
            let fields: Vec<(String, JsonValue)> = vec![
                (String::from_str("type"), JsonValue::Str(String::from_str("text"))),
                (String::from_str("text"), JsonValue::Str(text.clone())),
            ];
            let r = JsonValue::Obj(fields);
            proof {
                lemma_json_view_fields_all(r->Obj_0@);
                assert(crate::jsonval::json_view_fields(r->Obj_0@, 0) =~= seq![
                    ("type"@, JsonView::Str("text"@)),
                    ("text"@, JsonView::Str(text@)),
                ]);
                assert(r@ == spec_parsed_item_json(p@));
            }
            r
        },
        ParsedItem::Other { json } => JsonValue::Raw(json.clone()),
    }
}

/// Build the wire value of one vendor content item under the structured
/// format.
fn item_to_json(item: &OpenAIContentItem) -> (r: JsonValue)
    ensures
        r@ == spec_item_json(item@),
{
    match item {
        OpenAIContentItem::Text { text } => {
            let fields: Vec<(String, JsonValue)> = vec![
                (String::from_str("type"), JsonValue::Str(String::from_str("text"))),
                (String::from_str("text"), JsonValue::Str(text.clone())),
            ];
            let r = JsonValue::Obj(fields);
            proof {
                lemma_json_view_fields_all(r->Obj_0@);
                assert(crate::jsonval::json_view_fields(r->Obj_0@, 0) =~= seq![
                    ("type"@, JsonView::Str("text"@)),
                    ("text"@, JsonView::Str(text@)),
                ]);
                assert(r@ == spec_item_json(item@));
            }
            r
        },
        OpenAIContentItem::ImageUrl { image_url } => {
            let mut inner: Vec<(String, JsonValue)> = vec![
                (String::from_str("url"), JsonValue::Str(image_url.url.clone())),
            ];
            if let Some(detail) = &image_url.detail {
                inner.push((String::from_str("detail"), JsonValue::Str(detail.clone())));
            }
            let inner_obj = JsonValue::Obj(inner);
            proof {
                lemma_json_view_fields_all(inner_obj->Obj_0@);
                let base = seq![("url"@, JsonView::Str(image_url.url@))];
                match image_url@.detail {
                    Some(d) => {
                        assert(crate::jsonval::json_view_fields(inner_obj->Obj_0@, 0)
                            =~= base.push(("detail"@, JsonView::Str(d))));
                    },
                    None => {
                        assert(crate::jsonval::json_view_fields(inner_obj->Obj_0@, 0) =~= base);
                    },
                }
                assert(inner_obj@ == spec_image_url_json(image_url@));
            }
            let fields: Vec<(String, JsonValue)> = vec![
                (String::from_str("type"), JsonValue::Str(String::from_str("image_url"))),
                (String::from_str("image_url"), inner_obj),
            ];
            let r = JsonValue::Obj(fields);
            proof {
                lemma_json_view_fields_all(r->Obj_0@);
                assert(crate::jsonval::json_view_fields(r->Obj_0@, 0) =~= seq![
                    ("type"@, JsonView::Str("image_url"@)),
                    ("image_url"@, spec_image_url_json(image_url@)),
                ]);
                assert(r@ == spec_item_json(item@));
            }
            r
        },
        OpenAIContentItem::ToolUse { id, name, input } => {
            let fields: Vec<(String, JsonValue)> = vec![
                (String::from_str("type"), JsonValue::Str(String::from_str("tool_use"))),
                (String::from_str("id"), JsonValue::Str(id.clone())),
                (String::from_str("name"), JsonValue::Str(name.clone())),
                (String::from_str("input"), JsonValue::Raw(input.clone())),
            ];
            let r = JsonValue::Obj(fields);
            proof {
                lemma_json_view_fields_all(r->Obj_0@);
                assert(crate::jsonval::json_view_fields(r->Obj_0@, 0) =~= seq![
                    ("type"@, JsonView::Str("tool_use"@)),
                    ("id"@, JsonView::Str(id@)),
                    ("name"@, JsonView::Str(name@)),
                    ("input"@, JsonView::Raw(input@)),
                ]);
                assert(r@ == spec_item_json(item@));
            }
            r
        },
        OpenAIContentItem::ToolResult { tool_use_id, content, is_error } => {
            let mut arr: Vec<JsonValue> = Vec::new();
            let mut k: usize = 0;
            while k < content.len()
                invariant
                    k <= content@.len(),
                    content.deep_view().len() == content@.len(),
                    forall|m: int| 0 <= m < content@.len() ==> content.deep_view()[m]
                        == content@[m]@,
                    arr@.len() == k,
                    forall|m: int|
                        0 <= m < k ==> crate::jsonval::json_view(#[trigger] arr@[m])
                            == spec_parsed_item_json(content.deep_view()[m]),
                decreases content@.len() - k,
            {
                arr.push(parsed_item_to_json(&content[k]));
                k = k + 1;
            }
            let content_arr = JsonValue::Arr(arr);
            proof {
                lemma_json_view_seq_all(content_arr->Arr_0@);
                lemma_parsed_items_json_pointwise(content.deep_view());
                assert(crate::jsonval::json_view_seq(content_arr->Arr_0@, 0)
                    =~= spec_parsed_items_json(content.deep_view()));
                assert(content_arr@ == JsonView::Arr(
                    spec_parsed_items_json(content.deep_view()),
                ));
            }
            let mut fields: Vec<(String, JsonValue)> = vec![
                (String::from_str("type"), JsonValue::Str(String::from_str("tool_result"))),
                (String::from_str("tool_use_id"), JsonValue::Str(tool_use_id.clone())),
                (String::from_str("content"), content_arr),
            ];
            if let Some(b) = is_error {
                fields.push((String::from_str("is_error"), JsonValue::Bool(*b)));
            }
            let r = JsonValue::Obj(fields);
            proof {
                lemma_json_view_fields_all(r->Obj_0@);
                let base = seq![
                    ("type"@, JsonView::Str("tool_result"@)),
                    ("tool_use_id"@, JsonView::Str(tool_use_id@)),
                    ("content"@, JsonView::Arr(spec_parsed_items_json(content.deep_view()))),
                ];
                match *is_error {
                    Some(b) => {
                        assert(crate::jsonval::json_view_fields(r->Obj_0@, 0) =~= base.push(
                            ("is_error"@, JsonView::Bool(b)),
                        ));
                    },
                    None => {
                        assert(crate::jsonval::json_view_fields(r->Obj_0@, 0) =~= base);
                    },
                }
                assert(r@ == spec_item_json(item@));
            }
            r
        },
    }
}

impl OpenAIContent {
    /// Flatten the content to one string: texts and tool-result texts, the
    /// latter prefixed with `"Error: "` on error, joined with newlines and
    /// trimmed, with a placeholder when nothing text-representable is left.
    fn serialize_as_string(&self) -> (r: JsonValue)
        ensures
            r@ == spec_serialize_as_string(self@),
    {
        let ghost items_view = self@;
        let mut parts: Vec<String> = Vec::new();
        let mut i: usize = 0;
        while i < self.items.len()
            invariant
                self@ == items_view,
                i <= items_view.len(),
                self.items@.len() == items_view.len(),
                forall|m: int| 0 <= m < items_view.len() ==> items_view[m] == self.items@[m]@,
                parts.deep_view() == spec_string_parts(items_view.take(i as int)),
            decreases items_view.len() - i,
        {
            proof {
                assert(items_view.take(i + 1).drop_last() =~= items_view.take(i as int));
                assert(items_view.take(i + 1).last() == items_view[i as int]);
            }
            match &self.items[i] {
                OpenAIContentItem::Text { text } => {
                    parts.push(text.clone());
                },
                OpenAIContentItem::ToolResult { content, is_error, .. } => {
                    let result_text = extract_text_from_content_items(content);
                    let part = match is_error {
                        Some(true) => concat_strs("Error: ", result_text.as_str()),
                        _ => result_text,
                    };
                    parts.push(part);
                },
                _ => {},
            }
            proof {
                assert(parts.deep_view() =~= spec_string_parts(items_view.take(i + 1)));
            }
            i = i + 1;
        }
        proof {
            assert(items_view.take(items_view.len() as int) =~= items_view);
        }
        let combined = crate::strutil::join_strings(&parts, "\n");
        let trimmed = crate::strutil::trim_string(combined.as_str());
        if trimmed.as_str().is_empty() {
            JsonValue::Str(String::from_str("[No content]"))
        } else {
            JsonValue::Str(trimmed)
        }
    }

    /// Serialize the content as a structured array of tagged items.
    fn serialize_as_array(&self) -> (r: JsonValue)
        ensures
            r@ == spec_serialize_as_array(self@),
    {
        let ghost items_view = self@;
        let mut arr: Vec<JsonValue> = Vec::new();
        let mut i: usize = 0;
        while i < self.items.len()
            invariant
                self@ == items_view,
                i <= items_view.len(),
                self.items@.len() == items_view.len(),
                forall|m: int| 0 <= m < items_view.len() ==> items_view[m] == self.items@[m]@,
                arr@.len() == i,
                forall|m: int|
                    0 <= m < i ==> crate::jsonval::json_view(#[trigger] arr@[m]) == spec_item_json(
                        items_view[m],
                    ),
            decreases items_view.len() - i,
        {
            arr.push(item_to_json(&self.items[i]));
            i = i + 1;
        }
        let r = JsonValue::Arr(arr);
        proof {
            lemma_json_view_seq_all(r->Arr_0@);
            lemma_items_json_pointwise(items_view);
            assert(crate::jsonval::json_view_seq(r->Arr_0@, 0) =~= spec_items_json(items_view));
            assert(r@ == spec_serialize_as_array(items_view));
        }
        r
    }

    /// Serialize the content for a provider's format.
    pub fn serialize_for_format(&self, format: &ContentFormat) -> (r: JsonValue)
        ensures
            r@ == spec_serialize_for_format(self@, *format),
    {
        match format {
            ContentFormat::Plain => self.serialize_as_string(),
            ContentFormat::Array => self.serialize_as_array(),
        }
    }
}

/// The wire value of one vendor tool call.
pub open spec fn spec_tool_call_json(tc: OpenAIToolCallView) -> JsonView {
    JsonView::Obj(
        seq![
            ("id"@, JsonView::Str(tc.id)),
            ("type"@, JsonView::Str(tc.tool_type)),
            (
                "function"@,
                JsonView::Obj(
                    seq![
                        ("name"@, JsonView::Str(tc.function.name)),
                        ("arguments"@, JsonView::Str(tc.function.arguments)),
                    ],
                ),
            ),
        ],
    )
}

/// The wire values of a sequence of vendor tool calls.
pub open spec fn spec_tool_calls_json(tcs: Seq<OpenAIToolCallView>) -> Seq<JsonView>
    decreases tcs.len(),
{
    if tcs.len() == 0 {
        Seq::empty()
    } else {
        spec_tool_calls_json(tcs.drop_last()).push(spec_tool_call_json(tcs.last()))
    }
}

proof fn lemma_tool_calls_json_pointwise(tcs: Seq<OpenAIToolCallView>)
    ensures
        spec_tool_calls_json(tcs).len() == tcs.len(),
        forall|i: int|
            0 <= i < tcs.len() ==> spec_tool_calls_json(tcs)[i] == spec_tool_call_json(tcs[i]),
    decreases tcs.len(),
{
    if tcs.len() > 0 {
        lemma_tool_calls_json_pointwise(tcs.drop_last());
    }
}

/// Build the wire value of one vendor tool call.
fn tool_call_to_json(tc: &OpenAIToolCall) -> (r: JsonValue)
    ensures
        r@ == spec_tool_call_json(tc@),
{
    let function_fields: Vec<(String, JsonValue)> = vec![
        (String::from_str("name"), JsonValue::Str(tc.function.name.clone())),
        (String::from_str("arguments"), JsonValue::Str(tc.function.arguments.clone())),
    ];
    let function_obj = JsonValue::Obj(function_fields);
    proof {
        lemma_json_view_fields_all(function_obj->Obj_0@);
        assert(crate::jsonval::json_view_fields(function_obj->Obj_0@, 0) =~= seq![
            ("name"@, JsonView::Str(tc.function.name@)),
            ("arguments"@, JsonView::Str(tc.function.arguments@)),
        ]);
        assert(function_obj@ == JsonView::Obj(
            seq![
                ("name"@, JsonView::Str(tc.function.name@)),
                ("arguments"@, JsonView::Str(tc.function.arguments@)),
            ],
        ));
    }
    let fields: Vec<(String, JsonValue)> = vec![
        (String::from_str("id"), JsonValue::Str(tc.id.clone())),
        (String::from_str("type"), JsonValue::Str(tc.tool_type.clone())),
        (String::from_str("function"), function_obj),
    ];
    let r = JsonValue::Obj(fields);
    proof {
        lemma_json_view_fields_all(r->Obj_0@);
        assert(crate::jsonval::json_view_fields(r->Obj_0@, 0) =~= seq![
            ("id"@, JsonView::Str(tc.id@)),
            ("type"@, JsonView::Str(tc.tool_type@)),
            (
                "function"@,
                JsonView::Obj(
                    seq![
                        ("name"@, JsonView::Str(tc.function.name@)),
                        ("arguments"@, JsonView::Str(tc.function.arguments@)),
                    ],
                ),
            ),
        ]);
        assert(r@ == spec_tool_call_json(tc@));
    }
    r
}

/// The wire value of a message's audio output.
pub open spec fn spec_audio_json(a: OpenAIAudioView) -> JsonView {
    JsonView::Obj(
        seq![
            ("id"@, JsonView::Str(a.id)),
            ("expires_at"@, JsonView::Int(a.expires_at)),
            ("data"@, JsonView::Str(a.data)),
            ("transcript"@, JsonView::Str(a.transcript)),
        ],
    )
}

/// The wire value of a vendor message under a format: its role, then its
/// content in the chosen format, then each optional part that is present.
pub open spec fn spec_message_json(m: OpenAIMessageView, format: ContentFormat) -> JsonView {
    let f0 = seq![("role"@, JsonView::Str(m.role))];
    let f1 = match m.content {
        Some(items) => f0.push(("content"@, spec_serialize_for_format(items, format))),
        None => f0,
    };
    let f2 = match m.tool_calls {
        Some(tcs) => f1.push(("tool_calls"@, JsonView::Arr(spec_tool_calls_json(tcs)))),
        None => f1,
    };
    let f3 = match m.tool_call_id {
        Some(id) => f2.push(("tool_call_id"@, JsonView::Str(id))),
        None => f2,
    };
    let f4 = match m.name {
        Some(name) => f3.push(("name"@, JsonView::Str(name))),
        None => f3,
    };
    let f5 = match m.audio {
        Some(audio) => f4.push(("audio"@, spec_audio_json(audio))),
        None => f4,
    };
    let f6 = match m.refusal {
        Some(refusal) => f5.push(("refusal"@, JsonView::Str(refusal))),
        None => f5,
    };
    JsonView::Obj(f6)
}

impl OpenAIMessage {
    /// Serialize the message for a provider's format: role first, then
    /// content in the chosen shape, then each optional part that is present.
    pub fn serialize_for_format(&self, format: &ContentFormat) -> (r: JsonValue)
        ensures
            r@ == spec_message_json(self@, *format),
    {
        let mut fields: Vec<(String, JsonValue)> = Vec::new();
        fields.push((String::from_str("role"), JsonValue::Str(self.role.clone())));
        if let Some(content) = &self.content {
            fields.push((String::from_str("content"), content.serialize_for_format(format)));
        }
        if let Some(tool_calls) = &self.tool_calls {
            let mut arr: Vec<JsonValue> = Vec::new();
            let ghost tcs_view = tool_calls.deep_view();
            let mut i: usize = 0;
            while i < tool_calls.len()
                invariant
                    tool_calls.deep_view() == tcs_view,
                    i <= tcs_view.len(),
                    tool_calls@.len() == tcs_view.len(),
                    forall|m: int| 0 <= m < tcs_view.len() ==> tcs_view[m] == tool_calls@[m]@,
                    arr@.len() == i,
                    forall|m: int|
                        0 <= m < i ==> crate::jsonval::json_view(#[trigger] arr@[m])
                            == spec_tool_call_json(tcs_view[m]),
                decreases tcs_view.len() - i,
            {
                arr.push(tool_call_to_json(&tool_calls[i]));
                i = i + 1;
            }
            let tc_arr = JsonValue::Arr(arr);
            proof {
                lemma_json_view_seq_all(tc_arr->Arr_0@);
                lemma_tool_calls_json_pointwise(tcs_view);
                assert(crate::jsonval::json_view_seq(tc_arr->Arr_0@, 0) =~= spec_tool_calls_json(
                    tcs_view,
                ));
                assert(tc_arr@ == JsonView::Arr(spec_tool_calls_json(tcs_view)));
            }
            fields.push((String::from_str("tool_calls"), tc_arr));
        }
        if let Some(tool_call_id) = &self.tool_call_id {
            fields.push((String::from_str("tool_call_id"), JsonValue::Str(tool_call_id.clone())));
        }
        if let Some(name) = &self.name {
            fields.push((String::from_str("name"), JsonValue::Str(name.clone())));
        }
        if let Some(audio) = &self.audio {
            let audio_fields: Vec<(String, JsonValue)> = vec![
                (String::from_str("id"), JsonValue::Str(audio.id.clone())),
                (String::from_str("expires_at"), JsonValue::Int(audio.expires_at)),
                (String::from_str("data"), JsonValue::Str(audio.data.clone())),
                (String::from_str("transcript"), JsonValue::Str(audio.transcript.clone())),
            ];
            let audio_obj = JsonValue::Obj(audio_fields);
            proof {
                lemma_json_view_fields_all(audio_obj->Obj_0@);
                assert(crate::jsonval::json_view_fields(audio_obj->Obj_0@, 0) =~= seq![
                    ("id"@, JsonView::Str(audio.id@)),
                    ("expires_at"@, JsonView::Int(audio.expires_at)),
                    ("data"@, JsonView::Str(audio.data@)),
                    ("transcript"@, JsonView::Str(audio.transcript@)),
                ]);
                assert(audio_obj@ == spec_audio_json(audio@));
            }
            fields.push((String::from_str("audio"), audio_obj));
        }
        if let Some(refusal) = &self.refusal {
            fields.push((String::from_str("refusal"), JsonValue::Str(refusal.clone())));
        }
        let r = JsonValue::Obj(fields);
        proof {
            lemma_json_view_fields_all(r->Obj_0@);
            let m = self@;
            let f0 = seq![("role"@, JsonView::Str(m.role))];
            let f1 = match m.content {
                Some(items) => f0.push(("content"@, spec_serialize_for_format(items, *format))),
                None => f0,
            };
            let f2 = match m.tool_calls {
                Some(tcs) => f1.push(("tool_calls"@, JsonView::Arr(spec_tool_calls_json(tcs)))),
                None => f1,
            };
            let f3 = match m.tool_call_id {
                Some(id) => f2.push(("tool_call_id"@, JsonView::Str(id))),
                None => f2,
            };
            let f4 = match m.name {
                Some(name) => f3.push(("name"@, JsonView::Str(name))),
                None => f3,
            };
            let f5 = match m.audio {
                Some(audio) => f4.push(("audio"@, spec_audio_json(audio))),
                None => f4,
            };
            let f6 = match m.refusal {
                Some(refusal) => f5.push(("refusal"@, JsonView::Str(refusal))),
                None => f5,
            };
            assert(crate::jsonval::json_view_fields(r->Obj_0@, 0) =~= f6);
            assert(r@ == spec_message_json(self@, *format));
        }
        r
    }
}

/// Helper for the text-only round trip: over all-text content the walk
/// keeps every item, produces no tool call, finds no tool result and so
/// forces nothing, and the way back restores the items unchanged.
proof fn lemma_text_items_roundtrip(items: Seq<MessageContentView>)
    requires
        forall|i: int| 0 <= i < items.len() ==> items[i] is Text,
    ensures
        spec_content_items(items).len() == items.len(),
        spec_items_back(spec_content_items(items)) =~= items,
        spec_tool_calls(items).len() == 0,
        !spec_has_tool_result(items),
        spec_last_tool_result_id(items) is None,
    decreases items.len(),
{
    if items.len() > 0 {
        lemma_text_items_roundtrip(items.drop_last());
        assert(spec_content_items(items).drop_last() =~= spec_content_items(items.drop_last()));
        assert(spec_items_back(spec_content_items(items)) =~= items);
    }
}

/// Round trip for the common case: a message whose content holds at least
/// one text item and nothing but text items comes back from the vendor
/// shape with its role and its ordered content preserved.
pub proof fn lemma_text_message_roundtrip(m: MessageView)
    requires
        forall|i: int| 0 <= i < m.content.len() ==> m.content[i] is Text,
        exists|i: int| 0 <= i < m.content.len() && m.content[i] is Text,
    ensures
        spec_from_openai(spec_to_openai(m)).role == m.role,
        spec_from_openai(spec_to_openai(m)).content =~= m.content,
{
    lemma_text_items_roundtrip(m.content);
    reveal_strlit("user");
    reveal_strlit("assistant");
    reveal_strlit("system");
    reveal_strlit("tool");
    let om = spec_to_openai(m);
    assert(om.role == spec_map_role(m.role));
    match m.role {
        MessageRole::User => {
            assert(spec_map_role_back("user"@) == MessageRole::User);
        },
        MessageRole::Assistant => {
            assert("assistant"@ != "user"@);
            assert("assistant"@ != "tool"@);
            assert(spec_map_role_back("assistant"@) == MessageRole::Assistant);
        },
        MessageRole::System => {
            assert("system"@ != "user"@);
            assert("system"@ != "tool"@);
            assert("system"@ != "assistant"@);
            assert(spec_map_role_back("system"@) == MessageRole::System);
        },
    }
    assert(spec_from_openai(om).content =~= m.content);
}

} // verus!
