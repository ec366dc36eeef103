//! The provider-agnostic message model: roles, content items and messages.
//! Tool-use input and tool-result payloads travel as opaque JSON bytes; the
//! vendor layer decides how to decode them.

use vstd::prelude::*;

verus! {

/// Who a message is attributed to in the generic model.
#[derive(Clone, Copy, Debug, PartialEq, Eq, Structural)]
pub enum MessageRole {
    User,
    Assistant,
    System,
}

/// One unit of message content.
#[derive(Debug, Clone, PartialEq, Eq)]
pub enum MessageContent {
    /// A piece of text.
    Text { text: String },
    /// A request to invoke a tool, with its structured-JSON input as bytes.
    ToolUse { id: String, name: String, input: Vec<u8> },
    /// The result of a tool invocation, with its payload as opaque bytes.
    ToolResult { tool_use_id: String, content: Vec<u8>, is_error: bool },
}

/// The mathematical value of a [`MessageContent`].
#[verifier::ext_equal]
pub enum MessageContentView {
    Text { text: Seq<char> },
    ToolUse { id: Seq<char>, name: Seq<char>, input: Seq<u8> },
    ToolResult { tool_use_id: Seq<char>, content: Seq<u8>, is_error: bool },
}

impl View for MessageContent {
    type V = MessageContentView;

    open spec fn view(&self) -> MessageContentView {
        match self {
            MessageContent::Text { text } => MessageContentView::Text { text: text@ },
            MessageContent::ToolUse { id, name, input } => MessageContentView::ToolUse {
                id: id@,
                name: name@,
                input: input@,
            },
            MessageContent::ToolResult { tool_use_id, content, is_error } => {
                MessageContentView::ToolResult {
                    tool_use_id: tool_use_id@,
                    content: content@,
                    is_error: *is_error,
                }
            },
        }
    }
}

impl DeepView for MessageContent {
    type V = MessageContentView;

    open spec fn deep_view(&self) -> MessageContentView {
        self.view()
    }
}

/// A generic message: a role and an ordered sequence of content items.
#[derive(Debug, Clone, PartialEq, Eq)]
pub struct Message {
    pub role: MessageRole,
    pub content: Vec<MessageContent>,
}

/// The mathematical value of a [`Message`].
#[verifier::ext_equal]
pub struct MessageView {
    pub role: MessageRole,
    pub content: Seq<MessageContentView>,
}

impl View for Message {
    type V = MessageView;

    open spec fn view(&self) -> MessageView {
        MessageView { role: self.role, content: self.content.deep_view() }
    }
}

impl DeepView for Message {
    type V = MessageView;

    open spec fn deep_view(&self) -> MessageView {
        self.view()
    }
}

impl MessageContent {
    /// A deep copy of one content item.
    pub fn duplicate(&self) -> (r: Self)
        ensures
            r@ == self@,
    {
        match self {
            MessageContent::Text { text } => MessageContent::Text { text: text.clone() },
            MessageContent::ToolUse { id, name, input } => MessageContent::ToolUse {
                id: id.clone(),
                name: name.clone(),
                input: vstd::slice::slice_to_vec(input.as_slice()),
            },
            MessageContent::ToolResult { tool_use_id, content, is_error } => {
                MessageContent::ToolResult {
                    tool_use_id: tool_use_id.clone(),
                    content: vstd::slice::slice_to_vec(content.as_slice()),
                    is_error: *is_error,
                }
            },
        }
    }
}

impl Message {
    /// A deep copy of a message.
    pub fn duplicate(&self) -> (r: Self)
        ensures
            r@ == self@,
    {
        let mut content: Vec<MessageContent> = Vec::new();
        let mut i: usize = 0;
        while i < self.content.len()
            invariant
                i <= self.content@.len(),
                content@.len() == i,
                forall|j: int| 0 <= j < i ==> #[trigger] content@[j]@ == self.content@[j]@,
            decreases self.content@.len() - i,
        {
            content.push(self.content[i].duplicate());
            i = i + 1;
        }
        let r = Message { role: self.role, content };
        proof {
            assert(r@.content =~= self@.content);
        }
        r
    }
}

} // verus!
