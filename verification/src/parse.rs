//! The tool-result payload parser: an ordered fallback chain that turns an
//! opaque byte payload into content items and never fails outright.
//!
//! The chain tries, in order: the bytes as a JSON array of content items;
//! the bytes decoded as UTF-8 and parsed as a JSON array; the decoded text
//! parsed as a single content item; the decoded text taken verbatim; and,
//! when the bytes are not UTF-8 at all, a lossy decoding taken verbatim.
//! JSON decoding itself is the standard machinery of `serde_json`, trusted
//! at this boundary; the chain around it is verified.

use vstd::prelude::*;
use vstd::string::StringExecFns;
use vstd::utf8::{decode_utf8, valid_utf8};
use crate::strutil::spec_join;

verus! {

/// One item of decoded tool-result content: a piece of text, or an item the
/// crate does not interpret, carried as its canonical JSON text.
#[derive(Debug, Clone, PartialEq, Eq)]
pub enum ParsedItem {
    Text { text: String },
    Other { json: String },
}

/// The mathematical value of a [`ParsedItem`].
#[verifier::ext_equal]
pub enum ParsedItemView {
    Text { text: Seq<char> },
    Other { json: Seq<char> },
}

impl View for ParsedItem {
    type V = ParsedItemView;

    open spec fn view(&self) -> ParsedItemView {
        match self {
            ParsedItem::Text { text } => ParsedItemView::Text { text: text@ },
            ParsedItem::Other { json } => ParsedItemView::Other { json: json@ },
        }
    }
}

impl DeepView for ParsedItem {
    type V = ParsedItemView;

    open spec fn deep_view(&self) -> ParsedItemView {
        self.view()
    }
}

/// Names what parsing a byte payload as a JSON array of content items
/// yields: `None` when the bytes are not such an array.
pub uninterp spec fn items_of_json_bytes(b: Seq<u8>) -> Option<Seq<ParsedItemView>>;

/// Relies on `serde_json::from_slice`: decodes the bytes as a JSON array of
/// content-item objects (an object tagged `"type": "text"` carries its text;
/// any other element is kept as its canonical JSON text). The result depends
/// on the bytes alone.
#[verifier::external_body]
fn parse_items_from_bytes(raw: &[u8]) -> (r: Option<Vec<ParsedItem>>)
    ensures
        r.deep_view() == items_of_json_bytes(raw@),
{
    match serde_json::from_slice::<Vec<serde_json::Value>>(raw) {
        Ok(vals) => Some(
            vals.iter().map(
                |v| match (v.get("type").and_then(|t| t.as_str()), v.get("text").and_then(|t| t.as_str())) {
                    (Some("text"), Some(text)) => ParsedItem::Text { text: text.to_string() },
                    _ => ParsedItem::Other { json: v.to_string() },
                },
            ).collect(),
        ),
        Err(_) => None,
    }
}

/// Names what parsing a text as a JSON array of content items yields.
pub uninterp spec fn items_of_json_text(s: Seq<char>) -> Option<Seq<ParsedItemView>>;

/// Relies on `serde_json::from_str`: decodes the text as a JSON array of
/// content-item objects, as [`items_of_json_bytes`] does for bytes. The
/// result depends on the characters alone.
#[verifier::external_body]
fn parse_items_from_text(s: &str) -> (r: Option<Vec<ParsedItem>>)
    ensures
        r.deep_view() == items_of_json_text(s@),
{
    match serde_json::from_str::<Vec<serde_json::Value>>(s) {
        Ok(vals) => Some(
            vals.iter().map(
                |v| match (v.get("type").and_then(|t| t.as_str()), v.get("text").and_then(|t| t.as_str())) {
                    (Some("text"), Some(text)) => ParsedItem::Text { text: text.to_string() },
                    _ => ParsedItem::Other { json: v.to_string() },
                },
            ).collect(),
        ),
        Err(_) => None,
    }
}

/// Names what parsing a text as one JSON content item yields.
pub uninterp spec fn item_of_json_text(s: Seq<char>) -> Option<ParsedItemView>;

/// Relies on `serde_json::from_str`: decodes the text as a single JSON
/// content-item object. The result depends on the characters alone.
#[verifier::external_body]
fn parse_item_from_text(s: &str) -> (r: Option<ParsedItem>)
    ensures
        r.deep_view() == item_of_json_text(s@),
{
    match serde_json::from_str::<serde_json::Value>(s) {
        Ok(v) => {
            if !v.is_object() {
                return None;
            }
            match (v.get("type").and_then(|t| t.as_str()), v.get("text").and_then(|t| t.as_str())) {
                (Some("text"), Some(text)) => Some(ParsedItem::Text { text: text.to_string() }),
                _ => Some(ParsedItem::Other { json: v.to_string() }),
            }
        },
        Err(_) => None,
    }
}

/// Decode bytes as UTF-8, or report that they are not valid UTF-8.
///
/// Relies on `std::str::from_utf8`, which succeeds exactly on valid UTF-8
/// and decodes it.
#[verifier::external_body]
fn bytes_as_utf8(raw: &[u8]) -> (r: Option<&str>)
    ensures
        match r {
            Some(s) => valid_utf8(raw@) && s@ == decode_utf8(raw@),
            None => !valid_utf8(raw@),
        },
{
    std::str::from_utf8(raw).ok()
}

/// Names what the lossy UTF-8 decoding of a byte payload yields.
pub uninterp spec fn utf8_lossy_of(b: Seq<u8>) -> Seq<char>;

/// Relies on `String::from_utf8_lossy`: invalid sequences become
/// replacement characters, and valid UTF-8 decodes unchanged. The result
/// depends on the bytes alone.
#[verifier::external_body]
pub(crate) fn bytes_to_string_lossy(raw: &[u8]) -> (r: String)
    ensures
        r@ == utf8_lossy_of(raw@),
        valid_utf8(raw@) ==> r@ == decode_utf8(raw@),
{
    String::from_utf8_lossy(raw).into_owned()
}

/// What the fallback chain yields for a byte payload.
pub open spec fn spec_parse_content(b: Seq<u8>) -> Seq<ParsedItemView> {
    match items_of_json_bytes(b) {
        Some(items) => items,
        None => {
            if valid_utf8(b) {
                let s = decode_utf8(b);
                match items_of_json_text(s) {
                    Some(items) => items,
                    None => match item_of_json_text(s) {
                        Some(item) => seq![item],
                        None => seq![ParsedItemView::Text { text: s }],
                    },
                }
            } else {
                seq![ParsedItemView::Text { text: utf8_lossy_of(b) }]
            }
        },
    }
}

/// Decodes tool-result payloads.
pub struct ToolResultParser;

impl ToolResultParser {
    /// Decode an opaque tool-result payload into content items, degrading
    /// step by step to plain text. The chain never fails: every byte input
    /// yields a content sequence.
    pub fn parse_content(raw_content: &[u8]) -> (items: Vec<ParsedItem>)
        ensures
            items.deep_view() == spec_parse_content(raw_content@),
    {
        if let Some(items) = parse_items_from_bytes(raw_content) {
            return items;
        }
        match bytes_as_utf8(raw_content) {
            Some(content_str) => {
                if let Some(items) = parse_items_from_text(content_str) {
                    return items;
                }
                if let Some(item) = parse_item_from_text(content_str) {
                    let items = vec![item];
                    proof {
                        assert(items.deep_view() =~= spec_parse_content(raw_content@));
                    }
                    return items;
                }
                let items = vec![Self::create_text_content_item(content_str.to_owned())];
                proof {
                    assert(items.deep_view() =~= spec_parse_content(raw_content@));
                }
                items
            },
            None => {
                let items = vec![
                    Self::create_text_content_item(bytes_to_string_lossy(raw_content)),
                ];
                proof {
                    assert(items.deep_view() =~= spec_parse_content(raw_content@));
                }
                items
            },
        }
    }

    /// Wrap a text verbatim as a single text content item.
    pub fn create_text_content_item(text: String) -> (item: ParsedItem)
        ensures
            item@ == (ParsedItemView::Text { text: text@ }),
    {
        ParsedItem::Text { text }
    }
}

/// The parser never fails and, unless the payload itself is a JSON array
/// with no elements, never yields an empty sequence: every other input ends
/// in a chain step that yields at least one item.
pub proof fn lemma_parse_content_nonempty(b: Seq<u8>)
    requires
        items_of_json_bytes(b) matches Some(items) ==> items.len() > 0,
        valid_utf8(b) ==> (items_of_json_text(decode_utf8(b)) matches Some(items) ==> items.len()
            > 0),
    ensures
        spec_parse_content(b).len() > 0,
{
}

/// The text of the `Text` items among `items`, in order.
pub open spec fn spec_item_texts(items: Seq<ParsedItemView>) -> Seq<Seq<char>>
    decreases items.len(),
{
    if items.len() == 0 {
        Seq::empty()
    } else {
        let rest = spec_item_texts(items.drop_last());
        match items.last() {
            ParsedItemView::Text { text } => rest.push(text),
            ParsedItemView::Other { .. } => rest,
        }
    }
}

/// The texts of the `Text` items among `items`, joined with newlines.
pub open spec fn spec_extract_text(items: Seq<ParsedItemView>) -> Seq<char> {
    spec_join(spec_item_texts(items), "\n"@)
}

/// Join the text of the `Text` items among `items` with newlines, skipping
/// everything else.
pub fn extract_text_from_content_items(items: &Vec<ParsedItem>) -> (r: String)
    ensures
        r@ == spec_extract_text(items.deep_view()),
{
    let mut parts: Vec<String> = Vec::new();
    let mut i: usize = 0;
    while i < items.len()
        invariant
            i <= items@.len(),
            items.deep_view().len() == items@.len(),
            forall|j: int| 0 <= j < items@.len() ==> items.deep_view()[j] == items@[j]@,
            parts.deep_view() == spec_item_texts(items.deep_view().take(i as int)),
        decreases items@.len() - i,
    {
        proof {
            let dv = items.deep_view();
            assert(dv.take(i + 1).drop_last() =~= dv.take(i as int));
            assert(dv.take(i + 1).last() == dv[i as int]);
        }
        match &items[i] {
            ParsedItem::Text { text } => {
                parts.push(text.clone());
            },
            ParsedItem::Other { .. } => {},
        }
        i = i + 1;
    }
    proof {
        assert(items.deep_view().take(items@.len() as int) =~= items.deep_view());
    }
    crate::strutil::join_strings(&parts, "\n")
}

} // verus!
