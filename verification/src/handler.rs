//! The decision core of the inbound request handler: which models are
//! accepted, what a completion request turns into before it is sent, and
//! how outcomes are phrased as generic protocol responses. The unverified
//! host layer parses inbound payloads, drives the HTTP call, and hands the
//! plain values through these functions.

use vstd::prelude::*;
use vstd::string::StringExecFns;
use crate::jsonval::JsonValue;
use crate::models::{
    ModelInfo, OpenAIModelInfo, spec_available_models, spec_is_supported, spec_suggestions,
};
use crate::request::{CompletionRequest, OpenAICompletionRequest, spec_from_generic,
    spec_request_json};
use crate::response::{CompletionResponse, OpenAIError, spec_error_message};
use crate::state::ContentFormat;
use crate::strutil::{concat_strs, join_strings, spec_join};

verus! {

/// An inbound request of the generic protocol.
#[derive(Debug, Clone, PartialEq, Eq)]
pub enum ProxyRequest {
    GenerateCompletion(CompletionRequest),
    ListModels,
}

/// An outbound response of the generic protocol: a completion, a model
/// list, or a structured error in place of a hard failure.
#[derive(Debug, Clone, PartialEq, Eq)]
pub enum ProxyResponse {
    Completion(CompletionResponse),
    ListModels(Vec<ModelInfo>),
    Error(String),
}

/// The error text for an unsupported model id: the id, the suggestions when
/// there are any, and where to find the full list.
pub open spec fn spec_unsupported_model_message(model: Seq<char>) -> Seq<char> {
    let suggestions = spec_suggestions(model);
    if suggestions.len() > 0 {
        "Unsupported model '"@ + model + "'. Did you mean one of: "@ + spec_join(
            suggestions,
            ", "@,
        ) + "? Available models can be listed using the ListModels request."@
    } else {
        "Unsupported model '"@ + model
            + "'. Please check the available models using the ListModels request."@
    }
}

/// Validate a model id against the catalog: `None` for a supported model,
/// and the error text to answer with otherwise. Validation happens before
/// any HTTP call is issued.
pub fn validate_model(model: &str) -> (r: Option<String>)
    ensures
        (r is None) <==> spec_is_supported(model@),
        r matches Some(msg) ==> msg@ == spec_unsupported_model_message(model@),
{
    if OpenAIModelInfo::is_model_supported(model) {
        None
    } else {
        let suggestions = OpenAIModelInfo::get_model_suggestions(model);
        let mut msg = concat_strs("Unsupported model '", model);
        if suggestions.len() > 0 {
            msg.append("'. Did you mean one of: ");
            msg.append(join_strings(&suggestions, ", ").as_str());
            msg.append("? Available models can be listed using the ListModels request.");
        } else {
            msg.append("'. Please check the available models using the ListModels request.");
        }
        Some(msg)
    }
}

/// What a completion request becomes before it is sent: the wire value of
/// the translated request — or, when the model is not in the catalog, the
/// error text to answer with, decided before any network round trip.
pub fn prepare_completion_body(request: CompletionRequest, format: &ContentFormat) -> (r: Result<
    JsonValue,
    String,
>)
    ensures
        match r {
            Ok(body) => spec_is_supported(request@.model) && body@ == spec_request_json(
                spec_from_generic(request@),
                *format,
            ),
            Err(msg) => !spec_is_supported(request@.model) && msg@
                == spec_unsupported_model_message(request@.model),
        },
{
    if let Some(msg) = validate_model(request.model.as_str()) {
        return Err(msg);
    }
    let openai_request = OpenAICompletionRequest::from_generic(request);
    Ok(openai_request.serialize_for_provider(format))
}

/// The generic metadata of every catalog model, in catalog order.
pub fn list_models_generic() -> (models: Vec<ModelInfo>)
    ensures
        models.deep_view().len() == spec_available_models().len(),
        forall|i: int|
            0 <= i < spec_available_models().len() ==> #[trigger] models.deep_view()[i]
                == (crate::models::ModelInfoView {
                id: spec_available_models()[i].id,
                display_name: spec_available_models()[i].id + " ("@
                    + spec_available_models()[i].owned_by + ")"@,
                max_tokens: spec_available_models()[i].context_length,
                provider: spec_available_models()[i].owned_by,
                pricing: spec_available_models()[i].pricing,
            }),
{
    let vendor_models = OpenAIModelInfo::get_available_models();
    let mut models: Vec<ModelInfo> = Vec::new();
    let mut i: usize = 0;
    while i < vendor_models.len()
        invariant
            vendor_models.deep_view() == spec_available_models(),
            i <= vendor_models@.len(),
            vendor_models@.len() == spec_available_models().len(),
            models@.len() == i,
            forall|j: int|
                0 <= j < i ==> #[trigger] models@[j]@ == (crate::models::ModelInfoView {
                    id: spec_available_models()[j].id,
                    display_name: spec_available_models()[j].id + " ("@
                        + spec_available_models()[j].owned_by + ")"@,
                    max_tokens: spec_available_models()[j].context_length,
                    provider: spec_available_models()[j].owned_by,
                    pricing: spec_available_models()[j].pricing,
                }),
        decreases vendor_models@.len() - i,
    {
        proof {
            assert(spec_available_models()[i as int] == vendor_models@[i as int].deep_view());
        }
        models.push(ModelInfo::from_openai(&vendor_models[i]));
        i = i + 1;
    }
    models
}

/// The error text answered when a completion could not be generated.
pub fn completion_failure_message(e: &OpenAIError) -> (r: String)
    ensures
        r@ == "Failed to generate completion: "@ + spec_error_message(e@),
{
    concat_strs("Failed to generate completion: ", e.message().as_str())
}

/// The error text answered when the model list could not be produced.
pub fn listing_failure_message(e: &OpenAIError) -> (r: String)
    ensures
        r@ == "Failed to list models: "@ + spec_error_message(e@),
{
    concat_strs("Failed to list models: ", e.message().as_str())
}

} // verus!
