//! The static model registry: the catalog of supported model ids with their
//! context lengths and prices, exact-match support checks, and the fuzzy
//! suggestion lookup used to build error messages.

use vstd::prelude::*;
use vstd::string::StringExecFns;
use crate::strutil::{lower_of, spec_contains, str_contains, str_eq, to_lowercase, concat_strs};

verus! {

/// Price of a model in cents (hundredths of a dollar) per million tokens.
#[derive(Clone, Copy, Debug, PartialEq, Eq, Structural)]
pub struct ModelPricing {
    pub input_cents_per_million_tokens: u64,
    pub output_cents_per_million_tokens: u64,
}

/// Display metadata for one model of the catalog.
#[derive(Clone, Debug, PartialEq, Eq)]
pub struct OpenAIModelInfo {
    pub id: String,
    pub object: String,
    pub created: Option<i64>,
    pub owned_by: String,
    pub context_length: u32,
    pub pricing: Option<ModelPricing>,
}

/// The mathematical value of an [`OpenAIModelInfo`].
pub struct OpenAIModelInfoView {
    pub id: Seq<char>,
    pub object: Seq<char>,
    pub created: Option<i64>,
    pub owned_by: Seq<char>,
    pub context_length: u32,
    pub pricing: Option<ModelPricing>,
}

impl View for OpenAIModelInfo {
    type V = OpenAIModelInfoView;

    open spec fn view(&self) -> OpenAIModelInfoView {
        OpenAIModelInfoView {
            id: self.id@,
            object: self.object@,
            created: self.created,
            owned_by: self.owned_by@,
            context_length: self.context_length,
            pricing: self.pricing,
        }
    }
}

impl DeepView for OpenAIModelInfo {
    type V = OpenAIModelInfoView;

    open spec fn deep_view(&self) -> OpenAIModelInfoView {
        self.view()
    }
}

/// The catalog: Moonshot models first, then the OpenAI models kept for
/// compatibility.
pub open spec fn spec_available_models() -> Seq<OpenAIModelInfoView> {
    seq![
        spec_model_entry("moonshot-v1-8k"@, "moonshot"@, 8192, None),
        spec_model_entry("moonshot-v1-32k"@, "moonshot"@, 32768, None),
        spec_model_entry("moonshot-v1-128k"@, "moonshot"@, 131072, None),
        spec_model_entry("moonshot-v1-8k-vision-preview"@, "moonshot"@, 8192, None),
        spec_model_entry("kimi-k2-0711-preview"@, "moonshot"@, 128000, None),
        spec_model_entry("kimi-k2-0707-preview"@, "moonshot"@, 128000, None),
        spec_model_entry("gpt-4"@, "openai"@, 8192, None),
        spec_model_entry("gpt-4-turbo"@, "openai"@, 128000, None),
        spec_model_entry("gpt-3.5-turbo"@, "openai"@, 16385, None),
        spec_model_entry(
            "gpt-4o"@,
            "openai"@,
            128000,
            Some(
                ModelPricing {
                    input_cents_per_million_tokens: 250,
                    output_cents_per_million_tokens: 1000,
                },
            ),
        ),
        spec_model_entry(
            "gpt-4o-mini"@,
            "openai"@,
            128000,
            Some(
                ModelPricing {
                    input_cents_per_million_tokens: 15,
                    output_cents_per_million_tokens: 60,
                },
            ),
        ),
        spec_model_entry(
            "o3"@,
            "openai"@,
            200000,
            Some(
                ModelPricing {
                    input_cents_per_million_tokens: 200,
                    output_cents_per_million_tokens: 800,
                },
            ),
        ),
    ]
}

/// A catalog entry with object `"model"` and no creation time.
pub open spec fn spec_model_entry(
    id: Seq<char>,
    owned_by: Seq<char>,
    context_length: u32,
    pricing: Option<ModelPricing>,
) -> OpenAIModelInfoView {
    OpenAIModelInfoView { id, object: "model"@, created: None, owned_by, context_length, pricing }
}

/// Build one catalog entry.
fn model_entry(id: &str, owned_by: &str, context_length: u32, pricing: Option<ModelPricing>) -> (m:
    OpenAIModelInfo)
    ensures
        m@ == spec_model_entry(id@, owned_by@, context_length, pricing),
{
    OpenAIModelInfo {
        id: id.to_owned(),
        object: String::from_str("model"),
        created: None,
        owned_by: owned_by.to_owned(),
        context_length,
        pricing,
    }
}

impl OpenAIModelInfo {
    /// The catalog of available models.
    pub fn get_available_models() -> (models: Vec<OpenAIModelInfo>)
        ensures
            models.deep_view() == spec_available_models(),
    {
        let pricing_4o = ModelPricing {
            input_cents_per_million_tokens: 250,
            output_cents_per_million_tokens: 1000,
        };
        let pricing_4o_mini = ModelPricing {
            input_cents_per_million_tokens: 15,
            output_cents_per_million_tokens: 60,
        };
        let pricing_o3 = ModelPricing {
            input_cents_per_million_tokens: 200,
            output_cents_per_million_tokens: 800,
        };
        let models = vec![
            model_entry("moonshot-v1-8k", "moonshot", 8192, None),
            model_entry("moonshot-v1-32k", "moonshot", 32768, None),
            model_entry("moonshot-v1-128k", "moonshot", 131072, None),
            model_entry("moonshot-v1-8k-vision-preview", "moonshot", 8192, None),
            model_entry("kimi-k2-0711-preview", "moonshot", 128000, None),
            model_entry("kimi-k2-0707-preview", "moonshot", 128000, None),
            model_entry("gpt-4", "openai", 8192, None),
            model_entry("gpt-4-turbo", "openai", 128000, None),
            model_entry("gpt-3.5-turbo", "openai", 16385, None),
            model_entry("gpt-4o", "openai", 128000, Some(pricing_4o)),
            model_entry("gpt-4o-mini", "openai", 128000, Some(pricing_4o_mini)),
            model_entry("o3", "openai", 200000, Some(pricing_o3)),
        ];
        proof {
            assert(models.deep_view() =~= spec_available_models());
        }
        models
    }

    /// Whether `model_id` names a model of the catalog, by exact match.
    pub fn is_model_supported(model_id: &str) -> (supported: bool)
        ensures
            supported == spec_is_supported(model_id@),
    {
        let models = Self::get_available_models();
        let mut i: usize = 0;
        while i < models.len()
            invariant
                models.deep_view() == spec_available_models(),
                models@.len() == spec_available_models().len(),
                i <= models@.len(),
                forall|j: int|
                    0 <= j < i ==> #[trigger] spec_available_models()[j].id != model_id@,
            decreases models@.len() - i,
        {
            proof {
                assert(spec_available_models()[i as int] == models@[i as int].deep_view());
            }
            if str_eq(models[i].id.as_str(), model_id) {
                proof {
                    assert(spec_available_models()[i as int].id == model_id@);
                }
                return true;
            }
            i = i + 1;
        }
        false
    }
}

/// Whether `id` names a model of the catalog.
pub open spec fn spec_is_supported(id: Seq<char>) -> bool {
    exists|i: int|
        0 <= i < spec_available_models().len() && #[trigger] spec_available_models()[i].id == id
}

/// The context length of the first catalog entry named `id`, if any.
pub open spec fn spec_lookup_context_length(
    models: Seq<OpenAIModelInfoView>,
    id: Seq<char>,
) -> Option<u32>
    decreases models.len(),
{
    if models.len() == 0 {
        None
    } else if models[0].id == id {
        Some(models[0].context_length)
    } else {
        spec_lookup_context_length(models.drop_first(), id)
    }
}

/// The token limit reported for `id`: its catalog context length, or 128000
/// for a model the catalog does not know.
pub open spec fn spec_max_tokens(id: Seq<char>) -> u32 {
    match spec_lookup_context_length(spec_available_models(), id) {
        Some(n) => n,
        None => 128000,
    }
}

/// The pricing of the first catalog entry named `id`, if that entry carries
/// one.
pub open spec fn spec_lookup_pricing(
    models: Seq<OpenAIModelInfoView>,
    id: Seq<char>,
) -> Option<ModelPricing>
    decreases models.len(),
{
    if models.len() == 0 {
        None
    } else if models[0].id == id {
        models[0].pricing
    } else {
        spec_lookup_pricing(models.drop_first(), id)
    }
}

/// The pricing assumed when the catalog has none for a model.
pub open spec fn spec_default_pricing() -> ModelPricing {
    ModelPricing { input_cents_per_million_tokens: 250, output_cents_per_million_tokens: 1000 }
}

/// The pricing reported for `id`.
pub open spec fn spec_pricing(id: Seq<char>) -> ModelPricing {
    match spec_lookup_pricing(spec_available_models(), id) {
        Some(p) => p,
        None => spec_default_pricing(),
    }
}

impl OpenAIModelInfo {
    /// The token limit of a model: its catalog context length, or 128000 for
    /// an unknown model.
    pub fn get_max_tokens(model_id: &str) -> (n: u32)
        ensures
            n == spec_max_tokens(model_id@),
    {
        let models = Self::get_available_models();
        let ghost all = spec_available_models();
        proof {
            assert(all.subrange(0, all.len() as int) =~= all);
        }
        let mut i: usize = 0;
        while i < models.len()
            invariant
                models.deep_view() == all,
                all == spec_available_models(),
                i <= models@.len(),
                models@.len() == all.len(),
                spec_lookup_context_length(all, model_id@) == spec_lookup_context_length(
                    all.subrange(i as int, all.len() as int),
                    model_id@,
                ),
            decreases models@.len() - i,
        {
            proof {
                assert(all.subrange(i as int, all.len() as int)[0] == all[i as int]);
                assert(all[i as int] == models@[i as int].deep_view());
            }
            if str_eq(models[i].id.as_str(), model_id) {
                return models[i].context_length;
            }
            proof {
                assert(all.subrange(i as int, all.len() as int).drop_first() =~= all.subrange(
                    i + 1,
                    all.len() as int,
                ));
            }
            i = i + 1;
        }
        proof {
            assert(all.subrange(all.len() as int, all.len() as int) =~= Seq::<
                OpenAIModelInfoView,
            >::empty());
        }
        128000
    }

    /// The price table entry for a model, falling back to the default
    /// pricing when the catalog has none.
    pub fn get_pricing(model_id: &str) -> (p: ModelPricing)
        ensures
            p == spec_pricing(model_id@),
    {
        let models = Self::get_available_models();
        let ghost all = spec_available_models();
        proof {
            assert(all.subrange(0, all.len() as int) =~= all);
        }
        let mut i: usize = 0;
        while i < models.len()
            invariant
                models.deep_view() == all,
                all == spec_available_models(),
                i <= models@.len(),
                models@.len() == all.len(),
                spec_lookup_pricing(all, model_id@) == spec_lookup_pricing(
                    all.subrange(i as int, all.len() as int),
                    model_id@,
                ),
            decreases models@.len() - i,
        {
            proof {
                assert(all.subrange(i as int, all.len() as int)[0] == all[i as int]);
                assert(all[i as int] == models@[i as int].deep_view());
            }
            if str_eq(models[i].id.as_str(), model_id) {
                return match &models[i].pricing {
                    Some(p) => *p,
                    None => ModelPricing {
                        input_cents_per_million_tokens: 250,
                        output_cents_per_million_tokens: 1000,
                    },
                };
            }
            proof {
                assert(all.subrange(i as int, all.len() as int).drop_first() =~= all.subrange(
                    i + 1,
                    all.len() as int,
                ));
            }
            i = i + 1;
        }
        proof {
            assert(all.subrange(all.len() as int, all.len() as int) =~= Seq::<
                OpenAIModelInfoView,
            >::empty());
        }
        ModelPricing { input_cents_per_million_tokens: 250, output_cents_per_million_tokens: 1000 }
    }
}

/// The catalog ids whose lowercase form equals the request's lowercase form.
pub open spec fn spec_exact_matches(
    models: Seq<OpenAIModelInfoView>,
    req_lower: Seq<char>,
) -> Seq<Seq<char>>
    decreases models.len(),
{
    if models.len() == 0 {
        Seq::empty()
    } else {
        let rest = spec_exact_matches(models.drop_last(), req_lower);
        if lower_of(models.last().id) == req_lower {
            rest.push(models.last().id)
        } else {
            rest
        }
    }
}

/// The catalog ids whose lowercase form contains, or is contained in, the
/// request's lowercase form.
pub open spec fn spec_partial_matches(
    models: Seq<OpenAIModelInfoView>,
    req_lower: Seq<char>,
) -> Seq<Seq<char>>
    decreases models.len(),
{
    if models.len() == 0 {
        Seq::empty()
    } else {
        let rest = spec_partial_matches(models.drop_last(), req_lower);
        if spec_contains(lower_of(models.last().id), req_lower) || spec_contains(
            req_lower,
            lower_of(models.last().id),
        ) {
            rest.push(models.last().id)
        } else {
            rest
        }
    }
}

/// The popular-model fallback, chosen by provider hints in the request.
pub open spec fn spec_fallback_suggestions(req_lower: Seq<char>) -> Seq<Seq<char>> {
    if spec_contains(req_lower, "moonshot"@) || spec_contains(req_lower, "kimi"@) {
        seq!["moonshot-v1-8k"@, "moonshot-v1-32k"@, "kimi-k2-0711-preview"@]
    } else if spec_contains(req_lower, "gpt"@) {
        seq!["gpt-4"@, "gpt-4-turbo"@, "gpt-3.5-turbo"@]
    } else {
        seq!["moonshot-v1-8k"@, "kimi-k2-0711-preview"@, "gpt-4"@]
    }
}

/// At most the first three entries of `s`.
pub open spec fn spec_take_three(s: Seq<Seq<char>>) -> Seq<Seq<char>> {
    if s.len() <= 3 {
        s
    } else {
        s.take(3)
    }
}

/// The suggestions for a requested model id: case-insensitive exact matches
/// first; else case-insensitive substring matches in either direction; else
/// the popular-model fallback; truncated to three.
pub open spec fn spec_suggestions(req: Seq<char>) -> Seq<Seq<char>> {
    let req_lower = lower_of(req);
    let models = spec_available_models();
    let exact = spec_exact_matches(models, req_lower);
    if exact.len() > 0 {
        spec_take_three(exact)
    } else {
        let partial = spec_partial_matches(models, req_lower);
        if partial.len() > 0 {
            spec_take_three(partial)
        } else {
            spec_fallback_suggestions(req_lower)
        }
    }
}

/// The suggestion list is never empty, whatever is requested.
pub proof fn lemma_suggestions_never_empty(req: Seq<char>)
    ensures
        spec_suggestions(req).len() > 0,
{
}

impl OpenAIModelInfo {
    /// Suggestions for an unsupported model id, for error messages.
    pub fn get_model_suggestions(requested_model: &str) -> (suggestions: Vec<String>)
        ensures
            suggestions.deep_view() == spec_suggestions(requested_model@),
    {
        let req_lower = to_lowercase(requested_model);
        let models = Self::get_available_models();
        let ghost all = spec_available_models();

        let mut suggestions: Vec<String> = Vec::new();
        let mut i: usize = 0;
        while i < models.len()
            invariant
                models.deep_view() == all,
                all == spec_available_models(),
                i <= models@.len(),
                models@.len() == all.len(),
                req_lower@ == lower_of(requested_model@),
                suggestions.deep_view() == spec_exact_matches(
                    all.take(i as int),
                    lower_of(requested_model@),
                ),
            decreases models@.len() - i,
        {
            proof {
                assert(all[i as int] == models@[i as int].deep_view());
                assert(all.take(i + 1).drop_last() =~= all.take(i as int));
                assert(all.take(i + 1).last() == all[i as int]);
            }
            let id_lower = to_lowercase(models[i].id.as_str());
            if str_eq(id_lower.as_str(), req_lower.as_str()) {
                suggestions.push(models[i].id.clone());
            }
            i = i + 1;
        }
        proof {
            assert(all.take(all.len() as int) =~= all);
        }

        if suggestions.len() == 0 {
            let mut j: usize = 0;
            while j < models.len()
                invariant
                    models.deep_view() == all,
                    all == spec_available_models(),
                    j <= models@.len(),
                    models@.len() == all.len(),
                    req_lower@ == lower_of(requested_model@),
                    suggestions.deep_view() == spec_partial_matches(
                        all.take(j as int),
                        lower_of(requested_model@),
                    ),
                decreases models@.len() - j,
            {
                proof {
                    assert(all[j as int] == models@[j as int].deep_view());
                    assert(all.take(j + 1).drop_last() =~= all.take(j as int));
                    assert(all.take(j + 1).last() == all[j as int]);
                }
                let id_lower = to_lowercase(models[j].id.as_str());
                if str_contains(id_lower.as_str(), req_lower.as_str()) || str_contains(
                    req_lower.as_str(),
                    id_lower.as_str(),
                ) {
                    suggestions.push(models[j].id.clone());
                }
                j = j + 1;
            }
            proof {
                assert(all.take(all.len() as int) =~= all);
            }
        } else {
            proof {
                assert(spec_exact_matches(all, lower_of(requested_model@)).len() > 0);
            }
            if suggestions.len() > 3 {
                suggestions.truncate(3);
            }
            proof {
                assert(suggestions.deep_view() =~= spec_suggestions(requested_model@));
            }
            return suggestions;
        }

        if suggestions.len() == 0 {
            if str_contains(req_lower.as_str(), "moonshot") || str_contains(
                req_lower.as_str(),
                "kimi",
            ) {
                suggestions.push(String::from_str("moonshot-v1-8k"));
                suggestions.push(String::from_str("moonshot-v1-32k"));
                suggestions.push(String::from_str("kimi-k2-0711-preview"));
            } else if str_contains(req_lower.as_str(), "gpt") {
                suggestions.push(String::from_str("gpt-4"));
                suggestions.push(String::from_str("gpt-4-turbo"));
                suggestions.push(String::from_str("gpt-3.5-turbo"));
            } else {
                suggestions.push(String::from_str("moonshot-v1-8k"));
                suggestions.push(String::from_str("kimi-k2-0711-preview"));
                suggestions.push(String::from_str("gpt-4"));
            }
            proof {
                assert(suggestions.deep_view() =~= spec_fallback_suggestions(
                    lower_of(requested_model@),
                ));
            }
        }

        if suggestions.len() > 3 {
            suggestions.truncate(3);
        }
        proof {
            assert(suggestions.deep_view() =~= spec_suggestions(requested_model@));
        }
        suggestions
    }
}

/// Generic model metadata handed back to the caller of the proxy.
#[derive(Clone, Debug, PartialEq, Eq)]
pub struct ModelInfo {
    pub id: String,
    pub display_name: String,
    pub max_tokens: u32,
    pub provider: String,
    pub pricing: Option<ModelPricing>,
}

/// The mathematical value of a [`ModelInfo`].
pub struct ModelInfoView {
    pub id: Seq<char>,
    pub display_name: Seq<char>,
    pub max_tokens: u32,
    pub provider: Seq<char>,
    pub pricing: Option<ModelPricing>,
}

impl View for ModelInfo {
    type V = ModelInfoView;

    open spec fn view(&self) -> ModelInfoView {
        ModelInfoView {
            id: self.id@,
            display_name: self.display_name@,
            max_tokens: self.max_tokens,
            provider: self.provider@,
            pricing: self.pricing,
        }
    }
}

impl DeepView for ModelInfo {
    type V = ModelInfoView;

    open spec fn deep_view(&self) -> ModelInfoView {
        self.view()
    }
}

impl ModelInfo {
    /// The generic metadata of a catalog entry: the display name is the id
    /// followed by the owner in parentheses, and the context length becomes
    /// the token limit.
    pub fn from_openai(model: &OpenAIModelInfo) -> (info: ModelInfo)
        ensures
            info@ == (ModelInfoView {
                id: model@.id,
                display_name: model@.id + " ("@ + model@.owned_by + ")"@,
                max_tokens: model@.context_length,
                provider: model@.owned_by,
                pricing: model@.pricing,
            }),
    {
        let mut display_name = concat_strs(model.id.as_str(), " (");
        display_name.append(model.owned_by.as_str());
        display_name.append(")");
        ModelInfo {
            id: model.id.clone(),
            display_name,
            max_tokens: model.context_length,
            provider: model.owned_by.clone(),
            pricing: model.pricing,
        }
    }
}

} // verus!
