//! The API client: who we call and with what credentials. The client owns
//! the endpoint and header construction and the classification of HTTP
//! responses into results and errors; the transport itself — sending bytes
//! and sleeping between retries — belongs to the unverified host layer,
//! which drives the retry engine of [`crate::retry`] around these pieces.

use vstd::prelude::*;
use vstd::string::StringExecFns;
use crate::models::{OpenAIModelInfo, spec_available_models};
use crate::parse::{bytes_to_string_lossy, utf8_lossy_of};
use crate::response::{OpenAIError, OpenAIErrorView};
use crate::retry::spec_is_retryable;
use crate::strutil::concat_strs;

verus! {

/// A client for an OpenAI-compatible chat-completions API.
#[derive(Debug, Clone, PartialEq, Eq)]
pub struct OpenAIClient {
    api_key: String,
    base_url: String,
}

/// The mathematical value of an [`OpenAIClient`].
#[verifier::ext_equal]
pub struct OpenAIClientView {
    pub api_key: Seq<char>,
    pub base_url: Seq<char>,
}

impl View for OpenAIClient {
    type V = OpenAIClientView;

    closed spec fn view(&self) -> OpenAIClientView {
        OpenAIClientView { api_key: self.api_key@, base_url: self.base_url@ }
    }
}

impl OpenAIClient {
    /// A client against the vendor's own API URL.
    pub fn new(api_key: String) -> (client: Self)
        ensures
            client@.api_key == api_key@,
            client@.base_url == "https://api.openai.com/v1"@,
    {
        Self::new_with_base_url(api_key, String::from_str("https://api.openai.com/v1"))
    }

    /// A client against a custom base URL.
    pub fn new_with_base_url(api_key: String, base_url: String) -> (client: Self)
        ensures
            client@.api_key == api_key@,
            client@.base_url == base_url@,
    {
        OpenAIClient { api_key, base_url }
    }

    /// Whether a status code is transient and worth retrying.
    pub fn is_retryable_error(status: u16) -> (retryable: bool)
        ensures
            retryable == spec_is_retryable(status),
    {
        match status {
            429 => true,
            502 => true,
            503 => true,
            504 => true,
            _ => false,
        }
    }

    /// The models this client can serve: the static catalog; the vendor API
    /// offers no richer listing.
    pub fn list_models(&self) -> (r: Result<Vec<OpenAIModelInfo>, OpenAIError>)
        ensures
            r matches Ok(models) && models.deep_view() == spec_available_models(),
    {
        Ok(OpenAIModelInfo::get_available_models())
    }

    /// The chat-completions endpoint under this client's base URL.
    pub fn completions_url(&self) -> (url: String)
        ensures
            url@ == self@.base_url + "/chat/completions"@,
    {
        concat_strs(self.base_url.as_str(), "/chat/completions")
    }

    /// The headers of every completion request: the bearer credential, the
    /// JSON content type and the product's user agent.
    pub fn request_headers(&self) -> (headers: Vec<(String, String)>)
        ensures
            headers.deep_view() =~= seq![
                ("authorization"@, "Bearer "@ + self@.api_key),
                ("content-type"@, "application/json"@),
                ("user-agent"@, "moonshot-proxy/0.1.0"@),
            ],
    {
        let headers: Vec<(String, String)> = vec![
            (String::from_str("authorization"), concat_strs("Bearer ", self.api_key.as_str())),
            (String::from_str("content-type"), String::from_str("application/json")),
            (String::from_str("user-agent"), String::from_str("moonshot-proxy/0.1.0")),
        ];
        headers
    }
}

/// What a settled HTTP response means: a 200 body is handed on; 401 is an
/// authentication failure, 429 a rate limit, any other non-200 status an
/// API error carrying the body's text; a 200 with no body at all is an
/// invalid response.
pub open spec fn spec_classify_response(status: u16, body: Option<Seq<u8>>) -> Result<
    Seq<u8>,
    OpenAIErrorView,
> {
    if status != 200 {
        let message = utf8_lossy_of(
            match body {
                Some(b) => b,
                None => Seq::empty(),
            },
        );
        if status == 401 {
            Err(OpenAIErrorView::AuthenticationError(message))
        } else if status == 429 {
            Err(OpenAIErrorView::RateLimitExceeded { retry_after: None })
        } else {
            Err(OpenAIErrorView::ApiError { status, message })
        }
    } else {
        match body {
            Some(b) => Ok(b),
            None => Err(OpenAIErrorView::InvalidResponse("No response body"@)),
        }
    }
}

/// Classify a settled HTTP response: hand a 200 body on, and turn every
/// other case into the corresponding error.
pub fn classify_response(status: u16, body: Option<Vec<u8>>) -> (r: Result<Vec<u8>, OpenAIError>)
    ensures
        match r {
            Ok(b) => spec_classify_response(status, body.deep_view()) == Ok::<
                Seq<u8>,
                OpenAIErrorView,
            >(b@),
            Err(e) => spec_classify_response(status, body.deep_view()) == Err::<
                Seq<u8>,
                OpenAIErrorView,
            >(e@),
        },
{
    proof {
        if body is Some {
            assert(body->0@ =~= body.deep_view()->0);
        }
    }
    if status != 200 {
        let message = match &body {
            Some(b) => bytes_to_string_lossy(b.as_slice()),
            None => {
                let empty: Vec<u8> = Vec::new();
                proof {
                    assert(empty@ =~= Seq::<u8>::empty());
                }
                bytes_to_string_lossy(empty.as_slice())
            },
        };
        if status == 401 {
            Err(OpenAIError::AuthenticationError(message))
        } else if status == 429 {
            Err(OpenAIError::RateLimitExceeded { retry_after: None })
        } else {
            Err(OpenAIError::ApiError { status, message })
        }
    } else {
        match body {
            Some(b) => Ok(b),
            None => Err(OpenAIError::InvalidResponse(String::from_str("No response body"))),
        }
    }
}

} // verus!
