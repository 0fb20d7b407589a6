//! The LLM client: configuration, the authenticated completion request
//! plan, and the exact classification of responses.

use vstd::prelude::*;
use crate::http::{
    pair_views, spec_header_value, is_success_status, Method, RequestPlan, HttpResponse,
};
use crate::json::{json_data_of, json_error_text, parse_json};
use crate::num::{is_numeral, numeral_val, parse_u64};
use crate::llm::error::LlmError;
use crate::llm::models::{
    ChatCompletionRequest, ChatCompletionResponse, CompletionOptions, Message, chat_request_body,
    spec_chat_body, spec_completion_ok, spec_completion_matches, spec_envelope_ok,
    spec_envelope_message, completion_from_json, error_response_from_json,
};

verus! {

/// Immutable client configuration: where the service lives, how to
/// authenticate, which model to ask, and the self-description headers.
#[derive(Debug, Clone)]
pub struct LlmConfig {
    /// API key presented as a bearer token.
    pub api_key: String,
    /// Base URL of the API.
    pub base_url: String,
    /// Model identifier sent with every request.
    pub model: String,
    /// Transport timeout in seconds, enforced by the transport.
    pub timeout_secs: u64,
    /// Sent as `HTTP-Referer` when present.
    pub site_url: Option<String>,
    /// Sent as `X-Title` when present.
    pub app_name: Option<String>,
}

impl LlmConfig {
    /// A configuration for one model with the default service address
    /// and a two-minute timeout.
    pub fn new(api_key: String, model: String) -> (r: Self)
        ensures
            r.api_key == api_key,
            r.base_url@ == "https://openrouter.ai/api/v1"@,
            r.model == model,
            r.timeout_secs == 120,
            r.site_url is None,
            r.app_name is None,
    {
        LlmConfig {
            api_key,
            base_url: "https://openrouter.ai/api/v1".to_owned(),
            model,
            timeout_secs: 120,
            site_url: None,
            app_name: None,
        }
    }
}

/// The headers every completion request carries: the bearer token, the
/// content type, and the optional self-description pair.
pub open spec fn spec_llm_headers(cfg: LlmConfig) -> Seq<(Seq<char>, Seq<char>)> {
    seq![
        ("Authorization"@, "Bearer "@ + cfg.api_key@),
        ("Content-Type"@, "application/json"@),
    ] + (match cfg.site_url {
        Some(s) => seq![("HTTP-Referer"@, s@)],
        None => Seq::empty(),
    }) + (match cfg.app_name {
        Some(s) => seq![("X-Title"@, s@)],
        None => Seq::empty(),
    })
}

/// The options a request is sent with: the caller's, or every option
/// absent.
pub open spec fn spec_effective_options(options: Option<CompletionOptions>) -> CompletionOptions {
    match options {
        Some(o) => o,
        None => CompletionOptions {
            temperature: None,
            max_tokens: None,
            top_p: None,
            frequency_penalty: None,
            presence_penalty: None,
            stop: None,
        },
    }
}

/// The number the `retry-after` header contributes: present exactly
/// when the header is present with an unsigned decimal value that fits
/// a `u64`.
pub open spec fn spec_retry_after(hs: Seq<(String, String)>) -> Option<u64> {
    match spec_header_value(hs, "retry-after"@) {
        None => None,
        Some(s) => if is_numeral(s) && numeral_val(s) <= u64::MAX {
            Some(numeral_val(s) as u64)
        } else {
            None
        },
    }
}

/// The client for the completion API: the validated configuration,
/// read by every request plan. The transport that executes the plans
/// lives with the caller.
#[derive(Debug, Clone)]
pub struct LlmClient {
    pub config: LlmConfig,
}

impl LlmClient {
    /// A client over the given configuration.
    pub fn new(config: LlmConfig) -> (r: Self)
        ensures
            r.config == config,
    {
        LlmClient { config }
    }

    /// The model this client asks.
    pub fn model(&self) -> (r: &str)
        ensures
            r@ == self.config.model@,
    {
        self.config.model.as_str()
    }

    /// The plan of the completion request for a conversation. An empty
    /// conversation is rejected without a request; otherwise the plan
    /// carries the rendered JSON body and the authenticated headers.
    pub fn chat_completion_plan(
        &self,
        messages: Vec<Message>,
        options: Option<CompletionOptions>,
    ) -> (r: Result<RequestPlan, LlmError>)
        ensures
            r is Ok <==> messages@.len() > 0,
            messages@.len() == 0 ==> (r->Err_0 matches LlmError::InvalidRequest(m) && m@
                == "Messages cannot be empty"@),
            r is Ok ==> {
                let plan = r->Ok_0;
                &&& plan.method is Post
                &&& plan.url@ == self.config.base_url@ + "/chat/completions"@
                &&& pair_views(plan.headers@) == spec_llm_headers(self.config)
                &&& plan.query@.len() == 0
                &&& plan.body matches Some(b) && b@ == spec_chat_body(
                    ChatCompletionRequest {
                        model: self.config.model,
                        messages,
                        options: spec_effective_options(options),
                    },
                )
            },
    {
        if messages.len() == 0 {
            return Err(LlmError::InvalidRequest("Messages cannot be empty".to_owned()));
        }
        let opts = match options {
            Some(o) => o,
            None => CompletionOptions::default(),
        };
        let request = ChatCompletionRequest { model: self.config.model.clone(), messages, options: opts };
        let body = chat_request_body(&request);
        let mut url = self.config.base_url.clone();
        url.append("/chat/completions");
        let mut headers: Vec<(String, String)> = Vec::new();
        let mut auth: String = "Bearer ".to_owned();
        auth.append(self.config.api_key.as_str());
        headers.push(("Authorization".to_owned(), auth));
        headers.push(("Content-Type".to_owned(), "application/json".to_owned()));
        match &self.config.site_url {
            Some(s) => {
                headers.push(("HTTP-Referer".to_owned(), s.clone()));
            },
            None => {},
        }
        match &self.config.app_name {
            Some(s) => {
                headers.push(("X-Title".to_owned(), s.clone()));
            },
            None => {},
        }
        proof {
            assert(pair_views(headers@) =~= spec_llm_headers(self.config));
        }
        Ok(
            RequestPlan {
                method: Method::Post,
                url,
                headers,
                query: Vec::new(),
                body: Some(body),
            },
        )
    }
}

/// The message the catch-all API error carries for a body: the
/// `error.message` of the envelope when the body parses to one, the
/// body text verbatim otherwise.
pub open spec fn spec_chat_error_message(body: String) -> String {
    match json_data_of(body@) {
        Some(d) => if spec_envelope_ok(d) {
            spec_envelope_message(d)
        } else {
            body
        },
        None => body,
    }
}

/// Classifies a completion response. Any 2xx status yields the parsed
/// completion, exactly when the body parses to an acceptable
/// completion record; 401 is an authentication failure regardless of
/// body; 429 carries the parsed `retry-after` header, absent when
/// missing or unparseable; every other status becomes the catch-all
/// API error, with the message from the `{error:{message}}` envelope
/// when the body holds one, and the body text otherwise.
pub fn classify_chat_response(resp: HttpResponse) -> (r: Result<ChatCompletionResponse, LlmError>)
    ensures
        is_success_status(resp.status) ==> {
            &&& r is Ok <==> (json_data_of(resp.body@) matches Some(d) && spec_completion_ok(d))
            &&& (r is Ok ==> (json_data_of(resp.body@) matches Some(d) && spec_completion_matches(
                r->Ok_0,
                d,
            )))
            &&& (r is Err ==> r->Err_0 is JsonParseFailed)
        },
        resp.status == 401 ==> r == Result::<ChatCompletionResponse, LlmError>::Err(
            LlmError::AuthError,
        ),
        resp.status == 429 ==> (r matches Err(LlmError::RateLimitExceeded { retry_after })
            && retry_after == spec_retry_after(resp.headers@)),
        !is_success_status(resp.status) && resp.status != 401 && resp.status != 429 ==> (r matches
            Err(LlmError::ApiError { status, message }) && status == resp.status && message
            == spec_chat_error_message(resp.body)),
{
    let HttpResponse { status, headers, body } = resp;
    if 200 <= status && status < 300 {
        match parse_json(body.as_str()) {
            Ok(d) => completion_from_json(&d),
            Err(e) => Err(LlmError::JsonParseFailed(json_error_text(&e))),
        }
    } else if status == 401 {
        Err(LlmError::AuthError)
    } else if status == 429 {
        let retry_after = match crate::http::header_value(&headers, "retry-after") {
            Some(s) => parse_u64(s.as_str()),
            None => None,
        };
        Err(LlmError::RateLimitExceeded { retry_after })
    } else {
        let message = match parse_json(body.as_str()) {
            Ok(d) => match error_response_from_json(&d) {
                Ok(env) => env.error.message,
                Err(()) => body,
            },
            Err(_) => body,
        };
        Err(LlmError::ApiError { status, message })
    }
}

/// The convenience tail of a completion call: the first choice's
/// content, or an invalid-request error when the service returned no
/// choice at all.
pub fn content_or_error(resp: &ChatCompletionResponse) -> (r: Result<String, LlmError>)
    ensures
        r is Ok <==> resp.choices@.len() > 0,
        r is Ok ==> r->Ok_0@ == resp.choices@[0].message.content@,
        r is Err ==> (r->Err_0 matches LlmError::InvalidRequest(m) && m@
            == "No content in response"@),
{
    match resp.content() {
        Some(c) => Ok(c.to_owned()),
        None => Err(LlmError::InvalidRequest("No content in response".to_owned())),
    }
}

} // verus!
