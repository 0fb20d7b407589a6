//! The tracker HTTP client: configuration, authenticated request plans,
//! and the exact classification of responses into data or a
//! [`TrackerError`].

use vstd::prelude::*;
use crate::http::{
    pair_views, header_value, spec_header_value, is_success_status, Method, RequestPlan,
    HttpResponse,
};
use crate::num::{dec_rep, is_numeral, numeral_val, fmt_u32, parse_u32};
use crate::text::{strip_slashes, strip_leading_slashes, trimmed, trim};
use crate::tracker::error::TrackerError;

verus! {

/// Page-number pagination parameters for list requests.
#[derive(Debug, Clone, PartialEq, Eq)]
pub struct PaginationParams {
    /// Objects per page; the service's default is 50.
    pub per_page: Option<u32>,
    /// Page number, counted from 1.
    pub page: Option<u32>,
}

impl Default for PaginationParams {
    /// The first page of fifty objects.
    fn default() -> (r: Self)
        ensures
            r.per_page == Some(50u32),
            r.page == Some(1u32),
    {
        PaginationParams { per_page: Some(50), page: Some(1) }
    }
}

/// Pagination metadata surfaced through response headers, present only
/// when the response carried at least one of them.
#[derive(Debug, Clone, PartialEq, Eq)]
pub struct PaginationMeta {
    /// Total number of pages, from `X-Total-Pages`.
    pub total_pages: Option<u32>,
    /// Total number of records, from `X-Total-Count`.
    pub total_count: Option<u32>,
}

/// The response localisation language.
#[derive(Debug, Clone, Copy, PartialEq, Eq, Structural)]
pub enum Language {
    Russian,
    English,
}

/// The language's tag for the `Accept-Language` header.
pub open spec fn spec_language_str(l: Language) -> Seq<char> {
    match l {
        Language::Russian => "ru"@,
        Language::English => "en"@,
    }
}

impl Language {
    /// The language's tag for the `Accept-Language` header.
    pub fn as_str(&self) -> (r: &str)
        ensures
            r@ == spec_language_str(*self),
    {
        match self {
            Language::Russian => "ru",
            Language::English => "en",
        }
    }
}

/// Immutable client configuration: where the API lives and how to
/// authenticate against it.
#[derive(Debug, Clone)]
pub struct TrackerConfig {
    /// Base URL of the API.
    pub base_url: String,
    /// API version path segment.
    pub api_version: String,
    /// OAuth token presented on every request.
    pub oauth_token: String,
    /// Organisation identifier, sent as `X-Org-ID` when present.
    pub org_id: Option<String>,
    /// Response localisation.
    pub language: Language,
}

impl TrackerConfig {
    /// A configuration with the default service address, API version
    /// `v3`, and Russian localisation.
    pub fn new(oauth_token: String) -> (r: Self)
        ensures
            r.base_url@ == "https://st-api.yandex-team.ru"@,
            r.api_version@ == "v3"@,
            r.oauth_token == oauth_token,
            r.org_id is None,
            r.language is Russian,
    {
        TrackerConfig {
            base_url: "https://st-api.yandex-team.ru".to_owned(),
            api_version: "v3".to_owned(),
            oauth_token,
            org_id: None,
            language: Language::Russian,
        }
    }

    /// Sets the organisation identifier.
    pub fn with_org_id(self, org_id: String) -> (r: Self)
        ensures
            r == (TrackerConfig { org_id: Some(org_id), ..self }),
    {
        TrackerConfig { org_id: Some(org_id), ..self }
    }

    /// Sets the response localisation language.
    pub fn with_language(self, language: Language) -> (r: Self)
        ensures
            r == (TrackerConfig { language, ..self }),
    {
        TrackerConfig { language, ..self }
    }

    /// Sets the base URL.
    pub fn with_base_url(self, base_url: String) -> (r: Self)
        ensures
            r == (TrackerConfig { base_url, ..self }),
    {
        TrackerConfig { base_url, ..self }
    }

    /// Sets the API version path segment.
    pub fn with_api_version(self, api_version: String) -> (r: Self)
        ensures
            r == (TrackerConfig { api_version, ..self }),
    {
        TrackerConfig { api_version, ..self }
    }
}

/// Checks an optional proxy setting: the trimmed value must be nonempty
/// `host:port` text, and gains the SOCKS5 scheme.
pub fn parse_work_proxy_url(work_proxy_value: &str) -> (r: Result<String, TrackerError>)
    ensures
        r is Ok <==> trimmed(work_proxy_value@).len() > 0,
        r is Ok ==> r->Ok_0@ == "socks5://"@ + trimmed(work_proxy_value@),
        r is Err ==> r->Err_0 is ConfigError,
{
    let trimmed_value = trim(work_proxy_value);
    if trimmed_value.as_str().is_empty() {
        Err(
            TrackerError::ConfigError(
                "the proxy setting is present but empty; host:port expected".to_owned(),
            ),
        )
    } else {
        let mut url: String = "socks5://".to_owned();
        url.append(trimmed_value.as_str());
        Ok(url)
    }
}

/// The full URL for a resource: base URL, version, and the path with
/// every leading slash removed, joined with single slashes.
pub open spec fn spec_build_url(cfg: TrackerConfig, path: Seq<char>) -> Seq<char> {
    cfg.base_url@ + seq!['/'] + cfg.api_version@ + seq!['/'] + strip_slashes(path)
}

/// The headers every tracker request carries: authorization, the
/// organisation when configured, and the language.
pub open spec fn spec_tracker_headers(cfg: TrackerConfig) -> Seq<(Seq<char>, Seq<char>)> {
    seq![("Authorization"@, "OAuth "@ + cfg.oauth_token@)] + (match cfg.org_id {
        Some(o) => seq![("X-Org-ID"@, o@)],
        None => Seq::empty(),
    }) + seq![("Accept-Language"@, spec_language_str(cfg.language))]
}

/// The client for the tracker API: the validated configuration, read by
/// every request plan. The transport that executes the plans lives with
/// the caller.
#[derive(Debug, Clone)]
pub struct TrackerClient {
    pub config: TrackerConfig,
}

impl TrackerClient {
    /// A client over the given configuration.
    pub fn new(config: TrackerConfig) -> (r: Self)
        ensures
            r.config == config,
    {
        TrackerClient { config }
    }

    /// A client with the default configuration over one OAuth token.
    pub fn with_token(oauth_token: String) -> (r: Self)
        ensures
            r.config.base_url@ == "https://st-api.yandex-team.ru"@,
            r.config.api_version@ == "v3"@,
            r.config.oauth_token == oauth_token,
            r.config.org_id is None,
            r.config.language is Russian,
    {
        TrackerClient::new(TrackerConfig::new(oauth_token))
    }

    /// Builds the full URL for a resource path, tolerating a leading
    /// slash.
    pub fn build_url(&self, resource_path: &str) -> (r: String)
        ensures
            r@ == spec_build_url(self.config, resource_path@),
    {
        let mut url = self.config.base_url.clone();
        url.append("/");
        url.append(self.config.api_version.as_str());
        url.append("/");
        url.append(strip_leading_slashes(resource_path));
        proof {
            reveal_strlit("/");
            assert("/"@ =~= seq!['/']);
            assert(url@ =~= spec_build_url(self.config, resource_path@));
        }
        url
    }

    /// A leading slash on the resource path does not change the URL.
    /// This is the only normalisation the client performs.
    pub proof fn lemma_build_url_leading_slash(cfg: TrackerConfig, path: Seq<char>)
        ensures
            spec_build_url(cfg, seq!['/'] + path) == spec_build_url(cfg, path),
    {
        assert((seq!['/'] + path).drop_first() =~= path);
        assert(strip_slashes(seq!['/'] + path) == strip_slashes(path));
    }

    /// The headers for one request, as [`spec_tracker_headers`]
    /// describes.
    pub fn request_headers(&self) -> (r: Vec<(String, String)>)
        ensures
            pair_views(r@) == spec_tracker_headers(self.config),
    {
        let mut hs: Vec<(String, String)> = Vec::new();
        let mut auth: String = "OAuth ".to_owned();
        auth.append(self.config.oauth_token.as_str());
        hs.push(("Authorization".to_owned(), auth));
        match &self.config.org_id {
            Some(o) => {
                hs.push(("X-Org-ID".to_owned(), o.clone()));
            },
            None => {},
        }
        hs.push(("Accept-Language".to_owned(), self.config.language.as_str().to_owned()));
        proof {
            assert(pair_views(hs@) =~= spec_tracker_headers(self.config));
        }
        hs
    }

    /// The plan of a GET request.
    pub fn get_plan(&self, resource_path: &str, query: Vec<(String, String)>) -> (r: RequestPlan)
        ensures
            r.method is Get,
            r.url@ == spec_build_url(self.config, resource_path@),
            pair_views(r.headers@) == spec_tracker_headers(self.config),
            r.query == query,
            r.body is None,
    {
        RequestPlan {
            method: Method::Get,
            url: self.build_url(resource_path),
            headers: self.request_headers(),
            query,
            body: None,
        }
    }

    /// The plan of a GET request with pagination parameters, which come
    /// ahead of the caller's query pairs.
    pub fn get_paginated_plan(
        &self,
        resource_path: &str,
        pagination: &PaginationParams,
        query: Vec<(String, String)>,
    ) -> (r: RequestPlan)
        ensures
            r.method is Get,
            r.url@ == spec_build_url(self.config, resource_path@),
            pair_views(r.headers@) == spec_tracker_headers(self.config),
            pair_views(r.query@) == spec_pagination_pairs(*pagination) + pair_views(query@),
            r.body is None,
    {
        let mut q: Vec<(String, String)> = Vec::new();
        match pagination.per_page {
            Some(per_page) => {
                q.push(("perPage".to_owned(), fmt_u32(per_page)));
            },
            None => {},
        }
        match pagination.page {
            Some(page) => {
                q.push(("page".to_owned(), fmt_u32(page)));
            },
            None => {},
        }
        proof {
            assert(pair_views(q@) =~= spec_pagination_pairs(*pagination));
        }
        let ghost own: Seq<(String, String)> = q@;
        let ghost given: Seq<(String, String)> = query@;
        let mut rest = query;
        q.append(&mut rest);
        proof {
            crate::http::lemma_pair_views_concat(own, given);
        }
        RequestPlan {
            method: Method::Get,
            url: self.build_url(resource_path),
            headers: self.request_headers(),
            query: q,
            body: None,
        }
    }

    /// The plan of a POST request carrying a JSON body.
    pub fn post_plan(&self, resource_path: &str, body: String, query: Vec<(String, String)>) -> (r:
        RequestPlan)
        ensures
            r.method is Post,
            r.url@ == spec_build_url(self.config, resource_path@),
            pair_views(r.headers@) == spec_tracker_headers(self.config),
            r.query == query,
            r.body == Some(body),
    {
        RequestPlan {
            method: Method::Post,
            url: self.build_url(resource_path),
            headers: self.request_headers(),
            query,
            body: Some(body),
        }
    }

    /// The plan of a PATCH request carrying a JSON body.
    pub fn patch_plan(&self, resource_path: &str, body: String, query: Vec<(String, String)>) -> (
        r: RequestPlan)
        ensures
            r.method is Patch,
            r.url@ == spec_build_url(self.config, resource_path@),
            pair_views(r.headers@) == spec_tracker_headers(self.config),
            r.query == query,
            r.body == Some(body),
    {
        RequestPlan {
            method: Method::Patch,
            url: self.build_url(resource_path),
            headers: self.request_headers(),
            query,
            body: Some(body),
        }
    }

    /// The plan of a DELETE request.
    pub fn delete_plan(&self, resource_path: &str, query: Vec<(String, String)>) -> (r:
        RequestPlan)
        ensures
            r.method is Delete,
            r.url@ == spec_build_url(self.config, resource_path@),
            pair_views(r.headers@) == spec_tracker_headers(self.config),
            r.query == query,
            r.body is None,
    {
        RequestPlan {
            method: Method::Delete,
            url: self.build_url(resource_path),
            headers: self.request_headers(),
            query,
            body: None,
        }
    }
}

/// The query pairs a [`PaginationParams`] contributes, in order.
pub open spec fn spec_pagination_pairs(p: PaginationParams) -> Seq<(Seq<char>, Seq<char>)> {
    (match p.per_page {
        Some(per_page) => seq![("perPage"@, dec_rep(per_page as nat))],
        None => Seq::empty(),
    }) + (match p.page {
        Some(page) => seq![("page"@, dec_rep(page as nat))],
        None => Seq::empty(),
    })
}

/// The number a pagination header contributes: present exactly when the
/// header is present with an unsigned decimal value that fits a `u32`.
pub open spec fn spec_page_header(hs: Seq<(String, String)>, name: Seq<char>) -> Option<u32> {
    match spec_header_value(hs, name) {
        None => None,
        Some(s) => if is_numeral(s) && numeral_val(s) <= u32::MAX {
            Some(numeral_val(s) as u32)
        } else {
            None
        },
    }
}

/// The pagination metadata of a response: present exactly when at least
/// one of the two headers contributed a number.
pub open spec fn spec_pagination(hs: Seq<(String, String)>) -> Option<PaginationMeta> {
    let tp = spec_page_header(hs, "X-Total-Pages"@);
    let tc = spec_page_header(hs, "X-Total-Count"@);
    if tp is Some || tc is Some {
        Some(PaginationMeta { total_pages: tp, total_count: tc })
    } else {
        None
    }
}

/// Reads one pagination header, as [`spec_page_header`] describes.
fn page_header(headers: &Vec<(String, String)>, name: &str) -> (r: Option<u32>)
    ensures
        r == spec_page_header(headers@, name@),
{
    match header_value(headers, name) {
        None => None,
        Some(s) => parse_u32(s.as_str()),
    }
}

/// Extracts pagination metadata from response headers, as
/// [`spec_pagination`] describes.
pub fn pagination_from_headers(headers: &Vec<(String, String)>) -> (r: Option<PaginationMeta>)
    ensures
        r == spec_pagination(headers@),
{
    let total_pages = page_header(headers, "X-Total-Pages");
    let total_count = page_header(headers, "X-Total-Count");
    if total_pages.is_some() || total_count.is_some() {
        Some(PaginationMeta { total_pages, total_count })
    } else {
        None
    }
}

/// Classifies a tracker response. A 2xx response yields the value the
/// body parses to together with the pagination metadata; 401, 403 and
/// 404 map to their own error values, 404 carrying the body text
/// verbatim; any other status becomes the catch-all API error with the
/// body as its message.
pub fn handle_tracker_response(resp: HttpResponse) -> (r: Result<
    (crate::json::JsonData, Option<PaginationMeta>),
    TrackerError,
>)
    ensures
        is_success_status(resp.status) ==> {
            &&& r is Ok <==> crate::json::json_data_of(resp.body@) is Some
            &&& (r is Ok ==> Some(r->Ok_0.0) == crate::json::json_data_of(resp.body@))
            &&& (r is Ok ==> r->Ok_0.1 == spec_pagination(resp.headers@))
            &&& (r is Err ==> r->Err_0 is JsonParseFailed)
        },
        resp.status == 401 ==> r == Result::<(crate::json::JsonData, Option<PaginationMeta>),
            TrackerError,
        >::Err(TrackerError::Unauthorized),
        resp.status == 403 ==> r == Result::<(crate::json::JsonData, Option<PaginationMeta>),
            TrackerError,
        >::Err(TrackerError::Forbidden),
        resp.status == 404 ==> (r matches Err(TrackerError::NotFound { resource }) && resource@
            == resp.body@),
        !is_success_status(resp.status) && resp.status != 401 && resp.status != 403 && resp.status
            != 404 ==> (r matches Err(TrackerError::ApiError { status, message }) && status
            == resp.status && message@ == resp.body@),
{
    let HttpResponse { status, headers, body } = resp;
    if status == 401 {
        Err(TrackerError::Unauthorized)
    } else if status == 403 {
        Err(TrackerError::Forbidden)
    } else if status == 404 {
        Err(TrackerError::NotFound { resource: body })
    } else if !(200 <= status && status < 300) {
        Err(TrackerError::ApiError { status, message: body })
    } else {
        let pagination_meta = pagination_from_headers(&headers);
        match crate::json::parse_json(body.as_str()) {
            Ok(json_value) => Ok((json_value, pagination_meta)),
            Err(e) => Err(TrackerError::JsonParseFailed(crate::json::json_error_text(&e))),
        }
    }
}

} // verus!
