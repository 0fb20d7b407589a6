//! Searching issues: the typed search request, its JSON body, and the
//! request plan with scroll- or page-based pagination parameters.

use vstd::prelude::*;
use crate::http::{pair_views, RequestPlan};
use crate::jsonfmt::{
    json_member, json_obj, json_str_lit, json_str_obj, json_str_array, json_object_of,
    json_str_obj_of, json_str_array_of, push_member_str, push_member_rendered,
};
use crate::num::{dec_rep, fmt_u32, fmt_u64};
use crate::text::{seq_views, join_with};
use crate::tracker::api_client::{TrackerClient, spec_build_url, spec_tracker_headers};
use crate::tracker::models::{ExpandField, expand_views, expand_param};

verus! {

/// The body of a search request. The three filter modes — structured
/// filter pairs, the query language, or an explicit key list — inform
/// the service independently; the caller chooses exactly one, and the
/// service decides what several of them mean.
#[derive(Debug, Clone, PartialEq, Eq)]
pub struct SearchRequest {
    /// Field filter: name-value pairs matched against issue fields.
    pub filter: Option<Vec<(String, String)>>,
    /// A filter in the service's query language.
    pub query: Option<String>,
    /// An explicit list of issue keys.
    pub keys: Option<Vec<String>>,
    /// A queue to search in.
    pub queue: Option<String>,
    /// The identifier of a saved filter.
    pub filter_id: Option<u64>,
    /// Sort field and direction, such as `+status` or `-createdAt`.
    pub order: Option<String>,
}

impl Default for SearchRequest {
    /// No criteria at all; the service then returns everything the
    /// token may see.
    fn default() -> (r: Self)
        ensures
            r.filter is None,
            r.query is None,
            r.keys is None,
            r.queue is None,
            r.filter_id is None,
            r.order is None,
    {
        SearchRequest {
            filter: None,
            query: None,
            keys: None,
            queue: None,
            filter_id: None,
            order: None,
        }
    }
}

/// The members of a search request body, in declaration order; absent
/// fields contribute nothing, never `null`.
pub open spec fn spec_search_entries(r: SearchRequest) -> Seq<Seq<char>> {
    (match r.filter {
        Some(f) => seq![json_member("filter"@, json_str_obj(pair_views(f@)))],
        None => Seq::empty(),
    }) + (match r.query {
        Some(q) => seq![json_member("query"@, json_str_lit(q@))],
        None => Seq::empty(),
    }) + (match r.keys {
        Some(ks) => seq![json_member("keys"@, json_str_array(seq_views(ks@)))],
        None => Seq::empty(),
    }) + (match r.queue {
        Some(q) => seq![json_member("queue"@, json_str_lit(q@))],
        None => Seq::empty(),
    }) + (match r.filter_id {
        Some(n) => seq![json_member("filterId"@, dec_rep(n as nat))],
        None => Seq::empty(),
    }) + (match r.order {
        Some(o) => seq![json_member("order"@, json_str_lit(o@))],
        None => Seq::empty(),
    })
}

/// The JSON body of a search request.
pub open spec fn spec_search_body(r: SearchRequest) -> Seq<char> {
    json_obj(spec_search_entries(r))
}

/// Renders the JSON body of a search request, as [`spec_search_body`]
/// describes. An empty request renders as the empty object.
pub fn search_request_body(req: &SearchRequest) -> (r: String)
    ensures
        r@ == spec_search_body(*req),
{
    let mut entries: Vec<String> = Vec::new();
    let ghost s1 = (match &req.filter {
        Some(f) => seq![json_member("filter"@, json_str_obj(pair_views(f@)))],
        None => Seq::<Seq<char>>::empty(),
    });
    let ghost s2 = (match &req.query {
        Some(q) => seq![json_member("query"@, json_str_lit(q@))],
        None => Seq::<Seq<char>>::empty(),
    });
    let ghost s3 = (match &req.keys {
        Some(ks) => seq![json_member("keys"@, json_str_array(seq_views(ks@)))],
        None => Seq::<Seq<char>>::empty(),
    });
    let ghost s4 = (match &req.queue {
        Some(q) => seq![json_member("queue"@, json_str_lit(q@))],
        None => Seq::<Seq<char>>::empty(),
    });
    let ghost s5 = (match &req.filter_id {
        Some(n) => seq![json_member("filterId"@, dec_rep(n as nat))],
        None => Seq::<Seq<char>>::empty(),
    });
    let ghost s6 = (match &req.order {
        Some(o) => seq![json_member("order"@, json_str_lit(o@))],
        None => Seq::<Seq<char>>::empty(),
    });
    match &req.filter {
        Some(f) => {
            let rendered = json_str_obj_of(f);
            push_member_rendered(&mut entries, "filter", rendered);
        },
        None => {},
    }
    proof {
        assert(seq_views(entries@) =~= s1);
    }
    match &req.query {
        Some(q) => push_member_str(&mut entries, "query", q.as_str()),
        None => {},
    }
    proof {
        assert(seq_views(entries@) =~= s1 + s2);
    }
    match &req.keys {
        Some(ks) => {
            let rendered = json_str_array_of(ks);
            push_member_rendered(&mut entries, "keys", rendered);
        },
        None => {},
    }
    proof {
        assert(seq_views(entries@) =~= s1 + s2 + s3);
    }
    match &req.queue {
        Some(q) => push_member_str(&mut entries, "queue", q.as_str()),
        None => {},
    }
    proof {
        assert(seq_views(entries@) =~= s1 + s2 + s3 + s4);
    }
    match &req.filter_id {
        Some(n) => {
            let rendered = fmt_u64(*n);
            push_member_rendered(&mut entries, "filterId", rendered);
        },
        None => {},
    }
    proof {
        assert(seq_views(entries@) =~= s1 + s2 + s3 + s4 + s5);
    }
    match &req.order {
        Some(o) => push_member_str(&mut entries, "order", o.as_str()),
        None => {},
    }
    proof {
        assert(seq_views(entries@) =~= s1 + s2 + s3 + s4 + s5 + s6);
        assert(seq_views(entries@) =~= spec_search_entries(*req));
    }
    json_object_of(&entries)
}

/// Query parameters of a search request: expansion and either
/// page-number or scroll pagination.
#[derive(Debug, Clone, PartialEq, Eq)]
pub struct SearchParams {
    /// Extra record parts to include in the response.
    pub expand: Vec<ExpandField>,
    /// Issues per page; the service's default is 50.
    pub per_page: Option<u32>,
    /// Page number for page-based pagination.
    pub page: Option<u32>,
    /// Page identifier for relative pagination.
    pub id: Option<String>,
    /// Scroll mode, `sorted` or `unsorted`.
    pub scroll_type: Option<String>,
    /// Issues per scroll response; the service's default is 100.
    pub per_scroll: Option<u32>,
    /// Lifetime of the scroll context in milliseconds.
    pub scroll_ttl_millis: Option<u64>,
    /// The scroll page identifier from a previous response.
    pub scroll_id: Option<String>,
}

impl Default for SearchParams {
    /// No expansion and the service's own pagination.
    fn default() -> (r: Self)
        ensures
            r.expand@.len() == 0,
            r.per_page is None,
            r.page is None,
            r.id is None,
            r.scroll_type is None,
            r.per_scroll is None,
            r.scroll_ttl_millis is None,
            r.scroll_id is None,
    {
        SearchParams {
            expand: Vec::new(),
            per_page: None,
            page: None,
            id: None,
            scroll_type: None,
            per_scroll: None,
            scroll_ttl_millis: None,
            scroll_id: None,
        }
    }
}

/// The query pairs a search request carries, in a fixed order.
pub open spec fn spec_search_query(p: SearchParams) -> Seq<(Seq<char>, Seq<char>)> {
    (if p.expand@.len() == 0 {
        Seq::<(Seq<char>, Seq<char>)>::empty()
    } else {
        seq![("expand"@, join_with(expand_views(p.expand@), ","@))]
    }) + (match p.per_page {
        Some(n) => seq![("perPage"@, dec_rep(n as nat))],
        None => Seq::empty(),
    }) + (match p.page {
        Some(n) => seq![("page"@, dec_rep(n as nat))],
        None => Seq::empty(),
    }) + (match p.id {
        Some(s) => seq![("id"@, s@)],
        None => Seq::empty(),
    }) + (match p.scroll_type {
        Some(s) => seq![("scrollType"@, s@)],
        None => Seq::empty(),
    }) + (match p.per_scroll {
        Some(n) => seq![("perScroll"@, dec_rep(n as nat))],
        None => Seq::empty(),
    }) + (match p.scroll_ttl_millis {
        Some(n) => seq![("scrollTTLMillis"@, dec_rep(n as nat))],
        None => Seq::empty(),
    }) + (match p.scroll_id {
        Some(s) => seq![("scrollId"@, s@)],
        None => Seq::empty(),
    })
}

/// Builds the query pairs of a search request, as [`spec_search_query`]
/// describes.
#[verifier::rlimit(100)]
pub fn search_query_pairs(p: &SearchParams) -> (r: Vec<(String, String)>)
    ensures
        pair_views(r@) == spec_search_query(*p),
{
    let mut q: Vec<(String, String)> = Vec::new();
    let ghost s1 = (if p.expand@.len() == 0 {
        Seq::<(Seq<char>, Seq<char>)>::empty()
    } else {
        seq![("expand"@, join_with(expand_views(p.expand@), ","@))]
    });
    let ghost s2 = (match &p.per_page {
        Some(n) => seq![("perPage"@, dec_rep(n as nat))],
        None => Seq::<(Seq<char>, Seq<char>)>::empty(),
    });
    let ghost s3 = (match &p.page {
        Some(n) => seq![("page"@, dec_rep(n as nat))],
        None => Seq::<(Seq<char>, Seq<char>)>::empty(),
    });
    let ghost s4 = (match &p.id {
        Some(s) => seq![("id"@, s@)],
        None => Seq::<(Seq<char>, Seq<char>)>::empty(),
    });
    let ghost s5 = (match &p.scroll_type {
        Some(s) => seq![("scrollType"@, s@)],
        None => Seq::<(Seq<char>, Seq<char>)>::empty(),
    });
    let ghost s6 = (match &p.per_scroll {
        Some(n) => seq![("perScroll"@, dec_rep(n as nat))],
        None => Seq::<(Seq<char>, Seq<char>)>::empty(),
    });
    let ghost s7 = (match &p.scroll_ttl_millis {
        Some(n) => seq![("scrollTTLMillis"@, dec_rep(n as nat))],
        None => Seq::<(Seq<char>, Seq<char>)>::empty(),
    });
    let ghost s8 = (match &p.scroll_id {
        Some(s) => seq![("scrollId"@, s@)],
        None => Seq::<(Seq<char>, Seq<char>)>::empty(),
    });
    if p.expand.len() > 0 {
        q.push(("expand".to_owned(), expand_param(&p.expand)));
    }
    proof {
        assert(pair_views(q@) =~= s1);
    }
    match &p.per_page {
        Some(n) => q.push(("perPage".to_owned(), fmt_u32(*n))),
        None => {},
    }
    proof {
        assert(pair_views(q@) =~= s1 + s2);
    }
    match &p.page {
        Some(n) => q.push(("page".to_owned(), fmt_u32(*n))),
        None => {},
    }
    proof {
        assert(pair_views(q@) =~= s1 + s2 + s3);
    }
    match &p.id {
        Some(s) => q.push(("id".to_owned(), s.clone())),
        None => {},
    }
    proof {
        assert(pair_views(q@) =~= s1 + s2 + s3 + s4);
    }
    match &p.scroll_type {
        Some(s) => q.push(("scrollType".to_owned(), s.clone())),
        None => {},
    }
    proof {
        assert(pair_views(q@) =~= s1 + s2 + s3 + s4 + s5);
    }
    match &p.per_scroll {
        Some(n) => q.push(("perScroll".to_owned(), fmt_u32(*n))),
        None => {},
    }
    proof {
        assert(pair_views(q@) =~= s1 + s2 + s3 + s4 + s5 + s6);
    }
    match &p.scroll_ttl_millis {
        Some(n) => q.push(("scrollTTLMillis".to_owned(), fmt_u64(*n))),
        None => {},
    }
    proof {
        assert(pair_views(q@) =~= s1 + s2 + s3 + s4 + s5 + s6 + s7);
    }
    match &p.scroll_id {
        Some(s) => q.push(("scrollId".to_owned(), s.clone())),
        None => {},
    }
    proof {
        assert(pair_views(q@) =~= s1 + s2 + s3 + s4 + s5 + s6 + s7 + s8);
        assert(pair_views(q@) =~= spec_search_query(*p));
    }
    q
}

impl TrackerClient {
    /// The plan of the POST request that searches issues: the criteria
    /// as the JSON body, the pagination and expansion as query pairs.
    pub fn search_issues_plan(&self, request: &SearchRequest, params: Option<SearchParams>) -> (r:
        RequestPlan)
        ensures
            r.method is Post,
            r.url@ == spec_build_url(self.config, "issues/_search"@),
            pair_views(r.headers@) == spec_tracker_headers(self.config),
            r.body matches Some(b) && b@ == spec_search_body(*request),
            pair_views(r.query@) == (match params {
                Some(p) => spec_search_query(p),
                None => Seq::<(Seq<char>, Seq<char>)>::empty(),
            }),
    {
        let body = search_request_body(request);
        let query: Vec<(String, String)> = match &params {
            Some(p) => search_query_pairs(p),
            None => Vec::new(),
        };
        proof {
            assert(pair_views(Seq::<(String, String)>::empty()) =~= Seq::<
                (Seq<char>, Seq<char>),
            >::empty());
        }
        self.post_plan("issues/_search", body, query)
    }
}

} // verus!
