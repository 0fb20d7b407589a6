//! Fetching a single issue: the request plan for the issue resource and
//! the expand parameters it may carry.

use vstd::prelude::*;
use crate::http::{pair_views, RequestPlan};
use crate::text::join_with;
use crate::tracker::api_client::{TrackerClient, spec_build_url, spec_tracker_headers};
use crate::tracker::models::{ExpandField, expand_views, expand_param};

verus! {

/// Request parameters for fetching one issue.
#[derive(Debug, Clone, PartialEq, Eq)]
pub struct GetIssueParams {
    /// Extra record parts to include in the response.
    pub expand: Vec<ExpandField>,
}

impl Default for GetIssueParams {
    /// No expansion.
    fn default() -> (r: Self)
        ensures
            r.expand@.len() == 0,
    {
        GetIssueParams { expand: Vec::new() }
    }
}

/// The query pairs a get-issue request carries: one `expand` pair
/// exactly when expansion was asked for.
pub open spec fn spec_expand_query(params: Option<GetIssueParams>) -> Seq<(Seq<char>, Seq<char>)> {
    match params {
        None => Seq::empty(),
        Some(p) => if p.expand@.len() == 0 {
            Seq::empty()
        } else {
            seq![("expand"@, join_with(expand_views(p.expand@), ","@))]
        },
    }
}

impl TrackerClient {
    /// The plan of the GET request for one issue, identified by its key
    /// or identifier.
    pub fn get_issue_plan(&self, issue_id: &str, params: Option<GetIssueParams>) -> (r:
        RequestPlan)
        ensures
            r.method is Get,
            r.url@ == spec_build_url(self.config, "issues/"@ + issue_id@),
            pair_views(r.headers@) == spec_tracker_headers(self.config),
            pair_views(r.query@) == spec_expand_query(params),
            r.body is None,
    {
        let mut resource_path: String = "issues/".to_owned();
        resource_path.append(issue_id);
        let mut query: Vec<(String, String)> = Vec::new();
        match &params {
            Some(p) => {
                if p.expand.len() > 0 {
                    query.push(("expand".to_owned(), expand_param(&p.expand)));
                }
            },
            None => {},
        }
        proof {
            assert(pair_views(query@) =~= spec_expand_query(params));
        }
        self.get_plan(resource_path.as_str(), query)
    }
}

} // verus!
