//! The typed issue model mirroring the tracker's JSON records. Optional
//! fields default to absent and collections to empty. A record is read
//! from the parsed JSON model ([`JsonData`]) in verified code: each
//! reader accepts exactly the acceptable values ([`spec_issue_ok`]) and
//! its result is fixed by the value ([`spec_issue_matches`]).

use vstd::prelude::*;
use crate::json::{
    FieldRead, JsonData, json_field, read_str_field, read_u64_field, read_bool_field,
    read_str_array_field, spec_field, spec_str_field, spec_u64_field, spec_bool_field,
    spec_str_array_field_ok, spec_str_array_field_matches,
};
use crate::text::{seq_views, join_with};
use crate::tracker::error::TrackerError;

verus! {

/// A user reference on an issue.
#[derive(Debug, Clone, PartialEq, Eq)]
pub struct User {
    /// API address of the resource.
    pub self_link: Option<String>,
    /// User identifier.
    pub id: Option<String>,
    /// Display name.
    pub display: Option<String>,
    /// Account identifier in the passport service.
    pub passport_uid: Option<u64>,
    /// Account identifier in the cloud service.
    pub cloud_uid: Option<String>,
}

/// An issue status reference.
#[derive(Debug, Clone, PartialEq, Eq)]
pub struct Status {
    pub self_link: Option<String>,
    pub id: Option<String>,
    pub key: Option<String>,
    pub display: Option<String>,
}

/// An issue priority reference.
#[derive(Debug, Clone, PartialEq, Eq)]
pub struct Priority {
    pub self_link: Option<String>,
    pub id: Option<String>,
    pub key: Option<String>,
    pub display: Option<String>,
}

/// An issue type reference.
#[derive(Debug, Clone, PartialEq, Eq)]
pub struct IssueType {
    pub self_link: Option<String>,
    pub id: Option<String>,
    pub key: Option<String>,
    pub display: Option<String>,
}

/// A queue reference.
#[derive(Debug, Clone, PartialEq, Eq)]
pub struct Queue {
    pub self_link: Option<String>,
    pub id: Option<String>,
    pub key: Option<String>,
    pub display: Option<String>,
}

/// A sprint reference.
#[derive(Debug, Clone, PartialEq, Eq)]
pub struct Sprint {
    pub self_link: Option<String>,
    pub id: Option<String>,
    pub display: Option<String>,
}

/// A project reference.
#[derive(Debug, Clone, PartialEq, Eq)]
pub struct ProjectInfo {
    pub self_link: Option<String>,
    pub id: Option<String>,
    pub display: Option<String>,
}

/// The projects an issue belongs to.
#[derive(Debug, Clone, PartialEq, Eq)]
pub struct Project {
    /// The issue's main project.
    pub primary: Option<ProjectInfo>,
    /// Further projects; empty when the record names none.
    pub secondary: Vec<ProjectInfo>,
}

/// A parent issue reference.
#[derive(Debug, Clone, PartialEq, Eq)]
pub struct ParentIssue {
    pub self_link: Option<String>,
    pub id: Option<String>,
    pub key: Option<String>,
    pub display: Option<String>,
}

/// A work item as the tracker returns it. `key` and `summary` are the
/// only required fields; everything else defaults to absent or empty.
#[derive(Debug, Clone, PartialEq, Eq)]
pub struct Issue {
    pub self_link: Option<String>,
    pub id: Option<String>,
    /// Issue key, such as `TREK-123`.
    pub key: String,
    pub version: Option<u32>,
    pub last_comment_updated_at: Option<String>,
    /// Issue title.
    pub summary: String,
    pub parent: Option<ParentIssue>,
    /// Alternative keys; empty when the record names none.
    pub aliases: Vec<String>,
    pub updated_by: Option<User>,
    pub description: Option<String>,
    pub sprint: Vec<Sprint>,
    pub issue_type: Option<IssueType>,
    pub priority: Option<Priority>,
    pub created_at: Option<String>,
    pub followers: Vec<User>,
    pub created_by: Option<User>,
    /// Vote count; zero when the record names none.
    pub votes: u32,
    pub assignee: Option<User>,
    pub project: Option<Project>,
    pub queue: Option<Queue>,
    pub updated_at: Option<String>,
    pub status: Option<Status>,
    pub previous_status: Option<Status>,
    /// Whether the issue is marked as a favourite; false by default.
    pub favorite: bool,
    /// Tags; empty when the record names none.
    pub tags: Vec<String>,
}

/// A user record is acceptable: an object whose known fields have the
/// expected kinds.
pub open spec fn spec_user_ok(d: JsonData) -> bool {
    &&& d is Obj
    &&& spec_str_field(d, "self"@) is Ok
    &&& spec_str_field(d, "id"@) is Ok
    &&& spec_str_field(d, "display"@) is Ok
    &&& spec_u64_field(d, "passportUid"@) is Ok
    &&& spec_str_field(d, "cloudUid"@) is Ok
}

/// The user an acceptable record denotes.
pub open spec fn spec_user_matches(u: User, d: JsonData) -> bool {
    &&& u.self_link == spec_str_field(d, "self"@)->Ok_0
    &&& u.id == spec_str_field(d, "id"@)->Ok_0
    &&& u.display == spec_str_field(d, "display"@)->Ok_0
    &&& u.passport_uid == spec_u64_field(d, "passportUid"@)->Ok_0
    &&& u.cloud_uid == spec_str_field(d, "cloudUid"@)->Ok_0
}

/// A `self`/`id`/`key`/`display` reference record is acceptable.
pub open spec fn spec_ref_ok(d: JsonData) -> bool {
    &&& d is Obj
    &&& spec_str_field(d, "self"@) is Ok
    &&& spec_str_field(d, "id"@) is Ok
    &&& spec_str_field(d, "key"@) is Ok
    &&& spec_str_field(d, "display"@) is Ok
}

/// The four reference fields an acceptable reference record denotes.
pub open spec fn spec_ref_fields(
    f: (Option<String>, Option<String>, Option<String>, Option<String>),
    d: JsonData,
) -> bool {
    &&& f.0 == spec_str_field(d, "self"@)->Ok_0
    &&& f.1 == spec_str_field(d, "id"@)->Ok_0
    &&& f.2 == spec_str_field(d, "key"@)->Ok_0
    &&& f.3 == spec_str_field(d, "display"@)->Ok_0
}

pub open spec fn spec_status_matches(st: Status, d: JsonData) -> bool {
    spec_ref_fields((st.self_link, st.id, st.key, st.display), d)
}

pub open spec fn spec_priority_matches(p: Priority, d: JsonData) -> bool {
    spec_ref_fields((p.self_link, p.id, p.key, p.display), d)
}

pub open spec fn spec_issue_type_matches(t: IssueType, d: JsonData) -> bool {
    spec_ref_fields((t.self_link, t.id, t.key, t.display), d)
}

pub open spec fn spec_queue_matches(q: Queue, d: JsonData) -> bool {
    spec_ref_fields((q.self_link, q.id, q.key, q.display), d)
}

pub open spec fn spec_parent_matches(p: ParentIssue, d: JsonData) -> bool {
    spec_ref_fields((p.self_link, p.id, p.key, p.display), d)
}

/// A sprint or project reference record is acceptable.
pub open spec fn spec_sprint_ok(d: JsonData) -> bool {
    &&& d is Obj
    &&& spec_str_field(d, "self"@) is Ok
    &&& spec_str_field(d, "id"@) is Ok
    &&& spec_str_field(d, "display"@) is Ok
}

pub open spec fn spec_sprint_matches(s: Sprint, d: JsonData) -> bool {
    &&& s.self_link == spec_str_field(d, "self"@)->Ok_0
    &&& s.id == spec_str_field(d, "id"@)->Ok_0
    &&& s.display == spec_str_field(d, "display"@)->Ok_0
}

pub open spec fn spec_pinfo_ok(d: JsonData) -> bool {
    spec_sprint_ok(d)
}

pub open spec fn spec_pinfo_matches(p: ProjectInfo, d: JsonData) -> bool {
    &&& p.self_link == spec_str_field(d, "self"@)->Ok_0
    &&& p.id == spec_str_field(d, "id"@)->Ok_0
    &&& p.display == spec_str_field(d, "display"@)->Ok_0
}

/// A projects record is acceptable: `primary` a reference when present,
/// `secondary` a list of references when present.
pub open spec fn spec_project_ok(d: JsonData) -> bool {
    &&& d is Obj
    &&& (match spec_field(d, "primary"@) {
        None => true,
        Some(x) => spec_pinfo_ok(x),
    })
    &&& (match spec_field(d, "secondary"@) {
        None => true,
        Some(x) => x is List && (forall|i: int|
            0 <= i < x->List_0@.len() ==> spec_pinfo_ok(#[trigger] x->List_0@[i])),
    })
}

pub open spec fn spec_project_matches(p: Project, d: JsonData) -> bool {
    &&& (match spec_field(d, "primary"@) {
        None => p.primary is None,
        Some(x) => p.primary matches Some(pi) && spec_pinfo_matches(pi, x),
    })
    &&& (match spec_field(d, "secondary"@) {
        None => p.secondary@.len() == 0,
        Some(x) => {
            &&& x is List
            &&& p.secondary@.len() == x->List_0@.len()
            &&& forall|i: int|
                0 <= i < p.secondary@.len() ==> spec_pinfo_matches(
                    #[trigger] p.secondary@[i],
                    x->List_0@[i],
                )
        },
    })
}

/// An optional record field is acceptable when absent or acceptable.
pub open spec fn spec_user_field_ok(d: JsonData, key: Seq<char>) -> bool {
    match spec_field(d, key) {
        None => true,
        Some(x) => spec_user_ok(x),
    }
}

pub open spec fn spec_user_field_matches(u: Option<User>, d: JsonData, key: Seq<char>) -> bool {
    match spec_field(d, key) {
        None => u is None,
        Some(x) => u matches Some(uu) && spec_user_matches(uu, x),
    }
}

pub open spec fn spec_ref_field_ok(d: JsonData, key: Seq<char>) -> bool {
    match spec_field(d, key) {
        None => true,
        Some(x) => spec_ref_ok(x),
    }
}

pub open spec fn spec_status_field_matches(st: Option<Status>, d: JsonData, key: Seq<char>) -> bool {
    match spec_field(d, key) {
        None => st is None,
        Some(x) => st matches Some(s) && spec_status_matches(s, x),
    }
}

pub open spec fn spec_parent_field_matches(
    p: Option<ParentIssue>,
    d: JsonData,
    key: Seq<char>,
) -> bool {
    match spec_field(d, key) {
        None => p is None,
        Some(x) => p matches Some(pp) && spec_parent_matches(pp, x),
    }
}

pub open spec fn spec_issue_type_field_matches(
    t: Option<IssueType>,
    d: JsonData,
    key: Seq<char>,
) -> bool {
    match spec_field(d, key) {
        None => t is None,
        Some(x) => t matches Some(tt) && spec_issue_type_matches(tt, x),
    }
}

pub open spec fn spec_priority_field_matches(
    p: Option<Priority>,
    d: JsonData,
    key: Seq<char>,
) -> bool {
    match spec_field(d, key) {
        None => p is None,
        Some(x) => p matches Some(pp) && spec_priority_matches(pp, x),
    }
}

pub open spec fn spec_queue_field_matches(q: Option<Queue>, d: JsonData, key: Seq<char>) -> bool {
    match spec_field(d, key) {
        None => q is None,
        Some(x) => q matches Some(qq) && spec_queue_matches(qq, x),
    }
}

pub open spec fn spec_project_field_ok(d: JsonData, key: Seq<char>) -> bool {
    match spec_field(d, key) {
        None => true,
        Some(x) => spec_project_ok(x),
    }
}

pub open spec fn spec_project_field_matches(
    p: Option<Project>,
    d: JsonData,
    key: Seq<char>,
) -> bool {
    match spec_field(d, key) {
        None => p is None,
        Some(x) => p matches Some(pp) && spec_project_matches(pp, x),
    }
}

pub open spec fn spec_user_array_field_ok(d: JsonData, key: Seq<char>) -> bool {
    match spec_field(d, key) {
        None => true,
        Some(x) => x is List && (forall|i: int|
            0 <= i < x->List_0@.len() ==> spec_user_ok(#[trigger] x->List_0@[i])),
    }
}

pub open spec fn spec_user_array_field_matches(us: Seq<User>, d: JsonData, key: Seq<char>) -> bool {
    match spec_field(d, key) {
        None => us.len() == 0,
        Some(x) => {
            &&& x is List
            &&& us.len() == x->List_0@.len()
            &&& forall|i: int|
                0 <= i < us.len() ==> spec_user_matches(#[trigger] us[i], x->List_0@[i])
        },
    }
}

pub open spec fn spec_sprint_array_field_ok(d: JsonData, key: Seq<char>) -> bool {
    match spec_field(d, key) {
        None => true,
        Some(x) => x is List && (forall|i: int|
            0 <= i < x->List_0@.len() ==> spec_sprint_ok(#[trigger] x->List_0@[i])),
    }
}

pub open spec fn spec_sprint_array_field_matches(
    ss: Seq<Sprint>,
    d: JsonData,
    key: Seq<char>,
) -> bool {
    match spec_field(d, key) {
        None => ss.len() == 0,
        Some(x) => {
            &&& x is List
            &&& ss.len() == x->List_0@.len()
            &&& forall|i: int|
                0 <= i < ss.len() ==> spec_sprint_matches(#[trigger] ss[i], x->List_0@[i])
        },
    }
}

/// An issue record is acceptable: an object whose known fields have the
/// expected kinds, with `key` and `summary` present and the numbers
/// within their fields' range.
pub open spec fn spec_issue_ok(d: JsonData) -> bool {
    &&& d is Obj
    &&& spec_str_field(d, "self"@) is Ok
    &&& spec_str_field(d, "id"@) is Ok
    &&& spec_str_field(d, "key"@) is Ok
    &&& spec_str_field(d, "key"@)->Ok_0 is Some
    &&& spec_u64_field(d, "version"@) is Ok
    &&& (spec_u64_field(d, "version"@)->Ok_0 matches Some(n) ==> n <= u32::MAX)
    &&& spec_str_field(d, "lastCommentUpdatedAt"@) is Ok
    &&& spec_str_field(d, "summary"@) is Ok
    &&& spec_str_field(d, "summary"@)->Ok_0 is Some
    &&& spec_ref_field_ok(d, "parent"@)
    &&& spec_str_array_field_ok(d, "aliases"@)
    &&& spec_user_field_ok(d, "updatedBy"@)
    &&& spec_str_field(d, "description"@) is Ok
    &&& spec_sprint_array_field_ok(d, "sprint"@)
    &&& spec_ref_field_ok(d, "type"@)
    &&& spec_ref_field_ok(d, "priority"@)
    &&& spec_str_field(d, "createdAt"@) is Ok
    &&& spec_user_array_field_ok(d, "followers"@)
    &&& spec_user_field_ok(d, "createdBy"@)
    &&& spec_u64_field(d, "votes"@) is Ok
    &&& (spec_u64_field(d, "votes"@)->Ok_0 matches Some(n) ==> n <= u32::MAX)
    &&& spec_user_field_ok(d, "assignee"@)
    &&& spec_project_field_ok(d, "project"@)
    &&& spec_ref_field_ok(d, "queue"@)
    &&& spec_str_field(d, "updatedAt"@) is Ok
    &&& spec_ref_field_ok(d, "status"@)
    &&& spec_ref_field_ok(d, "previousStatus"@)
    &&& spec_bool_field(d, "favorite"@) is Ok
    &&& spec_str_array_field_ok(d, "tags"@)
}

/// The issue an acceptable record denotes: present fields taken as
/// read, absent optional fields absent, absent collections empty,
/// absent `votes` zero and absent `favorite` false.
pub open spec fn spec_issue_matches(iss: Issue, d: JsonData) -> bool {
    &&& iss.self_link == spec_str_field(d, "self"@)->Ok_0
    &&& iss.id == spec_str_field(d, "id"@)->Ok_0
    &&& Some(iss.key) == spec_str_field(d, "key"@)->Ok_0
    &&& (match spec_u64_field(d, "version"@)->Ok_0 {
        Some(n) => iss.version == Some(n as u32),
        None => iss.version is None,
    })
    &&& iss.last_comment_updated_at == spec_str_field(d, "lastCommentUpdatedAt"@)->Ok_0
    &&& Some(iss.summary) == spec_str_field(d, "summary"@)->Ok_0
    &&& spec_parent_field_matches(iss.parent, d, "parent"@)
    &&& spec_str_array_field_matches(iss.aliases@, d, "aliases"@)
    &&& spec_user_field_matches(iss.updated_by, d, "updatedBy"@)
    &&& iss.description == spec_str_field(d, "description"@)->Ok_0
    &&& spec_sprint_array_field_matches(iss.sprint@, d, "sprint"@)
    &&& spec_issue_type_field_matches(iss.issue_type, d, "type"@)
    &&& spec_priority_field_matches(iss.priority, d, "priority"@)
    &&& iss.created_at == spec_str_field(d, "createdAt"@)->Ok_0
    &&& spec_user_array_field_matches(iss.followers@, d, "followers"@)
    &&& spec_user_field_matches(iss.created_by, d, "createdBy"@)
    &&& (match spec_u64_field(d, "votes"@)->Ok_0 {
        Some(n) => iss.votes == n as u32,
        None => iss.votes == 0,
    })
    &&& spec_user_field_matches(iss.assignee, d, "assignee"@)
    &&& spec_project_field_matches(iss.project, d, "project"@)
    &&& spec_queue_field_matches(iss.queue, d, "queue"@)
    &&& iss.updated_at == spec_str_field(d, "updatedAt"@)->Ok_0
    &&& spec_status_field_matches(iss.status, d, "status"@)
    &&& spec_status_field_matches(iss.previous_status, d, "previousStatus"@)
    &&& (match spec_bool_field(d, "favorite"@)->Ok_0 {
        Some(b) => iss.favorite == b,
        None => iss.favorite == false,
    })
    &&& spec_str_array_field_matches(iss.tags@, d, "tags"@)
}

/// The error an unacceptable record maps to.
fn issue_decode_error() -> (r: TrackerError)
    ensures
        r is JsonParseFailed,
{
    TrackerError::JsonParseFailed("issue record does not match the expected schema".to_owned())
}

fn user_from_json(d: &JsonData) -> (r: Result<User, ()>)
    ensures
        r is Ok <==> spec_user_ok(*d),
        r matches Ok(u) ==> spec_user_matches(u, *d),
{
    match d {
        JsonData::Obj(_) => {},
        _ => {
            return Err(());
        },
    }
    let self_link = match read_str_field(d, "self") {
        Ok(x) => x,
        Err(()) => {
            return Err(());
        },
    };
    let id = match read_str_field(d, "id") {
        Ok(x) => x,
        Err(()) => {
            return Err(());
        },
    };
    let display = match read_str_field(d, "display") {
        Ok(x) => x,
        Err(()) => {
            return Err(());
        },
    };
    let passport_uid = match read_u64_field(d, "passportUid") {
        Ok(x) => x,
        Err(()) => {
            return Err(());
        },
    };
    let cloud_uid = match read_str_field(d, "cloudUid") {
        Ok(x) => x,
        Err(()) => {
            return Err(());
        },
    };
    Ok(User { self_link, id, display, passport_uid, cloud_uid })
}

/// Reads the `self`/`id`/`key`/`display` shape shared by several
/// reference records.
fn reference_from_json(d: &JsonData) -> (r: Result<
    (Option<String>, Option<String>, Option<String>, Option<String>),
    (),
>)
    ensures
        r is Ok <==> spec_ref_ok(*d),
        r matches Ok(f) ==> spec_ref_fields(f, *d),
{
    match d {
        JsonData::Obj(_) => {},
        _ => {
            return Err(());
        },
    }
    let self_link = match read_str_field(d, "self") {
        Ok(x) => x,
        Err(()) => {
            return Err(());
        },
    };
    let id = match read_str_field(d, "id") {
        Ok(x) => x,
        Err(()) => {
            return Err(());
        },
    };
    let key = match read_str_field(d, "key") {
        Ok(x) => x,
        Err(()) => {
            return Err(());
        },
    };
    let display = match read_str_field(d, "display") {
        Ok(x) => x,
        Err(()) => {
            return Err(());
        },
    };
    Ok((self_link, id, key, display))
}

fn sprint_from_json(d: &JsonData) -> (r: Result<Sprint, ()>)
    ensures
        r is Ok <==> spec_sprint_ok(*d),
        r matches Ok(s) ==> spec_sprint_matches(s, *d),
{
    match d {
        JsonData::Obj(_) => {},
        _ => {
            return Err(());
        },
    }
    let self_link = match read_str_field(d, "self") {
        Ok(x) => x,
        Err(()) => {
            return Err(());
        },
    };
    let id = match read_str_field(d, "id") {
        Ok(x) => x,
        Err(()) => {
            return Err(());
        },
    };
    let display = match read_str_field(d, "display") {
        Ok(x) => x,
        Err(()) => {
            return Err(());
        },
    };
    Ok(Sprint { self_link, id, display })
}

fn project_info_from_json(d: &JsonData) -> (r: Result<ProjectInfo, ()>)
    ensures
        r is Ok <==> spec_pinfo_ok(*d),
        r matches Ok(p) ==> spec_pinfo_matches(p, *d),
{
    match sprint_from_json(d) {
        Ok(s) => Ok(ProjectInfo { self_link: s.self_link, id: s.id, display: s.display }),
        Err(()) => Err(()),
    }
}

fn project_from_json(d: &JsonData) -> (r: Result<Project, ()>)
    ensures
        r is Ok <==> spec_project_ok(*d),
        r matches Ok(p) ==> spec_project_matches(p, *d),
{
    match d {
        JsonData::Obj(_) => {},
        _ => {
            return Err(());
        },
    }
    let primary = match json_field(d, "primary") {
        None => None,
        Some(x) => match project_info_from_json(x) {
            Ok(p) => Some(p),
            Err(()) => {
                return Err(());
            },
        },
    };
    let secondary = match json_field(d, "secondary") {
        None => Vec::new(),
        Some(x) => match x {
            JsonData::List(items) => {
                let n: usize = items.len();
                let mut out: Vec<ProjectInfo> = Vec::new();
                let mut i: usize = 0;
                while i < n
                    invariant
                        n == items@.len(),
                        0 <= i <= n,
                        out@.len() == i,
                        spec_field(*d, "secondary"@) is Some,
                        spec_field(*d, "secondary"@)->0 is List,
                        spec_field(*d, "secondary"@)->0->List_0@ == items@,
                        forall|j: int| 0 <= j < i ==> spec_pinfo_ok(#[trigger] items@[j]),
                        forall|j: int|
                            0 <= j < i ==> spec_pinfo_matches(#[trigger] out@[j], items@[j]),
                    decreases n - i,
                {
                    match project_info_from_json(&items[i]) {
                        Ok(p) => out.push(p),
                        Err(()) => {
                            proof {
                                assert(!spec_pinfo_ok(items@[i as int]));
                            }
                            return Err(());
                        },
                    }
                    i = i + 1;
                }
                out
            },
            _ => {
                return Err(());
            },
        },
    };
    Ok(Project { primary, secondary })
}

fn users_from_list(items: &Vec<JsonData>) -> (r: Result<Vec<User>, ()>)
    ensures
        r is Ok <==> (forall|i: int| 0 <= i < items@.len() ==> spec_user_ok(#[trigger] items@[i])),
        r matches Ok(v) ==> v@.len() == items@.len() && (forall|i: int|
            0 <= i < items@.len() ==> spec_user_matches(#[trigger] v@[i], items@[i])),
{
    let n: usize = items.len();
    let mut out: Vec<User> = Vec::new();
    let mut i: usize = 0;
    while i < n
        invariant
            n == items@.len(),
            0 <= i <= n,
            out@.len() == i,
            forall|j: int| 0 <= j < i ==> spec_user_ok(#[trigger] items@[j]),
            forall|j: int| 0 <= j < i ==> spec_user_matches(#[trigger] out@[j], items@[j]),
        decreases n - i,
    {
        match user_from_json(&items[i]) {
            Ok(u) => out.push(u),
            Err(()) => {
                return Err(());
            },
        }
        i = i + 1;
    }
    Ok(out)
}

fn sprints_from_list(items: &Vec<JsonData>) -> (r: Result<Vec<Sprint>, ()>)
    ensures
        r is Ok <==> (forall|i: int|
            0 <= i < items@.len() ==> spec_sprint_ok(#[trigger] items@[i])),
        r matches Ok(v) ==> v@.len() == items@.len() && (forall|i: int|
            0 <= i < items@.len() ==> spec_sprint_matches(#[trigger] v@[i], items@[i])),
{
    let n: usize = items.len();
    let mut out: Vec<Sprint> = Vec::new();
    let mut i: usize = 0;
    while i < n
        invariant
            n == items@.len(),
            0 <= i <= n,
            out@.len() == i,
            forall|j: int| 0 <= j < i ==> spec_sprint_ok(#[trigger] items@[j]),
            forall|j: int| 0 <= j < i ==> spec_sprint_matches(#[trigger] out@[j], items@[j]),
        decreases n - i,
    {
        match sprint_from_json(&items[i]) {
            Ok(s) => out.push(s),
            Err(()) => {
                return Err(());
            },
        }
        i = i + 1;
    }
    Ok(out)
}

fn read_user_field(d: &JsonData, key: &str) -> (r: FieldRead<User>)
    ensures
        r is Ok <==> spec_user_field_ok(*d, key@),
        r matches Ok(u) ==> spec_user_field_matches(u, *d, key@),
{
    match json_field(d, key) {
        None => Ok(None),
        Some(x) => match user_from_json(x) {
            Ok(u) => Ok(Some(u)),
            Err(()) => Err(()),
        },
    }
}

fn read_user_array_field(d: &JsonData, key: &str) -> (r: FieldRead<Vec<User>>)
    ensures
        r is Ok <==> spec_user_array_field_ok(*d, key@),
        (r matches Ok(Some(v)) ==> spec_user_array_field_matches(v@, *d, key@)),
        (r matches Ok(None) ==> spec_field(*d, key@) is None),
{
    match json_field(d, key) {
        None => Ok(None),
        Some(x) => match x {
            JsonData::List(items) => match users_from_list(items) {
                Ok(v) => Ok(Some(v)),
                Err(()) => Err(()),
            },
            _ => Err(()),
        },
    }
}

fn read_sprint_array_field(d: &JsonData, key: &str) -> (r: FieldRead<Vec<Sprint>>)
    ensures
        r is Ok <==> spec_sprint_array_field_ok(*d, key@),
        (r matches Ok(Some(v)) ==> spec_sprint_array_field_matches(v@, *d, key@)),
        (r matches Ok(None) ==> spec_field(*d, key@) is None),
{
    match json_field(d, key) {
        None => Ok(None),
        Some(x) => match x {
            JsonData::List(items) => match sprints_from_list(items) {
                Ok(v) => Ok(Some(v)),
                Err(()) => Err(()),
            },
            _ => Err(()),
        },
    }
}

/// Reads one issue from a parsed JSON value: exactly the acceptable
/// records are accepted, the result fixed by [`spec_issue_matches`];
/// everything else is a decode failure.
#[verifier::rlimit(100)]
pub fn issue_from_json(d: &JsonData) -> (r: Result<Issue, TrackerError>)
    ensures
        r is Ok <==> spec_issue_ok(*d),
        r matches Ok(iss) ==> spec_issue_matches(iss, *d),
        r is Err ==> r->Err_0 is JsonParseFailed,
{
    match d {
        JsonData::Obj(_) => {},
        _ => {
            return Err(issue_decode_error());
        },
    }
    let self_link = match read_str_field(d, "self") {
        Ok(x) => x,
        Err(()) => {
            return Err(issue_decode_error());
        },
    };
    let id = match read_str_field(d, "id") {
        Ok(x) => x,
        Err(()) => {
            return Err(issue_decode_error());
        },
    };
    let key = match read_str_field(d, "key") {
        Ok(Some(x)) => x,
        _ => {
            return Err(issue_decode_error());
        },
    };
    let version = match read_u64_field(d, "version") {
        Ok(Some(n)) => {
            if n > u32::MAX as u64 {
                return Err(issue_decode_error());
            }
            Some(n as u32)
        },
        Ok(None) => None,
        Err(()) => {
            return Err(issue_decode_error());
        },
    };
    let last_comment_updated_at = match read_str_field(d, "lastCommentUpdatedAt") {
        Ok(x) => x,
        Err(()) => {
            return Err(issue_decode_error());
        },
    };
    let summary = match read_str_field(d, "summary") {
        Ok(Some(x)) => x,
        _ => {
            return Err(issue_decode_error());
        },
    };
    let parent = match json_field(d, "parent") {
        None => None,
        Some(x) => match reference_from_json(x) {
            Ok((s, i, k, dp)) => Some(ParentIssue { self_link: s, id: i, key: k, display: dp }),
            Err(()) => {
                return Err(issue_decode_error());
            },
        },
    };
    let aliases = match read_str_array_field(d, "aliases") {
        Ok(Some(v)) => v,
        Ok(None) => Vec::new(),
        Err(()) => {
            return Err(issue_decode_error());
        },
    };
    let updated_by = match read_user_field(d, "updatedBy") {
        Ok(x) => x,
        Err(()) => {
            return Err(issue_decode_error());
        },
    };
    let description = match read_str_field(d, "description") {
        Ok(x) => x,
        Err(()) => {
            return Err(issue_decode_error());
        },
    };
    let sprint = match read_sprint_array_field(d, "sprint") {
        Ok(Some(v)) => v,
        Ok(None) => Vec::new(),
        Err(()) => {
            return Err(issue_decode_error());
        },
    };
    let issue_type = match json_field(d, "type") {
        None => None,
        Some(x) => match reference_from_json(x) {
            Ok((s, i, k, dp)) => Some(IssueType { self_link: s, id: i, key: k, display: dp }),
            Err(()) => {
                return Err(issue_decode_error());
            },
        },
    };
    let priority = match json_field(d, "priority") {
        None => None,
        Some(x) => match reference_from_json(x) {
            Ok((s, i, k, dp)) => Some(Priority { self_link: s, id: i, key: k, display: dp }),
            Err(()) => {
                return Err(issue_decode_error());
            },
        },
    };
    let created_at = match read_str_field(d, "createdAt") {
        Ok(x) => x,
        Err(()) => {
            return Err(issue_decode_error());
        },
    };
    let followers = match read_user_array_field(d, "followers") {
        Ok(Some(v)) => v,
        Ok(None) => Vec::new(),
        Err(()) => {
            return Err(issue_decode_error());
        },
    };
    let created_by = match read_user_field(d, "createdBy") {
        Ok(x) => x,
        Err(()) => {
            return Err(issue_decode_error());
        },
    };
    let votes = match read_u64_field(d, "votes") {
        Ok(Some(n)) => {
            if n > u32::MAX as u64 {
                return Err(issue_decode_error());
            }
            n as u32
        },
        Ok(None) => 0,
        Err(()) => {
            return Err(issue_decode_error());
        },
    };
    let assignee = match read_user_field(d, "assignee") {
        Ok(x) => x,
        Err(()) => {
            return Err(issue_decode_error());
        },
    };
    let project = match json_field(d, "project") {
        None => None,
        Some(x) => match project_from_json(x) {
            Ok(p) => Some(p),
            Err(()) => {
                return Err(issue_decode_error());
            },
        },
    };
    let queue = match json_field(d, "queue") {
        None => None,
        Some(x) => match reference_from_json(x) {
            Ok((s, i, k, dp)) => Some(Queue { self_link: s, id: i, key: k, display: dp }),
            Err(()) => {
                return Err(issue_decode_error());
            },
        },
    };
    let updated_at = match read_str_field(d, "updatedAt") {
        Ok(x) => x,
        Err(()) => {
            return Err(issue_decode_error());
        },
    };
    let status = match json_field(d, "status") {
        None => None,
        Some(x) => match reference_from_json(x) {
            Ok((s, i, k, dp)) => Some(Status { self_link: s, id: i, key: k, display: dp }),
            Err(()) => {
                return Err(issue_decode_error());
            },
        },
    };
    let previous_status = match json_field(d, "previousStatus") {
        None => None,
        Some(x) => match reference_from_json(x) {
            Ok((s, i, k, dp)) => Some(Status { self_link: s, id: i, key: k, display: dp }),
            Err(()) => {
                return Err(issue_decode_error());
            },
        },
    };
    let favorite = match read_bool_field(d, "favorite") {
        Ok(Some(b)) => b,
        Ok(None) => false,
        Err(()) => {
            return Err(issue_decode_error());
        },
    };
    let tags = match read_str_array_field(d, "tags") {
        Ok(Some(v)) => v,
        Ok(None) => Vec::new(),
        Err(()) => {
            return Err(issue_decode_error());
        },
    };
    Ok(
        Issue {
            self_link,
            id,
            key,
            version,
            last_comment_updated_at,
            summary,
            parent,
            aliases,
            updated_by,
            description,
            sprint,
            issue_type,
            priority,
            created_at,
            followers,
            created_by,
            votes,
            assignee,
            project,
            queue,
            updated_at,
            status,
            previous_status,
            favorite,
            tags,
        },
    )
}

/// A search response is acceptable: a list of acceptable issue records.
pub open spec fn spec_issue_list_ok(d: JsonData) -> bool {
    &&& d is List
    &&& forall|i: int| 0 <= i < d->List_0@.len() ==> spec_issue_ok(#[trigger] d->List_0@[i])
}

/// Reads a list of issues from a parsed JSON value, as a search
/// response returns it: exactly the acceptable lists, element by
/// element in order.
pub fn issues_from_json(d: &JsonData) -> (r: Result<Vec<Issue>, TrackerError>)
    ensures
        r is Ok <==> spec_issue_list_ok(*d),
        r matches Ok(v) ==> v@.len() == d->List_0@.len() && (forall|i: int|
            0 <= i < v@.len() ==> spec_issue_matches(#[trigger] v@[i], d->List_0@[i])),
        r is Err ==> r->Err_0 is JsonParseFailed,
{
    let items = match d {
        JsonData::List(items) => items,
        _ => {
            return Err(
                TrackerError::JsonParseFailed("a search response must be a JSON array".to_owned()),
            );
        },
    };
    let n: usize = items.len();
    let mut out: Vec<Issue> = Vec::new();
    let mut i: usize = 0;
    while i < n
        invariant
            n == items@.len(),
            *d matches JsonData::List(its) && its@ == items@,
            0 <= i <= n,
            out@.len() == i,
            forall|j: int| 0 <= j < i ==> spec_issue_ok(#[trigger] items@[j]),
            forall|j: int| 0 <= j < i ==> spec_issue_matches(#[trigger] out@[j], items@[j]),
        decreases n - i,
    {
        match issue_from_json(&items[i]) {
            Ok(iss) => out.push(iss),
            Err(e) => {
                return Err(e);
            },
        }
        i = i + 1;
    }
    Ok(out)
}

/// Extra record parts a request may ask the service to include.
#[derive(Debug, Clone, Copy, PartialEq, Eq, Structural)]
pub enum ExpandField {
    /// Workflow transitions.
    Transitions,
    /// Attachments.
    Attachments,
    /// Comments.
    Comments,
}

/// The query value naming one expand field.
pub open spec fn spec_expand_str(e: ExpandField) -> Seq<char> {
    match e {
        ExpandField::Transitions => "transitions"@,
        ExpandField::Attachments => "attachments"@,
        ExpandField::Comments => "comments"@,
    }
}

impl ExpandField {
    /// The query value naming this expand field.
    pub fn as_str(&self) -> (r: &str)
        ensures
            r@ == spec_expand_str(*self),
    {
        match self {
            ExpandField::Transitions => "transitions",
            ExpandField::Attachments => "attachments",
            ExpandField::Comments => "comments",
        }
    }
}

/// The views of a list of expand fields.
pub open spec fn expand_views(es: Seq<ExpandField>) -> Seq<Seq<char>> {
    Seq::new(es.len(), |i: int| spec_expand_str(es[i]))
}

/// Joins expand fields into one comma-separated query value.
pub fn expand_param(expand: &Vec<ExpandField>) -> (r: String)
    ensures
        r@ == join_with(expand_views(expand@), ","@),
{
    let mut names: Vec<String> = Vec::new();
    let mut i: usize = 0;
    while i < expand.len()
        invariant
            0 <= i <= expand@.len(),
            seq_views(names@) =~= expand_views(expand@).take(i as int),
        decreases expand@.len() - i,
    {
        let ghost prev = names@;
        names.push(expand[i].as_str().to_owned());
        proof {
            assert(seq_views(names@) =~= seq_views(prev) + seq![spec_expand_str(
                expand@[i as int],
            )]);
            assert(expand_views(expand@).take(i as int + 1) =~= expand_views(expand@).take(i as int)
                + seq![spec_expand_str(expand@[i as int])]);
        }
        i = i + 1;
    }
    proof {
        assert(expand_views(expand@).take(expand@.len() as int) =~= expand_views(expand@));
    }
    crate::text::join_strings(&names, ",")
}

} // verus!
