//! Deterministic construction of fully-qualified resource names.
//!
//! Every request addresses a resource by a name derived from the project and
//! a caller-chosen id: `projects/{project}` for project-level listings,
//! `projects/{project}/topics/{id}` and
//! `projects/{project}/subscriptions/{id}` for single resources.

use vstd::prelude::*;
use vstd::string::StringExecFns;

verus! {

/// The resource path of the project itself: `projects/{project}`.
pub open spec fn spec_project_path(project: Seq<char>) -> Seq<char> {
    "projects/"@ + project
}

/// The fully-qualified name of a topic: `projects/{project}/topics/{id}`.
pub open spec fn spec_topic_name(project: Seq<char>, id: Seq<char>) -> Seq<char> {
    "projects/"@ + project + "/topics/"@ + id
}

/// The fully-qualified name of a subscription:
/// `projects/{project}/subscriptions/{id}`.
pub open spec fn spec_subscription_name(project: Seq<char>, id: Seq<char>) -> Seq<char> {
    "projects/"@ + project + "/subscriptions/"@ + id
}

pub fn project_path(project: &str) -> (r: String)
    ensures
        r@ == spec_project_path(project@),
{
    let mut s = String::from_str("projects/");
    s.append(project);
    proof {
        assert(s@ =~= spec_project_path(project@));
    }
    s
}

pub fn topic_name(project: &str, id: &str) -> (r: String)
    ensures
        r@ == spec_topic_name(project@, id@),
{
    let mut s = String::from_str("projects/");
    s.append(project);
    s.append("/topics/");
    s.append(id);
    proof {
        assert(s@ =~= spec_topic_name(project@, id@));
    }
    s
}

pub fn subscription_name(project: &str, id: &str) -> (r: String)
    ensures
        r@ == spec_subscription_name(project@, id@),
{
    let mut s = String::from_str("projects/");
    s.append(project);
    s.append("/subscriptions/");
    s.append(id);
    proof {
        assert(s@ =~= spec_subscription_name(project@, id@));
    }
    s
}

/// Name construction is injective in the id: within one project, two topic
/// ids collide only if they are the same id.
pub proof fn lemma_topic_name_injective(project: Seq<char>, id1: Seq<char>, id2: Seq<char>)
    requires
        spec_topic_name(project, id1) == spec_topic_name(project, id2),
    ensures
        id1 == id2,
{
    lemma_append_cancels_prefix(
        "projects/"@ + project + "/topics/"@,
        id1,
        id2,
    );
}

/// Name construction is injective in the id: within one project, two
/// subscription ids collide only if they are the same id.
pub proof fn lemma_subscription_name_injective(
    project: Seq<char>,
    id1: Seq<char>,
    id2: Seq<char>,
)
    requires
        spec_subscription_name(project, id1) == spec_subscription_name(project, id2),
    ensures
        id1 == id2,
{
    lemma_append_cancels_prefix(
        "projects/"@ + project + "/subscriptions/"@,
        id1,
        id2,
    );
}

/// Appending to a common prefix is injective: `p + a == p + b` forces
/// `a == b`.
proof fn lemma_append_cancels_prefix(p: Seq<char>, a: Seq<char>, b: Seq<char>)
    requires
        p + a == p + b,
    ensures
        a == b,
{
    assert((p + a).len() == p.len() + a.len());
    assert((p + b).len() == p.len() + b.len());
    assert forall|i: int| 0 <= i < a.len() implies a[i] == b[i] by {
        assert((p + a)[p.len() + i] == a[i]);
        assert((p + b)[p.len() + i] == b[i]);
    }
    assert(a =~= b);
}

} // verus!
