//! Server-side diff results and their compact summary.

use vstd::prelude::*;
use crate::tree::or_empty;

verus! {

/// The diff between the live and the target state of one resource.
#[derive(Debug, Clone)]
pub struct ResourceDiff {
    pub group: Option<String>,
    pub kind: Option<String>,
    pub namespace: Option<String>,
    pub name: Option<String>,
    pub live_state: Option<String>,
    pub target_state: Option<String>,
    pub normalized_live_state: Option<String>,
    pub predicted_live_state: Option<String>,
    pub modified: Option<bool>,
    pub hook: Option<bool>,
}

/// The result of a server-side diff.
#[derive(Debug, Clone)]
pub struct ApplicationServerSideDiffResponse {
    pub items: Vec<ResourceDiff>,
    pub modified: bool,
}

/// The compact view of one resource diff.
#[derive(Debug, Clone)]
pub struct ServerSideDiffSummary {
    pub resource_name: String,
    pub kind: String,
    pub namespace: Option<String>,
    pub modified: bool,
    pub diff_summary: Option<String>,
}

/// The note attached to a modified resource.
pub open spec fn modified_note() -> Seq<char> {
    "Resource has differences between live and target state"@
}

impl ServerSideDiffSummary {
    /// What the summary of a diff reports; a missing `modified` flag means unmodified.
    pub open spec fn summarizes(self, diff: ResourceDiff) -> bool {
        &&& self.resource_name@ == or_empty(diff.name)
        &&& self.kind@ == or_empty(diff.kind)
        &&& self.namespace == diff.namespace
        &&& self.modified == (diff.modified == Some(true))
        &&& match self.diff_summary {
            Some(s) => self.modified && s@ == modified_note(),
            None => !self.modified,
        }
    }

    /// Summarizes one resource diff.
    pub fn from_diff(diff: ResourceDiff) -> (r: Self)
        ensures
            r.summarizes(diff),
    {
        let modified = match diff.modified {
            Some(m) => m,
            None => false,
        };
        let diff_summary = if modified {
            Some("Resource has differences between live and target state".to_owned())
        } else {
            None
        };
        ServerSideDiffSummary {
            resource_name: match diff.name {
                Some(n) => n,
                None => String::new(),
            },
            kind: match diff.kind {
                Some(k) => k,
                None => String::new(),
            },
            namespace: diff.namespace,
            modified,
            diff_summary,
        }
    }
}

/// Summarizes every resource of a diff response, in order.
pub fn summarize_diffs(response: ApplicationServerSideDiffResponse) -> (r: Vec<ServerSideDiffSummary>)
    ensures
        r@.len() == response.items@.len(),
        forall|i: int| 0 <= i < r@.len() ==> #[trigger] r@[i].summarizes(response.items@[i]),
{
    let ghost items = response.items@;
    let mut rest = response.items;
    let mut out: Vec<ServerSideDiffSummary> = Vec::new();
    let mut taken: Vec<ResourceDiff> = Vec::new();
    while rest.len() > 0
        invariant
            taken@ + rest@.reverse() == items.reverse(),
        decreases rest@.len(),
    {
        let d = rest.pop().unwrap();
        taken.push(d);
        assert(taken@ + rest@.reverse() =~= items.reverse());
    }
    assert(taken@ =~= items.reverse());
    let ghost mut done: Seq<ResourceDiff> = Seq::empty();
    while taken.len() > 0
        invariant
            done + taken@.reverse() == items,
            out@.len() == done.len(),
            forall|i: int| 0 <= i < out@.len() ==> #[trigger] out@[i].summarizes(done[i]),
        decreases taken@.len(),
    {
        let d = taken.pop().unwrap();
        let ghost prev = done;
        proof {
            done = done.push(d);
            assert(prev + taken@.push(d).reverse() == items);
            assert(taken@.push(d).reverse() =~= seq![d] + taken@.reverse());
            assert(done + taken@.reverse() =~= items);
        }
        out.push(ServerSideDiffSummary::from_diff(d));
    }
    assert(done =~= items);
    out
}

} // verus!
