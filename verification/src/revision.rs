//! Revision metadata and deployment history.

use vstd::prelude::*;
use vstd::string::*;
use crate::application::{Application, ApplicationSource};
use crate::text::{char_prefix, char_prefix_of, contains_text, first_line, first_line_of, str_contains, to_upper, upper_case};

verus! {

/// Metadata of one revision (a commit).
#[derive(Debug, Clone)]
pub struct RevisionMetadata {
    pub author: Option<String>,
    pub date: Option<String>,
    pub message: Option<String>,
    pub tags: Option<Vec<String>>,
    pub signature_info: Option<String>,
}

/// The compact view of revision metadata.
#[derive(Debug, Clone)]
pub struct RevisionMetadataSummary {
    pub author: Option<String>,
    pub date: Option<String>,
    pub message_short: Option<String>,
    pub message_full: Option<String>,
    pub tag_count: usize,
    pub tags: Option<Vec<String>>,
    pub is_signed: bool,
    pub signature_summary: Option<String>,
}

/// One deployment recorded in an application's history.
#[derive(Debug, Clone)]
pub struct RevisionHistory {
    pub id: i64,
    pub revision: Option<String>,
    pub deployed_at: Option<String>,
    pub deploy_started_at: Option<String>,
    pub source: Option<ApplicationSource>,
    pub sources: Option<Vec<ApplicationSource>>,
    pub revisions: Option<Vec<String>>,
    pub initiated_by: Option<OperationInitiator>,
}

/// Who started an operation.
#[derive(Debug, Clone)]
pub struct OperationInitiator {
    pub username: Option<String>,
    pub automated: Option<bool>,
}

/// The deployment history of an application, newest first.
#[derive(Debug, Clone)]
pub struct ApplicationHistorySummary {
    pub application_name: String,
    pub total_entries: usize,
    pub entries: Vec<RevisionHistorySummary>,
}

/// The compact view of one deployment.
#[derive(Debug, Clone)]
pub struct RevisionHistorySummary {
    pub id: i64,
    pub revision: String,
    pub revision_full: String,
    pub deployed_at: String,
    pub deploy_duration: Option<String>,
    pub source_repo: Option<String>,
    pub source_path: Option<String>,
    pub source_target_revision: Option<String>,
    pub initiated_by: Option<String>,
    pub automated: bool,
}

/// Number of characters of a revision shown in its short form.
pub const SHORT_REVISION_CHARS: usize = 8;

/// The verdict on a signature text: empty gives none; a good or valid
/// signature; a bad or invalid one; otherwise a signature is present.
pub open spec fn signature_verdict(sig: Seq<char>) -> Option<Seq<char>> {
    if sig.len() == 0 {
        None
    } else if contains_text(sig, "Good signature"@) || contains_text(upper_case(sig), "VALID"@) {
        Some("Valid signature"@)
    } else if contains_text(sig, "Bad signature"@) || contains_text(upper_case(sig), "INVALID"@) {
        Some("Invalid signature"@)
    } else {
        Some("Signature present"@)
    }
}

impl RevisionMetadataSummary {
    /// What the summary of revision metadata reports.
    pub open spec fn summarizes(self, m: RevisionMetadata) -> bool {
        &&& self.author == m.author
        &&& self.date == m.date
        &&& self.message_full == m.message
        &&& match (self.message_short, m.message) {
            (Some(short), Some(msg)) => first_line(msg@) == Some(short@),
            (None, Some(msg)) => first_line(msg@) is None,
            (None, None) => true,
            (Some(_), None) => false,
        }
        &&& self.tag_count == match m.tags {
            Some(t) => t@.len(),
            None => 0,
        }
        &&& self.tags == m.tags
        &&& self.is_signed == (m.signature_info is Some)
        &&& match (self.signature_summary, m.signature_info) {
            (Some(v), Some(sig)) => signature_verdict(sig@) == Some(v@),
            (None, Some(sig)) => signature_verdict(sig@) is None,
            (None, None) => true,
            (Some(_), None) => false,
        }
    }

    /// Summarizes revision metadata.
    pub fn from_metadata(metadata: RevisionMetadata) -> (r: Self)
        ensures
            r.summarizes(metadata),
    {
        let message_short = match &metadata.message {
            Some(msg) => first_line_of(msg.as_str()),
            None => None,
        };
        let tag_count = match &metadata.tags {
            Some(t) => t.len(),
            None => 0,
        };
        let is_signed = metadata.signature_info.is_some();
        let signature_summary = match &metadata.signature_info {
            Some(sig) => {
                if sig.as_str().is_empty() {
                    None
                } else {
                    let upper = to_upper(sig.as_str());
                    if str_contains(sig.as_str(), "Good signature") || str_contains(upper.as_str(), "VALID") {
                        Some("Valid signature".to_owned())
                    } else if str_contains(sig.as_str(), "Bad signature") || str_contains(upper.as_str(), "INVALID") {
                        Some("Invalid signature".to_owned())
                    } else {
                        Some("Signature present".to_owned())
                    }
                }
            },
            None => None,
        };
        RevisionMetadataSummary {
            author: metadata.author,
            date: metadata.date,
            message_short,
            message_full: metadata.message,
            tag_count,
            tags: metadata.tags,
            is_signed,
            signature_summary,
        }
    }
}

/// The full revision of a history entry, `unknown` when absent.
pub open spec fn full_revision(h: RevisionHistory) -> Seq<char> {
    match h.revision {
        Some(r) => r@,
        None => "unknown"@,
    }
}

/// The source a history entry reports: its single source, else the first
/// of its sources.
pub open spec fn reported_source(h: RevisionHistory) -> Option<ApplicationSource> {
    match h.source {
        Some(s) => Some(s),
        None => match h.sources {
            Some(v) => if v@.len() > 0 { Some(v@[0]) } else { None },
            None => None,
        },
    }
}

/// The initiator shown for a history entry: the user name, else
/// `Automated` for an automated operation, else `Unknown`.
pub open spec fn initiator_text(i: OperationInitiator) -> Seq<char> {
    match i.username {
        Some(u) => u@,
        None => if i.automated == Some(true) { "Automated"@ } else { "Unknown"@ },
    }
}

impl RevisionHistorySummary {
    /// What the summary of a history entry reports.
    pub open spec fn summarizes(self, h: RevisionHistory) -> bool {
        &&& self.id == h.id
        &&& self.revision_full@ == full_revision(h)
        &&& self.revision@ == char_prefix(full_revision(h), SHORT_REVISION_CHARS as nat)
        &&& self.deployed_at@ == match h.deployed_at {
            Some(d) => d@,
            None => "unknown"@,
        }
        &&& match (h.deploy_started_at, h.deployed_at) {
            (Some(started), Some(done)) => self.deploy_duration matches Some(d)
                && d@ == "from "@ + started@ + " to "@ + done@,
            _ => self.deploy_duration is None,
        }
        &&& match reported_source(h) {
            Some(src) => {
                &&& self.source_repo == Some(src.repo_url)
                &&& self.source_path == match src.path {
                    Some(p) => Some(p),
                    None => src.chart,
                }
                &&& self.source_target_revision == src.target_revision
            },
            None => {
                &&& self.source_repo is None
                &&& self.source_path is None
                &&& self.source_target_revision is None
            },
        }
        &&& match h.initiated_by {
            Some(i) => self.initiated_by matches Some(t) && t@ == initiator_text(i)
                && self.automated == (i.automated == Some(true)),
            None => self.initiated_by is None && !self.automated,
        }
    }

    /// Summarizes one history entry.
    pub fn from_revision_history(history: RevisionHistory) -> (r: Self)
        ensures
            r.summarizes(history),
    {
        let revision_full = match &history.revision {
            Some(r) => r.clone(),
            None => "unknown".to_owned(),
        };
        let revision = char_prefix_of(revision_full.as_str(), SHORT_REVISION_CHARS);
        let deploy_duration = match (&history.deploy_started_at, &history.deployed_at) {
            (Some(started), Some(completed)) => {
                let mut d = "from ".to_owned();
                d.append(started.as_str());
                d.append(" to ");
                d.append(completed.as_str());
                Some(d)
            },
            _ => None,
        };
        let (source_repo, source_path, source_target_revision) = match &history.source {
            Some(src) => (
                Some(src.repo_url.clone()),
                match &src.path {
                    Some(p) => Some(p.clone()),
                    None => src.chart.clone(),
                },
                src.target_revision.clone(),
            ),
            None => match &history.sources {
                Some(v) => {
                    if v.len() > 0 {
                        let src = &v[0];
                        (
                            Some(src.repo_url.clone()),
                            match &src.path {
                                Some(p) => Some(p.clone()),
                                None => src.chart.clone(),
                            },
                            src.target_revision.clone(),
                        )
                    } else {
                        (None, None, None)
                    }
                },
                None => (None, None, None),
            },
        };
        let (initiated_by, automated) = match &history.initiated_by {
            Some(i) => {
                let automated = match i.automated {
                    Some(a) => a,
                    None => false,
                };
                let text = match &i.username {
                    Some(u) => u.clone(),
                    None => if automated { "Automated".to_owned() } else { "Unknown".to_owned() },
                };
                (Some(text), automated)
            },
            None => (None, false),
        };
        let deployed_at = match &history.deployed_at {
            Some(d) => d.clone(),
            None => "unknown".to_owned(),
        };
        RevisionHistorySummary {
            id: history.id,
            revision,
            revision_full,
            deployed_at,
            deploy_duration,
            source_repo,
            source_path,
            source_target_revision,
            initiated_by,
            automated,
        }
    }
}


/// Where an entry with `id` goes in a list ordered newest first: after every
/// entry whose id is not smaller (searching from `from`).
pub open spec fn insert_position_from(sorted: Seq<RevisionHistorySummary>, id: i64, from: int) -> int
    decreases sorted.len() - from,
{
    if from < 0 || from >= sorted.len() {
        sorted.len() as int
    } else if sorted[from].id < id {
        from
    } else {
        insert_position_from(sorted, id, from + 1)
    }
}

/// Inserts an entry into a list ordered newest first, after the entries
/// with the same id.
pub open spec fn insert_newest_first(sorted: Seq<RevisionHistorySummary>, x: RevisionHistorySummary) -> Seq<RevisionHistorySummary> {
    sorted.insert(insert_position_from(sorted, x.id, 0), x)
}

/// Entries ordered by id, largest first; entries with equal ids keep their
/// relative order (a stable sort).
pub open spec fn newest_first(s: Seq<RevisionHistorySummary>) -> Seq<RevisionHistorySummary>
    decreases s.len(),
{
    if s.len() == 0 {
        s
    } else {
        insert_newest_first(newest_first(s.drop_last()), s.last())
    }
}

proof fn lemma_insert_position_from(sorted: Seq<RevisionHistorySummary>, id: i64, from: int)
    requires
        0 <= from <= sorted.len(),
    ensures
        ({
            let p = insert_position_from(sorted, id, from);
            &&& from <= p <= sorted.len()
            &&& forall|j: int| from <= j < p ==> sorted[j].id >= id
            &&& p < sorted.len() ==> sorted[p].id < id
        }),
    decreases sorted.len() - from,
{
    if from < sorted.len() && sorted[from].id >= id {
        lemma_insert_position_from(sorted, id, from + 1);
    }
}

proof fn lemma_newest_first_len(s: Seq<RevisionHistorySummary>)
    ensures
        newest_first(s).len() == s.len(),
    decreases s.len(),
{
    if s.len() > 0 {
        lemma_newest_first_len(s.drop_last());
        lemma_insert_position_from(newest_first(s.drop_last()), s.last().id, 0);
    }
}

/// Entries whose id is `id`.
pub open spec fn has_id(id: i64) -> spec_fn(RevisionHistorySummary) -> bool {
    |e: RevisionHistorySummary| e.id == id
}

/// No entry has a larger id than an entry before it.
pub open spec fn ordered_newest_first(s: Seq<RevisionHistorySummary>) -> bool {
    forall|i: int, j: int| #![trigger s[i], s[j]] 0 <= i < j < s.len() ==> s[i].id >= s[j].id
}

/// One step of `newest_first`: the last entry goes after every entry whose
/// id is not smaller, before every entry whose id is smaller.
proof fn lemma_newest_first_step(s: Seq<RevisionHistorySummary>)
    requires
        s.len() > 0,
        ordered_newest_first(newest_first(s.drop_last())),
        newest_first(s.drop_last()).len() == s.len() - 1,
    ensures
        ({
            let t = newest_first(s.drop_last());
            let x = s.last();
            let p = insert_position_from(t, x.id, 0);
            &&& 0 <= p <= t.len()
            &&& newest_first(s) == t.insert(p, x)
            &&& forall|j: int| 0 <= j < p ==> #[trigger] t[j].id >= x.id
            &&& forall|j: int| p <= j < t.len() ==> #[trigger] t[j].id < x.id
        }),
{
    let t = newest_first(s.drop_last());
    let x = s.last();
    lemma_insert_position_from(t, x.id, 0);
    let p = insert_position_from(t, x.id, 0);
    assert forall|j: int| p <= j < t.len() implies #[trigger] t[j].id < x.id by {
        if p < j {
            assert(t[p].id >= t[j].id);
        }
    }
}

/// `newest_first` orders the entries by id, largest first, and keeps every
/// entry: the result is a permutation of the input.
pub proof fn lemma_newest_first_orders(s: Seq<RevisionHistorySummary>)
    ensures
        newest_first(s).len() == s.len(),
        ordered_newest_first(newest_first(s)),
        newest_first(s).to_multiset() == s.to_multiset(),
    decreases s.len(),
{
    broadcast use vstd::seq_lib::group_to_multiset_ensures;
    if s.len() > 0 {
        let rest = s.drop_last();
        lemma_newest_first_orders(rest);
        lemma_newest_first_step(s);
        let t = newest_first(rest);
        let x = s.last();
        let p = insert_position_from(t, x.id, 0);
        let r = t.insert(p, x);
        assert forall|i: int, j: int| #![trigger r[i], r[j]] 0 <= i < j < r.len() implies r[i].id >= r[j].id by {
            if j < p {
                assert(r[i] == t[i] && r[j] == t[j]);
            } else if j == p {
                assert(r[i] == t[i]);
            } else if i < p {
                assert(r[i] == t[i] && r[j] == t[j - 1]);
            } else if i == p {
                assert(r[j] == t[j - 1]);
            } else {
                assert(r[i] == t[i - 1] && r[j] == t[j - 1]);
            }
        }
        assert(r.remove(p) =~= t);
        assert(r[p] == x);
        assert(r.remove(p).to_multiset() == r.to_multiset().remove(x));
        assert(r.to_multiset().count(x) > 0) by {
            assert(r.contains(x));
        }
        assert(r.to_multiset() =~= t.to_multiset().insert(x));
        assert(s == rest.push(x));
    }
}

/// Entries with equal ids keep their relative order: for every id, the
/// entries carrying it come out of `newest_first` in the order they came in.
pub proof fn lemma_newest_first_stable(s: Seq<RevisionHistorySummary>, id: i64)
    ensures
        newest_first(s).filter(has_id(id)) == s.filter(has_id(id)),
    decreases s.len(),
{
    broadcast use vstd::seq_lib::group_filter_ensures;
    if s.len() > 0 {
        let rest = s.drop_last();
        lemma_newest_first_stable(rest, id);
        lemma_newest_first_orders(rest);
        lemma_newest_first_step(s);
        let t = newest_first(rest);
        let x = s.last();
        let p = insert_position_from(t, x.id, 0);
        let pred = has_id(id);
        let front = t.take(p);
        let back = t.skip(p);
        assert(t =~= front + back);
        assert(t.insert(p, x) =~= front + seq![x] + back);
        Seq::filter_distributes_over_add(front, back, pred);
        Seq::filter_distributes_over_add(front + seq![x], back, pred);
        Seq::filter_distributes_over_add(front, seq![x], pred);
        assert(seq![x] =~= Seq::<RevisionHistorySummary>::empty().push(x));
        Seq::<RevisionHistorySummary>::empty().lemma_filter_push(x, pred);
        reveal_with_fuel(Seq::filter, 1);
        assert(Seq::<RevisionHistorySummary>::empty().filter(pred) =~= Seq::<RevisionHistorySummary>::empty());
        assert(s =~= rest.push(x));
        rest.lemma_filter_push(x, pred);
        if x.id == id {
            assert(back.all(|e: RevisionHistorySummary| !pred(e))) by {
                assert forall|j: int| 0 <= j < back.len() implies !pred(#[trigger] back[j]) by {
                    assert(back[j] == t[p + j]);
                }
            }
            back.lemma_all_neg_filter_empty(pred);
            assert(back.filter(pred) =~= Seq::<RevisionHistorySummary>::empty());
            assert(newest_first(s).filter(pred) =~= s.filter(pred));
        } else {
            assert(newest_first(s).filter(pred) =~= s.filter(pred));
        }
    }
}

/// Orders history entries newest first (by id, largest first, stable).
pub fn sort_newest_first(entries: Vec<RevisionHistorySummary>) -> (r: Vec<RevisionHistorySummary>)
    ensures
        r@ == newest_first(entries@),
{
    let ghost input = entries@;
    let mut out: Vec<RevisionHistorySummary> = Vec::new();
    for x in it: entries.into_iter()
        invariant
            it.seq() == input,
            out@ == newest_first(input.take(it.index() as int)),
    {
        let ghost k = it.index() as int;
        proof {
            lemma_newest_first_len(input.take(k));
            lemma_insert_position_from(out@, x.id, 0);
        }
        let mut p: usize = 0;
        while p < out.len() && out[p].id >= x.id
            invariant
                p <= out@.len(),
                insert_position_from(out@, x.id, 0) == insert_position_from(out@, x.id, p as int),
            decreases out@.len() - p,
        {
            p = p + 1;
        }
        proof {
            assert(insert_position_from(out@, x.id, p as int) == p);
            assert(input.take(k + 1).drop_last() =~= input.take(k));
            assert(input.take(k + 1).last() == x);
        }
        out.insert(p, x);
    }
    proof {
        assert(input.take(input.len() as int) =~= input);
    }
    out
}

impl ApplicationHistorySummary {
    /// What the history summary of an application reports: every entry of
    /// its history, summarized, ordered newest first.
    pub open spec fn summarizes(self, application_name: String, app: Application) -> bool {
        let h = app_history(app);
        &&& self.application_name == application_name
        &&& self.total_entries == h.len()
        &&& self.entries@.len() == h.len()
        &&& exists|u: Seq<RevisionHistorySummary>| {
            &&& u.len() == h.len()
            &&& forall|i: int| 0 <= i < u.len() ==> (#[trigger] u[i]).summarizes(h[i])
            &&& self.entries@ == newest_first(u)
        }
    }

    /// The deployment history of an application, newest first.
    pub fn from_application(application_name: String, app: Application) -> (r: Self)
        ensures
            r.summarizes(application_name, app),
    {
        let ghost h = app_history(app);
        let history = match app.status {
            Some(st) => match st.history {
                Some(v) => v,
                None => Vec::new(),
            },
            None => Vec::new(),
        };
        assert(history@ == h);
        let mut summaries: Vec<RevisionHistorySummary> = Vec::new();
        for item in it: history.into_iter()
            invariant
                it.seq() == h,
                h == app_history(app),
                summaries@.len() == it.index(),
                forall|i: int| 0 <= i < summaries@.len() ==> (#[trigger] summaries@[i]).summarizes(h[i]),
        {
            summaries.push(RevisionHistorySummary::from_revision_history(item));
        }
        let ghost u = summaries@;
        let entries = sort_newest_first(summaries);
        proof {
            lemma_newest_first_len(u);
        }
        let total_entries = entries.len();
        ApplicationHistorySummary { application_name, total_entries, entries }
    }
}

/// The deployment history recorded in an application's status (empty when absent).
pub open spec fn app_history(app: Application) -> Seq<RevisionHistory> {
    match app.status {
        Some(st) => match st.history {
            Some(v) => v@,
            None => Seq::empty(),
        },
        None => Seq::empty(),
    }
}

} // verus!
