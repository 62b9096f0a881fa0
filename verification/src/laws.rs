//! What the summaries promise, stated over their inputs: the keywords that
//! make a log line a potential issue, who started a deployment, how events
//! are counted by reason, how replica counts are reported and when a
//! signature is valid.

use vstd::prelude::*;
use crate::events::{Event, EventList, EventListSummary, event_reasons};
use crate::json::{json_get, JsonValue};
use crate::logs::{entry_content, entry_potential_issue, kept_entries, AnalyzedLogEntry, LogEntry};
use crate::manifests::ResourceManifestSummary;
use crate::revision::{OperationInitiator, RevisionHistory, RevisionHistorySummary, RevisionMetadata, RevisionMetadataSummary};
use crate::tally::{count_of, counts_view, lemma_tally_counts, occurrences};
use crate::text::{contains_text, lower_case, occurs_at, signed_decimal};

verus! {

/// The words that mark a log line as a potential issue when its lower-cased
/// text contains one of them.
pub open spec fn problem_word(word: Seq<char>) -> bool {
    ||| word == "exception"@
    ||| word == "failed"@
    ||| word == "timeout"@
    ||| word == "panic"@
    ||| word == "crash"@
    ||| word == "unable to"@
    ||| word == "cannot"@
    ||| word == "refused"@
    ||| word == "denied"@
}

/// A log line whose lower-cased text contains one of the problem words is a
/// potential issue: every analysis of it says so, and the errors-only
/// filter keeps it.
pub proof fn lemma_problem_words_mark_issues(entries: Seq<LogEntry>, i: int, word: Seq<char>)
    requires
        0 <= i < entries.len(),
        problem_word(word),
        contains_text(lower_case(entry_content(entries[i])), word),
    ensures
        entry_potential_issue(entries[i]),
        forall|x: AnalyzedLogEntry| #[trigger] x.analyzes(entries[i]) ==> x.potential_issue,
        kept_entries(entries, true).contains(entries[i]),
{
    assert(entry_potential_issue(entries[i]));
    entries.lemma_filter_contains(|e: LogEntry| entry_potential_issue(e), i);
}

/// The user who started a deployment is reported as its initiator, and the
/// entry is automated exactly when the initiator says so.
pub proof fn lemma_history_names_the_user(s: RevisionHistorySummary, h: RevisionHistory, i: OperationInitiator, user: String)
    requires
        s.summarizes(h),
        h.initiated_by == Some(i),
        i.username == Some(user),
    ensures
        s.initiated_by matches Some(t) && t@ == user@,
        s.automated == (i.automated == Some(true)),
{
}

/// A deployment without a user that is automated is reported as started
/// by `Automated`.
pub proof fn lemma_history_automated_initiator(s: RevisionHistorySummary, h: RevisionHistory, i: OperationInitiator)
    requires
        s.summarizes(h),
        h.initiated_by == Some(i),
        i.username is None,
        i.automated == Some(true),
    ensures
        s.initiated_by matches Some(t) && t@ == "Automated"@,
        s.automated,
{
}

/// Number of events whose reason is `k`.
pub open spec fn events_with_reason(items: Seq<Event>, k: Seq<char>) -> nat {
    items.filter(|e: Event| e.reason matches Some(r) && r@ == k).len()
}

proof fn lemma_reason_occurrences(items: Seq<Event>, k: Seq<char>)
    ensures
        occurrences(event_reasons(items), k) == events_with_reason(items, k),
    decreases items.len(),
{
    reveal(Seq::filter);
    if items.len() > 0 {
        lemma_reason_occurrences(items.drop_last(), k);
        let rest = event_reasons(items.drop_last());
        match items.last().reason {
            Some(r) => {
                assert(rest.push(r@).drop_last() =~= rest);
            },
            None => {},
        }
    }
}

/// The count of events by reason records, for every reason, the number of
/// events that carry it.
pub proof fn lemma_events_counted_by_reason(s: EventListSummary, list: EventList, k: Seq<char>)
    requires
        s.summarizes(list),
    ensures
        count_of(counts_view(s.events_by_reason@), k) == events_with_reason(list.items@, k),
{
    lemma_tally_counts(event_reasons(list.items@), k);
    lemma_reason_occurrences(list.items@, k);
}

/// A status with no phase text and no list of conditions but a replica
/// count `replicas` is reported as `ready/replicas replicas ready`, where
/// `ready` is its `readyReplicas` number (0 when that is missing or not a
/// number).
pub proof fn lemma_replicas_reported(s: ResourceManifestSummary, doc: JsonValue, status: JsonValue, replicas: i64)
    requires
        s.describes(Some(doc)),
        json_get(doc, "status"@) == Some(status),
        !(json_get(status, "phase"@) matches Some(JsonValue::Str(_))),
        !(json_get(status, "conditions"@) matches Some(JsonValue::Array(_))),
        json_get(status, "replicas"@) == Some(JsonValue::Number(Some(replicas))),
    ensures
        s.status_summary matches Some(t) && t@ == signed_decimal(
            match json_get(status, "readyReplicas"@) {
                Some(JsonValue::Number(Some(ready))) => ready as int,
                _ => 0,
            },
        ) + "/"@ + signed_decimal(replicas as int) + " replicas ready"@,
{
}

/// A signature text that reports a good signature is summarized as valid.
pub proof fn lemma_good_signature_is_valid(s: RevisionMetadataSummary, m: RevisionMetadata, sig: String)
    requires
        s.summarizes(m),
        m.signature_info == Some(sig),
        contains_text(sig@, "Good signature"@),
    ensures
        s.signature_summary matches Some(v) && v@ == "Valid signature"@,
{
    reveal_strlit("Good signature");
    let i = choose|i: int| occurs_at(sig@, "Good signature"@, i);
    assert(sig@.len() > 0);
}

} // verus!
